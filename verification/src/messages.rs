//! The user-facing replies of the verification pipeline, each built
//! exactly as its specification states, character for character.

use vstd::prelude::*;

use crate::digits::{append_decimal, spec_decimal};
use crate::roles::{MutationOp, ReconcileError};

verus! {

/// Usage reply for a wrong argument count.
pub open spec fn spec_usage_message(prefix: Seq<char>) -> Seq<char> {
    "Invalid usage: `"@ + prefix + "verify Username`"@
}

pub fn usage_message(prefix: &str) -> (r: String)
    ensures
        r@ == spec_usage_message(prefix@),
{
    let mut s = String::from_str("Invalid usage: `");
    s.append(prefix);
    s.append("verify Username`");
    s
}

/// Length reply, with the observed length rendered in decimal.
pub open spec fn spec_length_message(n: int) -> Seq<char> {
    "Your Username is `"@ + spec_decimal(n)
        + "` characters long, which is impossible (3-16 characters). Please provide a valid Username and try again."@
}

pub fn length_message(n: usize) -> (r: String)
    ensures
        r@ == spec_length_message(n as int),
{
    let mut s = String::from_str("Your Username is `");
    append_decimal(&mut s, n as u64);
    s.append(
        "` characters long, which is impossible (3-16 characters). Please provide a valid Username and try again.",
    );
    s
}

/// No identity is linked on the remote profile.
pub open spec fn spec_not_linked_message() -> Seq<char> {
    "This User doesn't have any Discord linked on Hypixel. If you just changed it wait a few minutes and try again."@
}

pub fn not_linked_message() -> (r: String)
    ensures
        r@ == spec_not_linked_message(),
{
    String::from_str(
        "This User doesn't have any Discord linked on Hypixel. If you just changed it wait a few minutes and try again.",
    )
}

/// The account-lookup service failed or answered with bad data.
pub open spec fn spec_lookup_failed_message() -> Seq<char> {
    "There was an Error while contacting the Mojang API or it returned bad data (maybe an invalid Username). Please try again later."@
}

pub fn lookup_failed_message() -> (r: String)
    ensures
        r@ == spec_lookup_failed_message(),
{
    String::from_str(
        "There was an Error while contacting the Mojang API or it returned bad data (maybe an invalid Username). Please try again later.",
    )
}

/// The profile service failed or answered with bad data.
pub open spec fn spec_fetch_failed_message() -> Seq<char> {
    "There was an Error while contacting the Hypixel API or it returned bad data. Please try again later."@
}

pub fn fetch_failed_message() -> (r: String)
    ensures
        r@ == spec_fetch_failed_message(),
{
    String::from_str(
        "There was an Error while contacting the Hypixel API or it returned bad data. Please try again later.",
    )
}

/// The lookup answered that no such account exists.
pub open spec fn spec_not_found_message() -> Seq<char> {
    "Invalid Username (no UUID from Mojang API). Please try again."@
}

pub fn not_found_message() -> (r: String)
    ensures
        r@ == spec_not_found_message(),
{
    String::from_str("Invalid Username (no UUID from Mojang API). Please try again.")
}

/// The linked identity differs from the requester's tag; both values
/// are surfaced so the requester can self-diagnose.
pub open spec fn spec_mismatch_message(linked: Seq<char>, requester: Seq<char>) -> Seq<char> {
    "The linked Username `"@ + linked + "` doesn't match your Discord Username: `"@ + requester
        + "`. If you just changed this wait a bit and try again."@
}

pub fn mismatch_message(linked: &str, requester: &str) -> (r: String)
    ensures
        r@ == spec_mismatch_message(linked@, requester@),
{
    let mut s = String::from_str("The linked Username `");
    s.append(linked);
    s.append("` doesn't match your Discord Username: `");
    s.append(requester);
    s.append("`. If you just changed this wait a bit and try again.");
    s
}

/// The requester's own membership could not be read.
pub open spec fn spec_member_error_message() -> Seq<char> {
    "There was an Error while fetching your profile from the Discord API and therefore the bot can't assign you the roles. Please try again later"@
}

pub fn member_error_message() -> (r: String)
    ensures
        r@ == spec_member_error_message(),
{
    String::from_str(
        "There was an Error while fetching your profile from the Discord API and therefore the bot can't assign you the roles. Please try again later",
    )
}

/// Reply for a role label that the community does not carry.
pub open spec fn spec_reconcile_error_message(e: ReconcileError) -> Seq<char> {
    match e {
        ReconcileError::VerifiedRoleMissing => "Some Error occurred while trying to give you the Verified Role. This probably has to do something with permissions: Make sure the bot is over you in the Role hierarchy otherwise it can't assign you the roles."@,
        ReconcileError::RankRoleMissing => "Error while getting Rank roles, maybe they dont exist?"@,
    }
}

pub fn reconcile_error_message(e: ReconcileError) -> (r: String)
    ensures
        r@ == spec_reconcile_error_message(e),
{
    match e {
        ReconcileError::VerifiedRoleMissing => String::from_str(
            "Some Error occurred while trying to give you the Verified Role. This probably has to do something with permissions: Make sure the bot is over you in the Role hierarchy otherwise it can't assign you the roles.",
        ),
        ReconcileError::RankRoleMissing => String::from_str(
            "Error while getting Rank roles, maybe they dont exist?",
        ),
    }
}

/// Reply for the mutation sub-step that failed; the dominant cause is
/// the bot's own rank in the role hierarchy, so each names it.
pub open spec fn spec_mutation_failure_message(op: MutationOp) -> Seq<char> {
    match op {
        MutationOp::Grant(_) => "Some kind of Error occurred while trying to give you the role for your Rank. This probably has to do something with permissions: Make sure the bot is over you in the Role hierarchy otherwise it can't assign you the roles. Also make sure the roles exist."@,
        MutationOp::Revoke(_) => "Some kind of Error occurred while trying to give you the role for your Rank. This probably has to do something with permissions: Make sure the bot is over you in the Role hierarchy otherwise it can't assign you the roles."@,
        MutationOp::SetNickname(_) => "The bot was unable to change your nickname. This probably has to do something with permissions: Make sure the bot is over you in the Role hierarchy otherwise it can't assign change your nickname."@,
    }
}

pub fn mutation_failure_message(op: &MutationOp) -> (r: String)
    ensures
        r@ == spec_mutation_failure_message(*op),
{
    match op {
        MutationOp::Grant(_) => String::from_str(
            "Some kind of Error occurred while trying to give you the role for your Rank. This probably has to do something with permissions: Make sure the bot is over you in the Role hierarchy otherwise it can't assign you the roles. Also make sure the roles exist.",
        ),
        MutationOp::Revoke(_) => String::from_str(
            "Some kind of Error occurred while trying to give you the role for your Rank. This probably has to do something with permissions: Make sure the bot is over you in the Role hierarchy otherwise it can't assign you the roles.",
        ),
        MutationOp::SetNickname(_) => String::from_str(
            "The bot was unable to change your nickname. This probably has to do something with permissions: Make sure the bot is over you in the Role hierarchy otherwise it can't assign change your nickname.",
        ),
    }
}

/// Every step succeeded.
pub open spec fn spec_success_message() -> Seq<char> {
    "You now have all the roles and your Nickname was changed to your Minecraft Username."@
}

pub fn success_message() -> (r: String)
    ensures
        r@ == spec_success_message(),
{
    String::from_str(
        "You now have all the roles and your Nickname was changed to your Minecraft Username.",
    )
}

} // verus!
