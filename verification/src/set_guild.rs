//! The command that stores the community's configured group name:
//! argument parsing, the permission decision and the replies.  The
//! store write itself lives with the caller.

use vstd::prelude::*;

use crate::digits::{append_decimal, spec_decimal};
use crate::text::find_char;

verus! {

/// The configured prefix and command word this command answers to.
pub struct CommandArgs {
    pub prefix: String,
    pub command: String,
}

/// The store key of a community's configuration.
pub open spec fn spec_config_key(guild_id: int) -> Seq<char> {
    "verifybot:config:"@ + spec_decimal(guild_id)
}

/// Builds the store key of a community's configuration.
pub fn config_key(guild_id: u64) -> (r: String)
    ensures
        r@ == spec_config_key(guild_id as int),
{
    let mut s = String::from_str("verifybot:config:");
    append_decimal(&mut s, guild_id);
    s
}

/// The group-name argument: everything after the first space, spaces
/// included.  `None` where the command carries no argument at all.
pub fn parse_guild_name(content: &str) -> (r: Option<String>)
    ensures
        match r {
            Some(name) => exists|k: int|
                0 <= k < content@.len() && #[trigger] content@[k] == ' ' && (forall|j: int|
                    0 <= j < k ==> content@[j] != ' ') && name@ == content@.subrange(
                    k + 1,
                    content@.len() as int,
                ),
            None => forall|j: int| 0 <= j < content@.len() ==> content@[j] != ' ',
        },
{
    match find_char(content, ' ') {
        None => None,
        Some(k) => {
            let len = content.unicode_len();
            let name = content.substring_char(k + 1, len).to_owned();
            Some(name)
        },
    }
}

/// Reply for a caller without the manage-community permission.
pub open spec fn spec_permission_message() -> Seq<char> {
    "You need the \"Manage Guild\" Permission to use this command"@
}

pub fn permission_message() -> (r: String)
    ensures
        r@ == spec_permission_message(),
{
    String::from_str("You need the \"Manage Guild\" Permission to use this command")
}

/// Usage reply, showing the full command.
pub open spec fn spec_set_guild_usage_message(command: Seq<char>) -> Seq<char> {
    "Invalid usage: "@ + command + " [name]"@
}

pub fn set_guild_usage_message(command: &str) -> (r: String)
    ensures
        r@ == spec_set_guild_usage_message(command@),
{
    let mut s = String::from_str("Invalid usage: ");
    s.append(command);
    s.append(" [name]");
    s
}

/// Reply after the new group name is stored.
pub open spec fn spec_guild_saved_message() -> Seq<char> {
    "Successfully set the new Guild name."@
}

pub fn guild_saved_message() -> (r: String)
    ensures
        r@ == spec_guild_saved_message(),
{
    String::from_str("Successfully set the new Guild name.")
}

/// Reply for any failure while executing the command.
pub open spec fn spec_set_guild_error_message() -> Seq<char> {
    "An Error occured while executing this command."@
}

pub fn set_guild_error_message() -> (r: String)
    ensures
        r@ == spec_set_guild_error_message(),
{
    String::from_str("An Error occured while executing this command.")
}

} // verus!
