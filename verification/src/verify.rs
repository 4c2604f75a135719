//! The verification orchestrator: a state machine over the stages
//! `Received -> Resolving -> Fetching -> Reconciling -> Applying`,
//! ending in `Succeeded` or `Failed`.
//!
//! The caller owns the remote calls alone: it performs the action that
//! each step returns and feeds the outcome back as the next event.
//! Identity matching runs inside the fetch-response step, since it
//! needs no further remote data.  Every decision — parsing the
//! command, validating the username length, classifying the fetched
//! attributes, matching the linked identity, reconciling the roles and
//! sequencing the mutations — is made and verified here.

use vstd::prelude::*;

use crate::digits::spec_decimal;
use crate::messages::{
    fetch_failed_message, length_message, lookup_failed_message, member_error_message,
    mismatch_message, mutation_failure_message, not_found_message, not_linked_message,
    reconcile_error_message, spec_fetch_failed_message, spec_length_message,
    spec_lookup_failed_message, spec_member_error_message, spec_mismatch_message,
    spec_mutation_failure_message, spec_not_found_message, spec_not_linked_message,
    spec_reconcile_error_message, spec_success_message, spec_usage_message, success_message,
    usage_message,
};
use crate::profile::{FetchError, ProfileAttributes, ResolutionError};
use crate::roles::{
    operation_plan, reconcile, spec_grant_set, spec_reconcile_error, spec_revoke_set, MutationOp,
    RoleInfo,
};
use crate::text::{count_char, find_char, lemma_count_char_pos, spec_count_char,
    spec_starts_with, str_eq, str_starts_with};

verus! {

/// The configuration a verification run is handed at its start: the
/// command prefix, the command word, the profile-service access key
/// and the configured verified-role label.
pub struct VerifyCommandArgs {
    pub prefix: String,
    pub command: String,
    pub api_key: String,
    pub role_name: String,
}

/// Outcome of matching the linked identity against the requester's
/// own tag.
#[derive(Clone, Debug, PartialEq, Eq)]
pub enum MatchResult {
    Matched,
    NoLinkedIdentity,
    Mismatch { linked: String, requester: String },
}

/// Exact comparison of the linked identity with the requester's tag:
/// no normalization and no case folding, so that a stale tag is
/// surfaced verbatim.
pub fn match_identity(linked: &Option<String>, requester_tag: &String) -> (r: MatchResult)
    ensures
        match linked {
            None => r == MatchResult::NoLinkedIdentity,
            Some(l) => if l@ == requester_tag@ {
                r == MatchResult::Matched
            } else {
                r == (MatchResult::Mismatch { linked: *l, requester: *requester_tag })
            },
        },
{
    match linked {
        None => MatchResult::NoLinkedIdentity,
        Some(l) => {
            if str_eq(l.as_str(), requester_tag.as_str()) {
                MatchResult::Matched
            } else {
                MatchResult::Mismatch { linked: l.clone(), requester: requester_tag.clone() }
            }
        },
    }
}

/// The discriminator as four decimal digits, shorter values padded
/// with leading zeroes.
pub open spec fn spec_pad4(n: int) -> Seq<char> {
    if n < 10 {
        seq!['0', '0', '0'] + spec_decimal(n)
    } else if n < 100 {
        seq!['0', '0'] + spec_decimal(n)
    } else if n < 1000 {
        seq!['0'] + spec_decimal(n)
    } else {
        spec_decimal(n)
    }
}

/// The requester's canonical tag: name, `#`, four-digit discriminator.
pub open spec fn spec_tag(name: Seq<char>, discriminator: int) -> Seq<char> {
    name + "#"@ + spec_pad4(discriminator)
}

/// Builds the requester's canonical platform tag.
pub fn canonical_tag(name: &str, discriminator: u16) -> (r: String)
    ensures
        r@ == spec_tag(name@, discriminator as int),
{
    let mut s = String::from_str(name);
    s.append("#");
    if discriminator < 10 {
        s.append("000");
    } else if discriminator < 100 {
        s.append("00");
    } else if discriminator < 1000 {
        s.append("0");
    }
    crate::digits::append_decimal(&mut s, discriminator as u64);
    proof {
        reveal_strlit("0");
        reveal_strlit("00");
        reveal_strlit("000");
        assert("000"@ =~= seq!['0', '0', '0']);
        assert("00"@ =~= seq!['0', '0']);
        assert("0"@ =~= seq!['0']);
        assert(s@ =~= spec_tag(name@, discriminator as int));
    }
    s
}

/// The stage a verification run stands in.
#[derive(Clone, Debug, PartialEq, Eq)]
pub enum VerifyState {
    Received,
    Resolving { username: String },
    Fetching { account_id: String },
    Reconciling { attrs: ProfileAttributes },
    Applying { remaining: Vec<MutationOp> },
    Succeeded,
    Failed,
}

/// One outcome of the outside world, fed back into the machine.
/// A `None` body stands for a transport failure or timeout.
pub enum Event {
    Command { content: String },
    LookupResponse { body: Option<String> },
    ProfileResponse { player_body: Option<String>, group_body: Option<String> },
    MemberSnapshot {
        member_ok: bool,
        current_roles: Vec<RoleInfo>,
        available_roles: Vec<RoleInfo>,
        configured_group: Option<String>,
    },
    MutationOutcome { ok: bool },
}

/// What the caller must do next.  `Reply` is terminal: exactly one
/// reply ends every run that the command addressed.
#[derive(Clone, Debug, PartialEq, Eq)]
pub enum Action {
    Ignore,
    Reply { message: String },
    CallLookup { username: String },
    CallProfile { account_id: String },
    ReadMember,
    Mutate { op: MutationOp },
}

/// The group membership is confirmed: a group is configured and the
/// fetched group name equals it exactly.
pub open spec fn spec_group_confirmed(configured: Option<String>, fetched: Option<String>) -> bool {
    &&& configured is Some
    &&& fetched is Some
    &&& configured->0@ == fetched->0@
}

/// Compares the fetched group name with the configured one; an
/// unconfirmed membership is never evidence of non-membership.
pub fn group_confirmed(configured: &Option<String>, fetched: &Option<String>) -> (r: bool)
    ensures
        r == spec_group_confirmed(*configured, *fetched),
{
    match (configured, fetched) {
        (Some(c), Some(f)) => str_eq(c.as_str(), f.as_str()),
        _ => false,
    }
}

fn dup_op(op: &MutationOp) -> (r: MutationOp)
    ensures
        r == *op,
{
    match op {
        MutationOp::Grant(id) => MutationOp::Grant(*id),
        MutationOp::Revoke(id) => MutationOp::Revoke(*id),
        MutationOp::SetNickname(n) => MutationOp::SetNickname(n.clone()),
    }
}

/// What the command step fixes of its successor pair, over the raw
/// message text.  A message that does not start with the command is
/// ignored; a wrong argument count earns the usage reply; a username
/// outside 3 to 16 characters earns the length reply with the
/// observed length, and no remote call is ever issued for it.
pub open spec fn spec_command_step(
    content: Seq<char>,
    prefix: Seq<char>,
    command: Seq<char>,
    s2: VerifyState,
    a: Action,
) -> bool {
    &&& (s2 is Received || s2 is Failed || s2 is Resolving)
    &&& (a is Ignore <==> s2 is Received)
    &&& (a is Reply <==> s2 is Failed)
    &&& ((a matches Action::CallLookup { .. }) <==> s2 is Resolving)
    &&& (!spec_starts_with(content, prefix + command) ==> (s2 is Received && a is Ignore))
    &&& ((spec_starts_with(content, prefix + command) && spec_count_char(content, ' ') != 1)
        ==> (s2 is Failed && (a matches Action::Reply { message } && message@
        == spec_usage_message(prefix))))
    &&& ((spec_starts_with(content, prefix + command) && spec_count_char(content, ' ') == 1)
        ==> (forall|k: int|
        (0 <= k < content.len() && #[trigger] content[k] == ' ' && (forall|j: int|
            0 <= j < k ==> content[j] != ' ')) ==> {
            let u = content.subrange(k + 1, content.len() as int);
            if 3 <= u.len() <= 16 {
                &&& s2 matches VerifyState::Resolving { username } && username@ == u
                &&& a matches Action::CallLookup { username: u2 } && u2@ == u
            } else {
                &&& s2 is Failed
                &&& a matches Action::Reply { message } && message@ == spec_length_message(
                    u.len() as int,
                )
            }
        }))
}

/// First step: reads the command text; see [`spec_command_step`].
pub fn on_command(content: &String, config: &VerifyCommandArgs) -> (r: (VerifyState, Action))
    ensures
        spec_command_step(content@, config.prefix@, config.command@, r.0, r.1),
{
    let mut cmd = String::from_str(config.prefix.as_str());
    cmd.append(config.command.as_str());
    if !str_starts_with(content.as_str(), cmd.as_str()) {
        return (VerifyState::Received, Action::Ignore);
    }
    let spaces = count_char(content.as_str(), ' ');
    if spaces != 1 {
        return (
            VerifyState::Failed,
            Action::Reply { message: usage_message(config.prefix.as_str()) },
        );
    }
    let k = match find_char(content.as_str(), ' ') {
        Some(k) => k,
        None => {
            proof {
                lemma_count_char_pos(content@, ' ');
            }
            return (VerifyState::Received, Action::Ignore);
        },
    };
    let len = content.as_str().unicode_len();
    let ulen = len - k - 1;
    let ghost u = content@.subrange(k as int + 1, content@.len() as int);
    proof {
        assert(u.len() == ulen);
        assert forall|k2: int|
            (0 <= k2 < content@.len() && #[trigger] content@[k2] == ' ' && (forall|j: int|
                0 <= j < k2 ==> content@[j] != ' ')) implies k2 == k by {
            if k2 < k {
                assert(content@[k2] != ' ');
            } else if k2 > k {
                assert(content@[k as int] != ' ');
            }
        }
    }
    if 3 <= ulen && ulen <= 16 {
        let username = content.as_str().substring_char(k + 1, len).to_owned();
        let username2 = username.clone();
        (
            VerifyState::Resolving { username },
            Action::CallLookup { username: username2 },
        )
    } else {
        (VerifyState::Failed, Action::Reply { message: length_message(ulen) })
    }
}

/// The pure resolver decision on the lookup outcome.
pub fn lookup_transition(outcome: Result<String, ResolutionError>) -> (r: (VerifyState, Action))
    ensures
        match outcome {
            Ok(id) => {
                &&& r.0 matches VerifyState::Fetching { account_id } && account_id == id
                &&& r.1 matches Action::CallProfile { account_id: a2 } && a2 == id
            },
            Err(ResolutionError::NotFound) => {
                &&& r.0 is Failed
                &&& r.1 matches Action::Reply { message } && message@ == spec_not_found_message()
            },
            Err(ResolutionError::LookupFailed) => {
                &&& r.0 is Failed
                &&& r.1 matches Action::Reply { message } && message@
                    == spec_lookup_failed_message()
            },
        },
{
    match outcome {
        Ok(id) => {
            let id2 = id.clone();
            (VerifyState::Fetching { account_id: id }, Action::CallProfile { account_id: id2 })
        },
        Err(ResolutionError::NotFound) => (
            VerifyState::Failed,
            Action::Reply { message: not_found_message() },
        ),
        Err(ResolutionError::LookupFailed) => (
            VerifyState::Failed,
            Action::Reply { message: lookup_failed_message() },
        ),
    }
}

/// What the resolver step fixes of its successor pair: a missing body
/// is a lookup failure, and a present one moves on or fails exactly
/// as its decode ([`crate::json::spec_resolution_of`]) says.
pub open spec fn spec_lookup_step(body: Option<String>, s2: VerifyState, a: Action) -> bool {
    &&& (s2 is Fetching || s2 is Failed)
    &&& (s2 is Fetching <==> a matches Action::CallProfile { .. })
    &&& (s2 is Failed <==> a is Reply)
    &&& (match body {
        None => s2 is Failed && (a matches Action::Reply { message } && message@
            == spec_lookup_failed_message()),
        Some(b) => match crate::json::spec_resolution_of(b@) {
            Ok(id) => (s2 matches VerifyState::Fetching { account_id } && account_id@ == id) && (
            a matches Action::CallProfile { account_id: a2 } && a2@ == id),
            Err(ResolutionError::NotFound) => s2 is Failed && (a matches Action::Reply { message }
                && message@ == spec_not_found_message()),
            Err(ResolutionError::LookupFailed) => s2 is Failed && (a matches Action::Reply {
                message,
            } && message@ == spec_lookup_failed_message()),
        },
    })
}

/// Resolver step: decodes the lookup body and moves on to the fetch,
/// or fails with the resolution reply; see [`spec_lookup_step`].
pub fn on_lookup(body: &Option<String>) -> (r: (VerifyState, Action))
    ensures
        spec_lookup_step(*body, r.0, r.1),
{
    let outcome = crate::json::resolve_from_response(body);
    lookup_transition(outcome)
}

/// The pure fetcher-and-matcher decision on the fetch outcome.
pub fn profile_transition(
    outcome: Result<ProfileAttributes, FetchError>,
    requester_tag: &String,
) -> (r: (VerifyState, Action))
    ensures
        match outcome {
            Err(FetchError::ServiceError) => {
                &&& r.0 is Failed
                &&& r.1 matches Action::Reply { message } && message@
                    == spec_fetch_failed_message()
            },
            Ok(attrs) => match attrs.linked_identity {
                None => {
                    &&& r.0 is Failed
                    &&& r.1 matches Action::Reply { message } && message@
                        == spec_not_linked_message()
                },
                Some(l) => if l@ == requester_tag@ {
                    &&& r.0 matches VerifyState::Reconciling { attrs: a2 } && a2 == attrs
                    &&& r.1 is ReadMember
                } else {
                    &&& r.0 is Failed
                    &&& r.1 matches Action::Reply { message } && message@ == spec_mismatch_message(
                        l@,
                        requester_tag@,
                    )
                },
            },
        },
{
    match outcome {
        Err(FetchError::ServiceError) => (
            VerifyState::Failed,
            Action::Reply { message: fetch_failed_message() },
        ),
        Ok(attrs) => {
            match match_identity(&attrs.linked_identity, requester_tag) {
                MatchResult::Matched => (VerifyState::Reconciling { attrs }, Action::ReadMember),
                MatchResult::NoLinkedIdentity => (
                    VerifyState::Failed,
                    Action::Reply { message: not_linked_message() },
                ),
                MatchResult::Mismatch { linked, requester } => (
                    VerifyState::Failed,
                    Action::Reply {
                        message: mismatch_message(linked.as_str(), requester.as_str()),
                    },
                ),
            }
        },
    }
}

/// What the fetcher step fixes of its successor pair: a missing,
/// unparsable, player-less or nameless profile body is one and the
/// same service error; otherwise the named decode of the two bodies
/// fixes the attributes, and the linked identity decides the match.
pub open spec fn spec_profile_step(
    player_body: Option<String>,
    group_body: Option<String>,
    requester_tag: Seq<char>,
    s2: VerifyState,
    a: Action,
) -> bool {
    &&& (s2 is Reconciling || s2 is Failed)
    &&& (s2 is Reconciling <==> a is ReadMember)
    &&& (s2 is Failed <==> a is Reply)
    &&& (match player_body {
        None => s2 is Failed && (a matches Action::Reply { message } && message@
            == spec_fetch_failed_message()),
        Some(b) => {
            if crate::json::spec_profile_malformed(b@) {
                s2 is Failed && (a matches Action::Reply { message } && message@
                    == spec_fetch_failed_message())
            } else {
                let p = crate::json::spec_player_of(b@)->0;
                match crate::json::spec_linked_identity_of(p) {
                    None => s2 is Failed && (a matches Action::Reply { message } && message@
                        == spec_not_linked_message()),
                    Some(l) => if l == requester_tag {
                        (s2 matches VerifyState::Reconciling { attrs } && {
                            &&& crate::profile::spec_opt_view(attrs.linked_identity) == Some(l)
                            &&& attrs.rank_tier == crate::json::spec_profile_rank(p)
                            &&& Some(attrs.display_name@) == crate::json::spec_field_string(
                                p,
                                "displayname"@,
                            )
                            &&& crate::profile::spec_opt_view(attrs.group_name)
                                == crate::json::spec_group_of(group_body)
                        }) && a is ReadMember
                    } else {
                        s2 is Failed && (a matches Action::Reply { message } && message@
                            == spec_mismatch_message(l, requester_tag))
                    },
                }
            }
        },
    })
}

/// Fetcher step: decodes the profile and guild bodies, matches the
/// linked identity, and moves on to reading the member, or fails with
/// the fetch or match reply; see [`spec_profile_step`].
pub fn on_profile(
    player_body: &Option<String>,
    group_body: &Option<String>,
    requester_tag: &String,
) -> (r: (VerifyState, Action))
    ensures
        spec_profile_step(*player_body, *group_body, requester_tag@, r.0, r.1),
{
    let outcome = crate::json::fetch_from_response(player_body, group_body);
    profile_transition(outcome, requester_tag)
}

/// What the reconciler step fixes of its successor pair: an unreadable
/// member or a missing configured role fails with its reply; otherwise
/// the mutation plan starts, with grants first, revocations second and
/// the nickname last, its grants exactly the missing target roles and
/// its revocations exactly the no-longer-applicable tier roles.
pub open spec fn spec_member_step(
    member_ok: bool,
    current_roles: Seq<RoleInfo>,
    available_roles: Seq<RoleInfo>,
    configured_group: Option<String>,
    attrs: ProfileAttributes,
    role_name: Seq<char>,
    s2: VerifyState,
    a: Action,
) -> bool {
    let gm = spec_group_confirmed(configured_group, attrs.group_name);
    &&& (!member_ok ==> (s2 is Failed && (a matches Action::Reply { message } && message@
        == spec_member_error_message())))
    &&& (member_ok ==> match spec_reconcile_error(available_roles, attrs.rank_tier, role_name) {
        Some(e) => s2 is Failed && (a matches Action::Reply { message } && message@
            == spec_reconcile_error_message(e)),
        None => (s2, a) matches (VerifyState::Applying { remaining }, Action::Mutate { op }) && {
            let grants = spec_grant_set(
                current_roles,
                available_roles,
                attrs.rank_tier,
                role_name,
                gm,
            );
            let revokes = spec_revoke_set(current_roles, available_roles, attrs.rank_tier);
            &&& remaining@.len() >= 1
            &&& op == remaining@[0]
            &&& forall|id: u64| remaining@.contains(MutationOp::Grant(id)) == grants.contains(id)
            &&& forall|id: u64| remaining@.contains(MutationOp::Revoke(id)) == revokes.contains(id)
            &&& remaining@.last() == MutationOp::SetNickname(attrs.display_name)
            &&& forall|i: int|
                0 <= i < remaining@.len() ==> ((#[trigger] remaining@[i]) is SetNickname <==> i
                    == remaining@.len() - 1)
            &&& forall|i: int, j: int|
                0 <= i < j < remaining@.len() && (#[trigger] remaining@[i]) is Revoke ==> !((
                #[trigger] remaining@[j]) is Grant)
            &&& remaining@.no_duplicates()
        },
    })
}

/// Reconciler step: on the member snapshot, computes the delta and
/// starts applying it, or fails with the member or role-lookup reply;
/// see [`spec_member_step`].
pub fn member_transition(
    member_ok: bool,
    current_roles: Vec<RoleInfo>,
    available_roles: Vec<RoleInfo>,
    configured_group: Option<String>,
    attrs: ProfileAttributes,
    config: &VerifyCommandArgs,
) -> (r: (VerifyState, Action))
    ensures
        spec_member_step(
            member_ok,
            current_roles@,
            available_roles@,
            configured_group,
            attrs,
            config.role_name@,
            r.0,
            r.1,
        ),
{
    if !member_ok {
        return (VerifyState::Failed, Action::Reply { message: member_error_message() });
    }
    let gm = group_confirmed(&configured_group, &attrs.group_name);
    match reconcile(
        &current_roles,
        &available_roles,
        attrs.rank_tier,
        &config.role_name,
        gm,
        &attrs.display_name,
    ) {
        Err(e) => (VerifyState::Failed, Action::Reply { message: reconcile_error_message(e) }),
        Ok(delta) => {
            let plan = operation_plan(&delta);
            let op = dup_op(&plan[0]);
            (VerifyState::Applying { remaining: plan }, Action::Mutate { op })
        },
    }
}

/// What the apply step fixes of its successor pair: a failed
/// sub-operation reports its own message and stops — everything
/// already applied stays applied, with no compensating mutation — a
/// successful one hands out the next, and the last one reports
/// success.
pub open spec fn spec_mutation_step(
    remaining: Seq<MutationOp>,
    ok: bool,
    s2: VerifyState,
    a: Action,
) -> bool {
    &&& (remaining.len() == 0 ==> (s2 is Failed && a is Ignore))
    &&& (remaining.len() > 0 ==> {
        let op = remaining[0];
        if !ok {
            &&& s2 is Failed
            &&& a matches Action::Reply { message } && message@ == spec_mutation_failure_message(
                op,
            )
        } else if remaining.len() == 1 {
            &&& s2 is Succeeded
            &&& a matches Action::Reply { message } && message@ == spec_success_message()
        } else {
            &&& s2 matches VerifyState::Applying { remaining: rem2 } && rem2@
                == remaining.drop_first()
            &&& a matches Action::Mutate { op: op2 } && op2 == remaining[1]
        }
    })
}

/// Apply step; see [`spec_mutation_step`].
pub fn mutation_transition(remaining: Vec<MutationOp>, ok: bool) -> (r: (VerifyState, Action))
    ensures
        spec_mutation_step(remaining@, ok, r.0, r.1),
{
    if remaining.len() == 0 {
        return (VerifyState::Failed, Action::Ignore);
    }
    let mut rem = remaining;
    let op = rem.remove(0);
    proof {
        assert(rem@ =~= remaining@.drop_first());
    }
    if !ok {
        (VerifyState::Failed, Action::Reply { message: mutation_failure_message(&op) })
    } else if rem.len() == 0 {
        (VerifyState::Succeeded, Action::Reply { message: success_message() })
    } else {
        let next = dup_op(&rem[0]);
        (VerifyState::Applying { remaining: rem }, Action::Mutate { op: next })
    }
}

/// Advances the machine by one event.  A terminal state stays where
/// it is and does nothing; an event out of turn changes nothing; each
/// remote call is only ever issued by its own stage, so no run calls
/// a service twice; and each in-turn event is fixed by its own step's
/// predicate.
pub fn step(
    state: VerifyState,
    event: Event,
    config: &VerifyCommandArgs,
    requester_tag: &String,
) -> (r: (VerifyState, Action))
    ensures
        ({
            let (s2, a) = r;
            &&& ((state is Succeeded || state is Failed) ==> (s2 == state && a is Ignore))
            &&& (a matches Action::CallLookup { .. } ==> (state is Received && event is Command))
            &&& (a matches Action::CallProfile { .. } ==> state is Resolving)
            &&& (a is ReadMember ==> state is Fetching)
            &&& (a matches Action::Mutate { .. } ==> (state is Reconciling || state is Applying))
            &&& (match (state, event) {
                (VerifyState::Received, Event::Command { content }) => spec_command_step(
                    content@,
                    config.prefix@,
                    config.command@,
                    s2,
                    a,
                ),
                (VerifyState::Resolving { .. }, Event::LookupResponse { body }) => spec_lookup_step(
                    body,
                    s2,
                    a,
                ),
                (
                    VerifyState::Fetching { .. },
                    Event::ProfileResponse { player_body, group_body },
                ) => spec_profile_step(player_body, group_body, requester_tag@, s2, a),
                (
                    VerifyState::Reconciling { attrs },
                    Event::MemberSnapshot {
                        member_ok,
                        current_roles,
                        available_roles,
                        configured_group,
                    },
                ) => spec_member_step(
                    member_ok,
                    current_roles@,
                    available_roles@,
                    configured_group,
                    attrs,
                    config.role_name@,
                    s2,
                    a,
                ),
                (VerifyState::Applying { remaining }, Event::MutationOutcome { ok }) => spec_mutation_step(
                    remaining@,
                    ok,
                    s2,
                    a,
                ),
                _ => s2 == state && a is Ignore,
            })
        }),
{
    match (state, event) {
        (VerifyState::Received, Event::Command { content }) => on_command(&content, config),
        (VerifyState::Resolving { username: _ }, Event::LookupResponse { body }) => on_lookup(
            &body,
        ),
        (
            VerifyState::Fetching { account_id: _ },
            Event::ProfileResponse { player_body, group_body },
        ) => on_profile(&player_body, &group_body, requester_tag),
        (
            VerifyState::Reconciling { attrs },
            Event::MemberSnapshot { member_ok, current_roles, available_roles, configured_group },
        ) => member_transition(
            member_ok,
            current_roles,
            available_roles,
            configured_group,
            attrs,
            config,
        ),
        (VerifyState::Applying { remaining }, Event::MutationOutcome { ok }) => mutation_transition(
            remaining,
            ok,
        ),
        (s, _) => (s, Action::Ignore),
    }
}

} // verus!
