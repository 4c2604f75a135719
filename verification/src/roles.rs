//! Role reconciliation: from the requester's current role set, the
//! derived rank tier and the confirmed group membership to the minimal
//! set of role grants and revocations plus a nickname change.
//!
//! The computed delta grants nothing that is already held and revokes
//! only the tier roles that no longer apply, so re-running verification
//! on an already-correct member changes nothing (see
//! [`lemma_reconcile_idempotent`]).

use vstd::prelude::*;

use crate::rank::RankTier;
use crate::text::str_eq;

verus! {

/// A role of the community: its identifier and its display name.
#[derive(Clone, Debug, PartialEq, Eq)]
pub struct RoleInfo {
    pub id: u64,
    pub name: String,
}

/// The changes that bring a member's access in line with the verified
/// attributes.  `grant` and `revoke` are disjoint and free of
/// duplicates; a held role that already matches is touched by neither.
#[derive(Clone, Debug, PartialEq, Eq)]
pub struct RoleDelta {
    pub grant: Vec<u64>,
    pub revoke: Vec<u64>,
    pub nickname: Option<String>,
}

/// A role that the reconciliation step must look up by its configured
/// label but that the community does not carry.  The group role is
/// not here: group membership is best effort, and its role's absence
/// only skips that grant.
#[derive(Clone, Copy, Debug, PartialEq, Eq, Structural)]
pub enum ReconcileError {
    VerifiedRoleMissing,
    RankRoleMissing,
}

/// The label of the community-member role granted on a confirmed
/// group membership.
pub open spec fn spec_group_label() -> Seq<char> {
    "Guild Member"@
}

/// The five fixed tier role labels.
pub open spec fn spec_is_tier_label(s: Seq<char>) -> bool {
    ||| s == "VIP"@
    ||| s == "VIP+"@
    ||| s == "MVP"@
    ||| s == "MVP+"@
    ||| s == "MVP++"@
}

/// The role label of a tier; an untiered account targets no role.
pub open spec fn spec_rank_label(t: RankTier) -> Option<Seq<char>> {
    match t {
        RankTier::Default => None,
        RankTier::Vip => Some("VIP"@),
        RankTier::VipPlus => Some("VIP+"@),
        RankTier::Mvp => Some("MVP"@),
        RankTier::MvpPlus => Some("MVP+"@),
        RankTier::MvpPlusPlus => Some("MVP++"@),
    }
}

/// Tier-label test on a role name.
pub fn is_tier_label(name: &str) -> (r: bool)
    ensures
        r == spec_is_tier_label(name@),
{
    str_eq(name, "VIP") || str_eq(name, "VIP+") || str_eq(name, "MVP") || str_eq(name, "MVP+")
        || str_eq(name, "MVP++")
}

/// The role label of a tier.
pub fn rank_label(t: RankTier) -> (r: Option<&'static str>)
    ensures
        match r {
            Some(l) => spec_rank_label(t) == Some(l@),
            None => spec_rank_label(t) is None,
        },
{
    match t {
        RankTier::Default => None,
        RankTier::Vip => Some("VIP"),
        RankTier::VipPlus => Some("VIP+"),
        RankTier::Mvp => Some("MVP"),
        RankTier::MvpPlus => Some("MVP+"),
        RankTier::MvpPlusPlus => Some("MVP++"),
    }
}

/// The id of the first role carrying the name, if any.
pub open spec fn spec_find_role(roles: Seq<RoleInfo>, name: Seq<char>) -> Option<u64>
    decreases roles.len(),
{
    if roles.len() == 0 {
        None
    } else if roles[0].name@ == name {
        Some(roles[0].id)
    } else {
        spec_find_role(roles.drop_first(), name)
    }
}

/// A found role id belongs to a role of that name; a missing one means
/// no role carries the name.
pub proof fn lemma_find_role_properties(roles: Seq<RoleInfo>, name: Seq<char>)
    ensures
        match spec_find_role(roles, name) {
            Some(id) => exists|i: int|
                0 <= i < roles.len() && roles[i].id == id && roles[i].name@ == name,
            None => forall|i: int| 0 <= i < roles.len() ==> roles[i].name@ != name,
        },
    decreases roles.len(),
{
    if roles.len() > 0 && roles[0].name@ != name {
        lemma_find_role_properties(roles.drop_first(), name);
        let rest = roles.drop_first();
        match spec_find_role(roles, name) {
            Some(id) => {
                let i = choose|i: int|
                    0 <= i < rest.len() && rest[i].id == id && rest[i].name@ == name;
                assert(roles[i + 1].id == id && roles[i + 1].name@ == name);
            },
            None => {
                assert forall|i: int| 0 <= i < roles.len() implies roles[i].name@ != name by {
                    if i > 0 {
                        assert(rest[i - 1] == roles[i]);
                    }
                }
            },
        }
    }
}

fn find_role_from(roles: &Vec<RoleInfo>, name: &str, i: usize) -> (r: Option<u64>)
    requires
        i <= roles@.len(),
    ensures
        r == spec_find_role(roles@.skip(i as int), name@),
    decreases roles@.len() - i,
{
    if i == roles.len() {
        proof {
            assert(roles@.skip(i as int) =~= Seq::<RoleInfo>::empty());
        }
        None
    } else if str_eq(roles[i].name.as_str(), name) {
        proof {
            assert(roles@.skip(i as int)[0] == roles@[i as int]);
        }
        Some(roles[i].id)
    } else {
        let r = find_role_from(roles, name, i + 1);
        proof {
            assert(roles@.skip(i as int)[0] == roles@[i as int]);
            assert(roles@.skip(i as int).drop_first() =~= roles@.skip(i as int + 1));
        }
        r
    }
}

/// Looks a role up by name; where several carry it, the first counts.
pub fn find_role_by_name(roles: &Vec<RoleInfo>, name: &str) -> (r: Option<u64>)
    ensures
        r == spec_find_role(roles@, name@),
{
    let r = find_role_from(roles, name, 0);
    proof {
        assert(roles@.skip(0) =~= roles@);
    }
    r
}

/// The member holds a role with this id.
pub open spec fn spec_held(roles: Seq<RoleInfo>, id: u64) -> bool {
    exists|i: int| 0 <= i < roles.len() && roles[i].id == id
}

/// Membership test on a role set.
pub fn holds_role(roles: &Vec<RoleInfo>, id: u64) -> (r: bool)
    ensures
        r == spec_held(roles@, id),
{
    let mut i: usize = 0;
    while i < roles.len()
        invariant
            i <= roles@.len(),
            forall|j: int| 0 <= j < i ==> roles@[j].id != id,
        decreases roles@.len() - i,
    {
        if roles[i].id == id {
            return true;
        }
        i = i + 1;
    }
    false
}

fn contains_id(v: &Vec<u64>, id: u64) -> (r: bool)
    ensures
        r == v@.contains(id),
{
    let mut i: usize = 0;
    while i < v.len()
        invariant
            i <= v@.len(),
            forall|j: int| 0 <= j < i ==> v@[j] != id,
        decreases v@.len() - i,
    {
        if v[i] == id {
            return true;
        }
        i = i + 1;
    }
    false
}

proof fn lemma_push_contains(s: Seq<u64>, e: u64, x: u64)
    ensures
        s.push(e).contains(x) <==> (s.contains(x) || x == e),
{
    if s.push(e).contains(x) {
        let k = choose|k: int| 0 <= k < s.push(e).len() && s.push(e)[k] == x;
        if k < s.len() {
            assert(s[k] == x);
        }
    }
    if s.contains(x) {
        let k = choose|k: int| 0 <= k < s.len() && s[k] == x;
        assert(s.push(e)[k] == x);
    }
    assert(s.push(e)[s.len() as int] == e);
}

proof fn lemma_push_no_dup(s: Seq<u64>, e: u64)
    requires
        s.no_duplicates(),
        !s.contains(e),
    ensures
        s.push(e).no_duplicates(),
{
    let t = s.push(e);
    assert forall|i: int, j: int|
        0 <= i < t.len() && 0 <= j < t.len() && i != j implies t[i] != t[j] by {
        if i < s.len() && j < s.len() {
            assert(t[i] == s[i] && t[j] == s[j]);
        } else if j == s.len() {
            assert(t[j] == e);
            if t[i] == e {
                assert(s[i] == e);
                assert(s.contains(e));
            }
        } else {
            assert(t[i] == e);
            if t[j] == e {
                assert(s[j] == e);
                assert(s.contains(e));
            }
        }
    }
}

/// The rank role targeted: the first role named with the tier's label.
pub open spec fn spec_rank_target(available: Seq<RoleInfo>, rank: RankTier) -> Option<u64> {
    match spec_rank_label(rank) {
        Some(l) => spec_find_role(available, l),
        None => None,
    }
}

/// The role lookup that reconciliation fails on, if any: the verified
/// role always, and the tier's role where one is targeted.
pub open spec fn spec_reconcile_error(
    available: Seq<RoleInfo>,
    rank: RankTier,
    verified_label: Seq<char>,
) -> Option<ReconcileError> {
    if spec_find_role(available, verified_label) is None {
        Some(ReconcileError::VerifiedRoleMissing)
    } else if spec_rank_label(rank) is Some && spec_find_role(
        available,
        spec_rank_label(rank)->0,
    ) is None {
        Some(ReconcileError::RankRoleMissing)
    } else {
        None
    }
}

pub open spec fn spec_opt_is(o: Option<u64>, id: u64) -> bool {
    o matches Some(v) && v == id
}

/// The ids the member should hold after verification: the verified
/// role, the targeted rank role, and the group role where membership
/// was confirmed.
pub open spec fn spec_target_ids(
    available: Seq<RoleInfo>,
    rank: RankTier,
    verified_label: Seq<char>,
    group_matches: bool,
) -> Set<u64> {
    Set::new(
        |id: u64|
            {
                ||| spec_opt_is(spec_find_role(available, verified_label), id)
                ||| spec_opt_is(spec_rank_target(available, rank), id)
                ||| (group_matches && spec_opt_is(spec_find_role(available, spec_group_label()), id))
            },
    )
}

/// What is granted: every targeted role that is not already held.
pub open spec fn spec_grant_set(
    current: Seq<RoleInfo>,
    available: Seq<RoleInfo>,
    rank: RankTier,
    verified_label: Seq<char>,
    group_matches: bool,
) -> Set<u64> {
    Set::new(
        |id: u64|
            spec_target_ids(available, rank, verified_label, group_matches).contains(id)
                && !spec_held(current, id),
    )
}

/// `id` is revoked by the first `upto` held roles: one of them carries
/// it under a tier label and it is not the targeted rank role.
pub open spec fn spec_revoked_among(
    current: Seq<RoleInfo>,
    upto: int,
    rank_target: Option<u64>,
    id: u64,
) -> bool {
    (exists|j: int|
        0 <= j < upto && current[j].id == id && spec_is_tier_label(current[j].name@))
        && !spec_opt_is(rank_target, id)
}

/// What is revoked: every held role carrying a tier label that is not
/// the targeted rank role.
pub open spec fn spec_revoke_set(
    current: Seq<RoleInfo>,
    available: Seq<RoleInfo>,
    rank: RankTier,
) -> Set<u64> {
    Set::new(
        |id: u64|
            (exists|i: int|
                0 <= i < current.len() && current[i].id == id && spec_is_tier_label(
                    current[i].name@,
                )) && !spec_opt_is(spec_rank_target(available, rank), id),
    )
}

/// Computes the role delta.  `current` is the member's role set,
/// `available` the community's; `group_matches` says whether the
/// fetched group name equals the configured one.  The nickname is
/// always proposed, independent of the rank outcome.  Group
/// membership is non-essential: where the community lacks the group
/// role, that grant is skipped rather than failing the run.
pub fn reconcile(
    current: &Vec<RoleInfo>,
    available: &Vec<RoleInfo>,
    rank: RankTier,
    verified_label: &String,
    group_matches: bool,
    display_name: &String,
) -> (r: Result<RoleDelta, ReconcileError>)
    ensures
        match r {
            Ok(d) => {
                &&& spec_reconcile_error(available@, rank, verified_label@) is None
                &&& forall|id: u64|
                    d.grant@.contains(id) == spec_grant_set(
                        current@,
                        available@,
                        rank,
                        verified_label@,
                        group_matches,
                    ).contains(id)
                &&& forall|id: u64|
                    d.revoke@.contains(id) == spec_revoke_set(current@, available@, rank).contains(
                        id,
                    )
                &&& d.grant@.no_duplicates()
                &&& d.revoke@.no_duplicates()
                &&& forall|id: u64| !(d.grant@.contains(id) && d.revoke@.contains(id))
                &&& d.nickname == Some(*display_name)
            },
            Err(e) => Some(e) == spec_reconcile_error(available@, rank, verified_label@),
        },
{
    let verified_id = match find_role_by_name(available, verified_label.as_str()) {
        Some(id) => id,
        None => {
            return Err(ReconcileError::VerifiedRoleMissing);
        },
    };
    let rank_id: Option<u64> = match rank_label(rank) {
        Some(l) => match find_role_by_name(available, l) {
            Some(id) => Some(id),
            None => {
                return Err(ReconcileError::RankRoleMissing);
            },
        },
        None => None,
    };
    let group_id: Option<u64> = if group_matches {
        find_role_by_name(available, "Guild Member")
    } else {
        None
    };
    proof {
        assert(rank_id == spec_rank_target(available@, rank));
    }

    let ghost targets = spec_target_ids(available@, rank, verified_label@, group_matches);
    let mut grant: Vec<u64> = Vec::new();
    let ghost g0 = grant@;
    if !holds_role(current, verified_id) {
        grant.push(verified_id);
    }
    let ghost g1 = grant@;
    proof {
        lemma_push_contains(g0, verified_id, verified_id);
        assert forall|id: u64|
            g1.contains(id) == (id == verified_id && !spec_held(current@, id)) by {
            lemma_push_contains(g0, verified_id, id);
        }
        assert(g1.no_duplicates());
    }
    if let Some(rid) = rank_id {
        if !holds_role(current, rid) && !contains_id(&grant, rid) {
            proof {
                lemma_push_no_dup(g1, rid);
            }
            grant.push(rid);
        }
    }
    let ghost g2 = grant@;
    proof {
        assert forall|id: u64|
            g2.contains(id) == ((id == verified_id || spec_opt_is(rank_id, id)) && !spec_held(
                current@,
                id,
            )) by {
            if g2 != g1 {
                lemma_push_contains(g1, rank_id->0, id);
            }
        }
        assert(g2.no_duplicates());
    }
    if let Some(gid) = group_id {
        if !holds_role(current, gid) && !contains_id(&grant, gid) {
            proof {
                lemma_push_no_dup(g2, gid);
            }
            grant.push(gid);
        }
    }
    proof {
        assert forall|id: u64|
            grant@.contains(id) == (targets.contains(id) && !spec_held(current@, id)) by {
            if grant@ != g2 {
                lemma_push_contains(g2, group_id->0, id);
            }
        }
        assert(grant@.no_duplicates());
    }

    let mut revoke: Vec<u64> = Vec::new();
    let mut i: usize = 0;
    while i < current.len()
        invariant
            i <= current@.len(),
            rank_id == spec_rank_target(available@, rank),
            revoke@.no_duplicates(),
            forall|id: u64|
                revoke@.contains(id) == spec_revoked_among(current@, i as int, rank_id, id),
        decreases current@.len() - i,
    {
        let role = &current[i];
        let is_target = match rank_id {
            Some(rid) => role.id == rid,
            None => false,
        };
        let ghost pre = revoke@;
        if is_tier_label(role.name.as_str()) && !is_target && !contains_id(&revoke, role.id) {
            proof {
                lemma_push_no_dup(pre, role.id);
            }
            revoke.push(role.id);
        }
        proof {
            assert forall|id: u64|
                revoke@.contains(id) == spec_revoked_among(
                current@,
                i as int + 1,
                rank_id,
                id,
            ) by {
                assert(pre.contains(id) == spec_revoked_among(current@, i as int, rank_id, id));
                if revoke@ != pre {
                    lemma_push_contains(pre, current@[i as int].id, id);
                }
                if revoke@.contains(id) {
                    if pre.contains(id) {
                        let j = choose|j: int|
                            0 <= j < i && current@[j].id == id && spec_is_tier_label(
                                current@[j].name@,
                            );
                        assert(0 <= j < i + 1 && current@[j].id == id && spec_is_tier_label(
                            current@[j].name@,
                        ));
                    } else {
                        assert(id == current@[i as int].id && spec_is_tier_label(
                            current@[i as int].name@,
                        ));
                    }
                } else {
                    if spec_revoked_among(current@, i as int + 1, rank_id, id) {
                        let j = choose|j: int|
                            0 <= j < i + 1 && current@[j].id == id && spec_is_tier_label(
                                current@[j].name@,
                            );
                        if j < i {
                            assert(spec_revoked_among(current@, i as int, rank_id, id));
                        } else {
                            assert(j == i);
                            assert(current@[i as int].id == id && spec_is_tier_label(
                                current@[i as int].name@,
                            ));
                            assert(revoke@.contains(id));
                        }
                    }
                }
            }
        }
        i = i + 1;
    }

    proof {
        assert forall|id: u64|
            !(grant@.contains(id) && revoke@.contains(id)) by {
            if revoke@.contains(id) {
                assert(spec_held(current@, id));
            }
        }
    }
    Ok(RoleDelta { grant, revoke, nickname: Some(display_name.clone()) })
}

/// All ids of a role list are distinct.
pub open spec fn spec_distinct_ids(roles: Seq<RoleInfo>) -> bool {
    forall|i: int, j: int|
        0 <= i < roles.len() && 0 <= j < roles.len() && i != j ==> roles[i].id != roles[j].id
}

/// Every held role appears, with its id and name, among the
/// community's roles.
pub open spec fn spec_roles_consistent(current: Seq<RoleInfo>, available: Seq<RoleInfo>) -> bool {
    forall|i: int|
        0 <= i < current.len() ==> exists|j: int|
            0 <= j < available.len() && available[j].id == #[trigger] current[i].id
                && available[j].name@ == current[i].name@
}

/// `after` is the role set that results from applying a delta: the
/// kept roles are the current ones whose id is not revoked, the
/// gained ones are the community roles whose id is granted.
pub open spec fn spec_applied(
    current: Seq<RoleInfo>,
    available: Seq<RoleInfo>,
    grant: Set<u64>,
    revoke: Set<u64>,
    after: Seq<RoleInfo>,
) -> bool {
    forall|r: RoleInfo|
        #[trigger] after.contains(r) == ((current.contains(r) && !revoke.contains(r.id)) || (
        available.contains(r) && grant.contains(r.id)))
}

proof fn lemma_same_id_same_index(roles: Seq<RoleInfo>, a: int, b: int)
    requires
        spec_distinct_ids(roles),
        0 <= a < roles.len(),
        0 <= b < roles.len(),
        roles[a].id == roles[b].id,
    ensures
        a == b,
{
}

proof fn lemma_labelled_target_held(
    current: Seq<RoleInfo>,
    available: Seq<RoleInfo>,
    rank: RankTier,
    verified_label: Seq<char>,
    group_matches: bool,
    after: Seq<RoleInfo>,
    label: Seq<char>,
    id: u64,
)
    requires
        spec_distinct_ids(available),
        spec_roles_consistent(current, available),
        spec_applied(
            current,
            available,
            spec_grant_set(current, available, rank, verified_label, group_matches),
            spec_revoke_set(current, available, rank),
            after,
        ),
        spec_find_role(available, label) == Some(id),
        spec_target_ids(available, rank, verified_label, group_matches).contains(id),
        !spec_is_tier_label(label) || spec_opt_is(spec_rank_target(available, rank), id),
    ensures
        spec_held(after, id),
{
    let grant = spec_grant_set(current, available, rank, verified_label, group_matches);
    let revoke = spec_revoke_set(current, available, rank);
    lemma_find_role_properties(available, label);
    let jv = choose|j: int|
        0 <= j < available.len() && available[j].id == id && available[j].name@ == label;
    if spec_held(current, id) {
        let k = choose|k: int| 0 <= k < current.len() && current[k].id == id;
        assert(!revoke.contains(id)) by {
            if revoke.contains(id) {
                let m = choose|m: int|
                    0 <= m < current.len() && current[m].id == id && spec_is_tier_label(
                        current[m].name@,
                    );
                let a = choose|a: int|
                    0 <= a < available.len() && available[a].id == current[m].id
                        && available[a].name@ == current[m].name@;
                lemma_same_id_same_index(available, a, jv);
            }
        }
        assert(current.contains(current[k]));
        assert(after.contains(current[k]));
        let w = choose|w: int| 0 <= w < after.len() && after[w] == current[k];
        assert(after[w].id == id);
    } else {
        assert(grant.contains(id));
        assert(available.contains(available[jv]));
        assert(after.contains(available[jv]));
        let w = choose|w: int| 0 <= w < after.len() && after[w] == available[jv];
        assert(after[w].id == id);
    }
}

/// Re-running reconciliation on the role set that its own outcome
/// produced, with no external change in between, grants and revokes
/// nothing: verification converges after one successful run.
///
/// The hypotheses are the community's own well-formedness: role ids
/// are unique, the member's roles are the community's, and the
/// configured verified-role label is none of the five tier labels.
pub proof fn lemma_reconcile_idempotent(
    current: Seq<RoleInfo>,
    available: Seq<RoleInfo>,
    rank: RankTier,
    verified_label: Seq<char>,
    group_matches: bool,
    after: Seq<RoleInfo>,
)
    requires
        spec_reconcile_error(available, rank, verified_label) is None,
        !spec_is_tier_label(verified_label),
        spec_distinct_ids(available),
        spec_roles_consistent(current, available),
        spec_applied(
            current,
            available,
            spec_grant_set(current, available, rank, verified_label, group_matches),
            spec_revoke_set(current, available, rank),
            after,
        ),
    ensures
        spec_grant_set(after, available, rank, verified_label, group_matches) == Set::<
            u64,
        >::empty(),
        spec_revoke_set(after, available, rank) == Set::<u64>::empty(),
{
    let grant = spec_grant_set(current, available, rank, verified_label, group_matches);
    let revoke = spec_revoke_set(current, available, rank);
    let target = spec_rank_target(available, rank);
    let targets = spec_target_ids(available, rank, verified_label, group_matches);

    assert(!spec_is_tier_label(spec_group_label())) by {
        reveal_strlit("Guild Member");
        reveal_strlit("VIP");
        reveal_strlit("VIP+");
        reveal_strlit("MVP");
        reveal_strlit("MVP+");
        reveal_strlit("MVP++");
        assert("Guild Member"@.len() == 12);
        assert("VIP"@.len() == 3);
        assert("VIP+"@.len() == 4);
        assert("MVP"@.len() == 3);
        assert("MVP+"@.len() == 4);
        assert("MVP++"@.len() == 5);
    }

    assert forall|id: u64| #[trigger] targets.contains(id) implies spec_held(after, id) by {
        if spec_opt_is(spec_find_role(available, verified_label), id) {
            lemma_labelled_target_held(
                current,
                available,
                rank,
                verified_label,
                group_matches,
                after,
                verified_label,
                id,
            );
        } else if spec_opt_is(target, id) {
            let label = spec_rank_label(rank)->0;
            lemma_labelled_target_held(
                current,
                available,
                rank,
                verified_label,
                group_matches,
                after,
                label,
                id,
            );
        } else {
            lemma_labelled_target_held(
                current,
                available,
                rank,
                verified_label,
                group_matches,
                after,
                spec_group_label(),
                id,
            );
        }
    }
    assert(spec_grant_set(after, available, rank, verified_label, group_matches) =~= Set::<
        u64,
    >::empty());

    assert forall|id: u64|
        !(#[trigger] spec_revoke_set(after, available, rank).contains(id)) by {
        if spec_revoke_set(after, available, rank).contains(id) {
            let m = choose|m: int|
                0 <= m < after.len() && after[m].id == id && spec_is_tier_label(after[m].name@);
            let r = after[m];
            assert(after.contains(r));
            if current.contains(r) && !revoke.contains(r.id) {
                let k = choose|k: int| 0 <= k < current.len() && current[k] == r;
                assert(revoke.contains(id));
            } else {
                assert(available.contains(r) && grant.contains(r.id));
                let a = choose|a: int| 0 <= a < available.len() && available[a] == r;
                if spec_opt_is(spec_find_role(available, verified_label), id) {
                    lemma_find_role_properties(available, verified_label);
                    let jv = choose|j: int|
                        0 <= j < available.len() && available[j].id == id && available[j].name@
                            == verified_label;
                    lemma_same_id_same_index(available, a, jv);
                } else if spec_opt_is(target, id) {
                } else {
                    lemma_find_role_properties(available, spec_group_label());
                    let jg = choose|j: int|
                        0 <= j < available.len() && available[j].id == id && available[j].name@
                            == spec_group_label();
                    lemma_same_id_same_index(available, a, jg);
                }
            }
        }
    }
    assert(spec_revoke_set(after, available, rank) =~= Set::<u64>::empty());
}

/// One mutation against the chat platform: role grants, role
/// revocations and the nickname change fail independently.
#[derive(Clone, Debug, PartialEq, Eq)]
pub enum MutationOp {
    Grant(u64),
    Revoke(u64),
    SetNickname(String),
}

/// Orders a delta into the mutation sequence: all grants first, then
/// all revocations, then the nickname change.  Every grant and every
/// revocation of the delta appears exactly once, so a failed step
/// never has a compensating counterpart later in the plan.
pub fn operation_plan(delta: &RoleDelta) -> (ops: Vec<MutationOp>)
    requires
        delta.grant@.no_duplicates(),
        delta.revoke@.no_duplicates(),
        forall|id: u64| !(delta.grant@.contains(id) && delta.revoke@.contains(id)),
    ensures
        ops@.len() == delta.grant@.len() + delta.revoke@.len() + (if delta.nickname is Some {
            1int
        } else {
            0int
        }),
        forall|i: int|
            0 <= i < delta.grant@.len() ==> ops@[i] == MutationOp::Grant(delta.grant@[i]),
        forall|i: int|
            0 <= i < delta.revoke@.len() ==> ops@[delta.grant@.len() + i] == MutationOp::Revoke(
                delta.revoke@[i],
            ),
        delta.nickname matches Some(n) ==> ops@.last() == MutationOp::SetNickname(n),
        forall|id: u64|
            #[trigger] ops@.contains(MutationOp::Grant(id)) == delta.grant@.contains(id),
        forall|id: u64|
            #[trigger] ops@.contains(MutationOp::Revoke(id)) == delta.revoke@.contains(id),
        forall|i: int|
            0 <= i < ops@.len() ==> ((#[trigger] ops@[i]) is SetNickname <==> (delta.nickname
                is Some && i == ops@.len() - 1)),
        forall|i: int, j: int|
            0 <= i < j < ops@.len() && (#[trigger] ops@[i]) is Revoke ==> !((
            #[trigger] ops@[j]) is Grant),
        ops@.no_duplicates(),
{
    let mut ops: Vec<MutationOp> = Vec::new();
    let mut i: usize = 0;
    while i < delta.grant.len()
        invariant
            i <= delta.grant@.len(),
            ops@.len() == i,
            forall|k: int| 0 <= k < i ==> ops@[k] == MutationOp::Grant(delta.grant@[k]),
        decreases delta.grant@.len() - i,
    {
        ops.push(MutationOp::Grant(delta.grant[i]));
        i = i + 1;
    }
    let mut j: usize = 0;
    while j < delta.revoke.len()
        invariant
            j <= delta.revoke@.len(),
            ops@.len() == delta.grant@.len() + j,
            forall|k: int|
                0 <= k < delta.grant@.len() ==> ops@[k] == MutationOp::Grant(delta.grant@[k]),
            forall|k: int|
                0 <= k < j ==> ops@[delta.grant@.len() + k] == MutationOp::Revoke(
                    delta.revoke@[k],
                ),
        decreases delta.revoke@.len() - j,
    {
        ops.push(MutationOp::Revoke(delta.revoke[j]));
        j = j + 1;
    }
    let ghost base = ops@;
    if let Some(n) = &delta.nickname {
        ops.push(MutationOp::SetNickname(n.clone()));
    }
    proof {
        let glen = delta.grant@.len() as int;
        let rlen = delta.revoke@.len() as int;
        if delta.nickname is Some {
            assert(ops@ == base.push(MutationOp::SetNickname(delta.nickname->0)));
        } else {
            assert(ops@ == base);
        }
        assert forall|i: int| 0 <= i < ops@.len() implies #[trigger] ops@[i] == (if i < glen {
            MutationOp::Grant(delta.grant@[i])
        } else if i < glen + rlen {
            MutationOp::Revoke(delta.revoke@[i - glen])
        } else {
            MutationOp::SetNickname(delta.nickname->0)
        }) by {
            if i < glen + rlen {
                assert(ops@[i] == base[i]);
            }
        }
        assert forall|id: u64|
            #[trigger] ops@.contains(MutationOp::Grant(id)) == delta.grant@.contains(id) by {
            if ops@.contains(MutationOp::Grant(id)) {
                let k = choose|k: int| 0 <= k < ops@.len() && ops@[k] == MutationOp::Grant(id);
                if k < glen {
                    assert(delta.grant@[k] == id);
                    assert(delta.grant@.contains(id));
                }
            }
            if delta.grant@.contains(id) {
                let k = choose|k: int| 0 <= k < glen && delta.grant@[k] == id;
                assert(ops@[k] == MutationOp::Grant(id));
                assert(ops@.contains(MutationOp::Grant(id)));
            }
        }
        assert forall|id: u64|
            #[trigger] ops@.contains(MutationOp::Revoke(id)) == delta.revoke@.contains(id) by {
            if ops@.contains(MutationOp::Revoke(id)) {
                let k = choose|k: int| 0 <= k < ops@.len() && ops@[k] == MutationOp::Revoke(id);
                if glen <= k < glen + rlen {
                    assert(delta.revoke@[k - glen] == id);
                    assert(delta.revoke@.contains(id));
                }
            }
            if delta.revoke@.contains(id) {
                let k = choose|k: int| 0 <= k < rlen && delta.revoke@[k] == id;
                assert(ops@[glen + k] == MutationOp::Revoke(id));
                assert(ops@.contains(MutationOp::Revoke(id)));
            }
        }
        assert(ops@.no_duplicates()) by {
            assert forall|i: int, j: int|
                0 <= i < ops@.len() && 0 <= j < ops@.len() && i != j implies ops@[i] != ops@[j] by {
                if ops@[i] == ops@[j] {
                    if i < glen && j < glen {
                        assert(delta.grant@[i] == delta.grant@[j]);
                    } else if glen <= i < glen + rlen && glen <= j < glen + rlen {
                        assert(delta.revoke@[i - glen] == delta.revoke@[j - glen]);
                    } else if i < glen && glen <= j < glen + rlen {
                        assert(delta.grant@.contains(delta.grant@[i]));
                        assert(delta.revoke@.contains(delta.revoke@[j - glen]));
                    } else if j < glen && glen <= i < glen + rlen {
                        assert(delta.grant@.contains(delta.grant@[j]));
                        assert(delta.revoke@.contains(delta.revoke@[i - glen]));
                    }
                }
            }
        }
    }
    ops
}

} // verus!
