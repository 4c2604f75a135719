use verifybot::rank::RankTier;
use verifybot::roles::{
    find_role_by_name, operation_plan, reconcile, MutationOp, ReconcileError, RoleDelta, RoleInfo,
};
use verifybot::verify::{canonical_tag, match_identity, MatchResult};

fn role(id: u64, name: &str) -> RoleInfo {
    RoleInfo { id, name: name.to_string() }
}

fn community() -> Vec<RoleInfo> {
    vec![
        role(10, "Verified"),
        role(20, "Guild Member"),
        role(1, "VIP"),
        role(2, "VIP+"),
        role(3, "MVP"),
        role(4, "MVP+"),
        role(5, "MVP++"),
        role(99, "Member"),
    ]
}

fn verified() -> String {
    "Verified".to_string()
}

fn nick() -> String {
    "Notch".to_string()
}

#[test]
fn fresh_member_gets_verified_and_rank_role() {
    let delta = reconcile(
        &vec![role(99, "Member")],
        &community(),
        RankTier::MvpPlus,
        &verified(),
        false,
        &nick(),
    )
    .unwrap();
    let mut grant = delta.grant.clone();
    grant.sort();
    assert_eq!(grant, vec![4, 10]);
    assert_eq!(delta.revoke, Vec::<u64>::new());
    assert_eq!(delta.nickname, Some("Notch".to_string()));
}

#[test]
fn stale_tier_roles_are_revoked() {
    let delta = reconcile(
        &vec![role(1, "VIP"), role(3, "MVP"), role(10, "Verified")],
        &community(),
        RankTier::MvpPlus,
        &verified(),
        false,
        &nick(),
    )
    .unwrap();
    assert_eq!(delta.grant, vec![4]);
    let mut revoke = delta.revoke.clone();
    revoke.sort();
    assert_eq!(revoke, vec![1, 3]);
}

#[test]
fn held_target_role_is_neither_granted_nor_revoked() {
    let delta = reconcile(
        &vec![role(4, "MVP+"), role(10, "Verified")],
        &community(),
        RankTier::MvpPlus,
        &verified(),
        false,
        &nick(),
    )
    .unwrap();
    assert_eq!(delta.grant, Vec::<u64>::new());
    assert_eq!(delta.revoke, Vec::<u64>::new());
    assert_eq!(delta.nickname, Some("Notch".to_string()));
}

#[test]
fn untiered_account_targets_no_rank_role() {
    let delta = reconcile(
        &vec![role(5, "MVP++"), role(10, "Verified")],
        &community(),
        RankTier::Default,
        &verified(),
        false,
        &nick(),
    )
    .unwrap();
    assert_eq!(delta.grant, Vec::<u64>::new());
    assert_eq!(delta.revoke, vec![5]);
}

#[test]
fn confirmed_group_grants_the_group_role() {
    let delta = reconcile(
        &vec![role(10, "Verified")],
        &community(),
        RankTier::Default,
        &verified(),
        true,
        &nick(),
    )
    .unwrap();
    assert_eq!(delta.grant, vec![20]);
}

#[test]
fn each_missing_role_is_its_own_error() {
    assert_eq!(
        reconcile(&vec![], &vec![role(4, "MVP+")], RankTier::MvpPlus, &verified(), false, &nick()),
        Err(ReconcileError::VerifiedRoleMissing)
    );
    assert_eq!(
        reconcile(
            &vec![],
            &vec![role(10, "Verified")],
            RankTier::MvpPlus,
            &verified(),
            false,
            &nick()
        ),
        Err(ReconcileError::RankRoleMissing)
    );
}

#[test]
fn missing_group_role_only_skips_the_group_grant() {
    // group membership is best effort: without the group role the rest
    // of the delta still applies
    let delta = reconcile(
        &vec![],
        &vec![role(10, "Verified")],
        RankTier::Default,
        &verified(),
        true,
        &nick(),
    )
    .unwrap();
    assert_eq!(delta.grant, vec![10]);
    assert_eq!(delta.revoke, Vec::<u64>::new());
    assert_eq!(delta.nickname, Some("Notch".to_string()));
}

#[test]
fn grant_and_revoke_are_disjoint() {
    let delta = reconcile(
        &vec![role(1, "VIP")],
        &community(),
        RankTier::Vip,
        &verified(),
        false,
        &nick(),
    )
    .unwrap();
    for id in &delta.grant {
        assert!(!delta.revoke.contains(id));
    }
    // the held VIP role is the target: untouched
    assert!(!delta.revoke.contains(&1));
    assert_eq!(delta.grant, vec![10]);
}

#[test]
fn reconciliation_is_idempotent() {
    // apply the first delta by hand, then reconcile again: nothing is
    // granted or revoked the second time
    let current = vec![role(1, "VIP"), role(99, "Member")];
    let available = community();
    let delta = reconcile(&current, &available, RankTier::Mvp, &verified(), true, &nick()).unwrap();

    let mut after: Vec<RoleInfo> = current
        .iter()
        .filter(|r| !delta.revoke.contains(&r.id))
        .cloned()
        .collect();
    for r in &available {
        if delta.grant.contains(&r.id) {
            after.push(r.clone());
        }
    }

    let delta2 = reconcile(&after, &available, RankTier::Mvp, &verified(), true, &nick()).unwrap();
    assert_eq!(delta2.grant, Vec::<u64>::new());
    assert_eq!(delta2.revoke, Vec::<u64>::new());
    assert_eq!(delta2.nickname, Some("Notch".to_string()));
}

#[test]
fn the_plan_orders_grants_revokes_nickname() {
    let delta = RoleDelta {
        grant: vec![10, 4],
        revoke: vec![1, 3],
        nickname: Some("Notch".to_string()),
    };
    let ops = operation_plan(&delta);
    assert_eq!(
        ops,
        vec![
            MutationOp::Grant(10),
            MutationOp::Grant(4),
            MutationOp::Revoke(1),
            MutationOp::Revoke(3),
            MutationOp::SetNickname("Notch".to_string()),
        ]
    );
}

#[test]
fn role_lookup_takes_the_first_of_a_name() {
    let roles = vec![role(7, "Verified"), role(8, "Verified")];
    assert_eq!(find_role_by_name(&roles, "Verified"), Some(7));
    assert_eq!(find_role_by_name(&roles, "Missing"), None);
}

#[test]
fn identity_match_is_exact() {
    let tag = "Alice#0001".to_string();
    assert_eq!(match_identity(&Some("Alice#0001".to_string()), &tag), MatchResult::Matched);
    assert_eq!(match_identity(&None, &tag), MatchResult::NoLinkedIdentity);
    assert_eq!(
        match_identity(&Some("alice#0001".to_string()), &tag),
        MatchResult::Mismatch {
            linked: "alice#0001".to_string(),
            requester: "Alice#0001".to_string()
        }
    );
}

#[test]
fn canonical_tag_pads_the_discriminator() {
    assert_eq!(canonical_tag("Alice", 1), "Alice#0001".to_string());
    assert_eq!(canonical_tag("Alice", 23), "Alice#0023".to_string());
    assert_eq!(canonical_tag("Alice", 456), "Alice#0456".to_string());
    assert_eq!(canonical_tag("Alice", 7890), "Alice#7890".to_string());
}
