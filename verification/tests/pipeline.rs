use verifybot::roles::{MutationOp, RoleInfo};
use verifybot::verify::{step, Action, Event, VerifyCommandArgs, VerifyState};

fn config() -> VerifyCommandArgs {
    VerifyCommandArgs {
        prefix: "!".to_string(),
        command: "verify".to_string(),
        api_key: "dummy-key".to_string(),
        role_name: "Verified".to_string(),
    }
}

fn tag() -> String {
    "Tester#0001".to_string()
}

fn role(id: u64, name: &str) -> RoleInfo {
    RoleInfo { id, name: name.to_string() }
}

fn notch_profile_body(linked: &str) -> String {
    format!(
        "{{\"player\":{{\"displayname\":\"Notch\",\"newPackageRank\":\"MVP_PLUS\",\"socialMedia\":{{\"links\":{{\"DISCORD\":\"{}\"}}}}}}}}",
        linked
    )
}

#[test]
fn command_not_addressed_is_ignored() {
    let (s, a) = step(
        VerifyState::Received,
        Event::Command { content: "hello there".to_string() },
        &config(),
        &tag(),
    );
    assert_eq!(a, Action::Ignore);
    assert_eq!(s, VerifyState::Received);
}

#[test]
fn wrong_argument_count_gets_usage_reply() {
    let (s, a) = step(
        VerifyState::Received,
        Event::Command { content: "!verify".to_string() },
        &config(),
        &tag(),
    );
    assert_eq!(s, VerifyState::Failed);
    assert_eq!(
        a,
        Action::Reply { message: "Invalid usage: `!verify Username`".to_string() },
    );
    let (s2, a2) = step(
        VerifyState::Received,
        Event::Command { content: "!verify two words".to_string() },
        &config(),
        &tag(),
    );
    assert_eq!(s2, VerifyState::Failed);
    assert!(matches!(a2, Action::Reply { .. }));
}

#[test]
fn short_username_gets_length_reply_and_no_call() {
    let (s, a) = step(
        VerifyState::Received,
        Event::Command { content: "!verify ab".to_string() },
        &config(),
        &tag(),
    );
    assert_eq!(s, VerifyState::Failed);
    assert_eq!(
        a,
        Action::Reply {
            message: "Your Username is `2` characters long, which is impossible (3-16 characters). Please provide a valid Username and try again.".to_string()
        },
    );
}

#[test]
fn long_username_gets_length_reply_with_exact_length() {
    let (s, a) = step(
        VerifyState::Received,
        Event::Command { content: "!verify abcdefghijklmnopq".to_string() },
        &config(),
        &tag(),
    );
    assert_eq!(s, VerifyState::Failed);
    match a {
        Action::Reply { message } => assert!(message.contains("`17` characters long")),
        other => panic!("expected a reply, got {:?}", other),
    }
}

#[test]
fn valid_command_starts_the_lookup() {
    let (s, a) = step(
        VerifyState::Received,
        Event::Command { content: "!verify Notch".to_string() },
        &config(),
        &tag(),
    );
    assert_eq!(a, Action::CallLookup { username: "Notch".to_string() });
    assert_eq!(s, VerifyState::Resolving { username: "Notch".to_string() });
}

#[test]
fn lookup_transport_failure_fails_with_lookup_reply() {
    let (s, a) = step(
        VerifyState::Resolving { username: "Notch".to_string() },
        Event::LookupResponse { body: None },
        &config(),
        &tag(),
    );
    assert_eq!(s, VerifyState::Failed);
    match a {
        Action::Reply { message } => assert!(message.contains("Mojang API")),
        other => panic!("expected a reply, got {:?}", other),
    }
}

#[test]
fn lookup_error_field_means_no_such_account() {
    let (s, a) = step(
        VerifyState::Resolving { username: "Notch".to_string() },
        Event::LookupResponse {
            body: Some("{\"error\":\"NotFoundException\"}".to_string()),
        },
        &config(),
        &tag(),
    );
    assert_eq!(s, VerifyState::Failed);
    assert_eq!(
        a,
        Action::Reply {
            message: "Invalid Username (no UUID from Mojang API). Please try again.".to_string()
        },
    );
}

#[test]
fn lookup_body_without_id_is_a_lookup_failure() {
    let (s, a) = step(
        VerifyState::Resolving { username: "Notch".to_string() },
        Event::LookupResponse { body: Some("{\"name\":\"Notch\"}".to_string()) },
        &config(),
        &tag(),
    );
    assert_eq!(s, VerifyState::Failed);
    match a {
        Action::Reply { message } => assert!(message.contains("Mojang API")),
        other => panic!("expected a reply, got {:?}", other),
    }
}

#[test]
fn lookup_id_moves_on_to_the_profile_fetch() {
    let (s, a) = step(
        VerifyState::Resolving { username: "Notch".to_string() },
        Event::LookupResponse {
            body: Some("{\"id\":\"069a79f444e94726a5befca90e38aaf5\",\"name\":\"Notch\"}".to_string()),
        },
        &config(),
        &tag(),
    );
    let id = "069a79f444e94726a5befca90e38aaf5".to_string();
    assert_eq!(a, Action::CallProfile { account_id: id.clone() });
    assert_eq!(s, VerifyState::Fetching { account_id: id });
}

#[test]
fn fetch_failure_replies_once_and_issues_no_mutation() {
    let fetching = VerifyState::Fetching { account_id: "x".to_string() };
    let (s, a) = step(
        fetching,
        Event::ProfileResponse {
            player_body: Some("Internal Server Error".to_string()),
            group_body: None,
        },
        &config(),
        &tag(),
    );
    assert_eq!(s, VerifyState::Failed);
    match a {
        Action::Reply { message } => assert!(message.contains("Hypixel API")),
        other => panic!("expected a reply, got {:?}", other),
    }
    // the failed run is terminal: nothing further happens
    let (s2, a2) = step(s, Event::MutationOutcome { ok: true }, &config(), &tag());
    assert_eq!(s2, VerifyState::Failed);
    assert_eq!(a2, Action::Ignore);
}

#[test]
fn missing_link_is_reported_as_not_linked() {
    let (s, a) = step(
        VerifyState::Fetching { account_id: "x".to_string() },
        Event::ProfileResponse {
            player_body: Some("{\"player\":{\"displayname\":\"Notch\"}}".to_string()),
            group_body: None,
        },
        &config(),
        &tag(),
    );
    assert_eq!(s, VerifyState::Failed);
    match a {
        Action::Reply { message } => assert!(message.contains("Discord linked")),
        other => panic!("expected a reply, got {:?}", other),
    }
}

#[test]
fn mismatched_tag_surfaces_both_strings() {
    let requester = "Alice#0002".to_string();
    let (s, a) = step(
        VerifyState::Fetching { account_id: "x".to_string() },
        Event::ProfileResponse {
            player_body: Some(notch_profile_body("Alice#0001")),
            group_body: None,
        },
        &config(),
        &requester,
    );
    assert_eq!(s, VerifyState::Failed);
    match a {
        Action::Reply { message } => {
            assert!(message.contains("Alice#0001"));
            assert!(message.contains("Alice#0002"));
        },
        other => panic!("expected a reply, got {:?}", other),
    }
}

#[test]
fn matching_tag_reads_the_member() {
    let (s, a) = step(
        VerifyState::Fetching { account_id: "x".to_string() },
        Event::ProfileResponse {
            player_body: Some(notch_profile_body("Tester#0001")),
            group_body: None,
        },
        &config(),
        &tag(),
    );
    assert_eq!(a, Action::ReadMember);
    assert!(matches!(s, VerifyState::Reconciling { .. }));
}

fn drive_to_reconciling() -> VerifyState {
    let (s, _) = step(
        VerifyState::Fetching { account_id: "x".to_string() },
        Event::ProfileResponse {
            player_body: Some(notch_profile_body("Tester#0001")),
            group_body: None,
        },
        &config(),
        &tag(),
    );
    s
}

#[test]
fn member_read_failure_is_reported() {
    let (s, a) = step(
        drive_to_reconciling(),
        Event::MemberSnapshot {
            member_ok: false,
            current_roles: vec![],
            available_roles: vec![],
            configured_group: None,
        },
        &config(),
        &tag(),
    );
    assert_eq!(s, VerifyState::Failed);
    match a {
        Action::Reply { message } => assert!(message.contains("Discord API")),
        other => panic!("expected a reply, got {:?}", other),
    }
}

#[test]
fn missing_rank_role_is_reported() {
    let (s, a) = step(
        drive_to_reconciling(),
        Event::MemberSnapshot {
            member_ok: true,
            current_roles: vec![],
            available_roles: vec![role(10, "Verified")],
            configured_group: None,
        },
        &config(),
        &tag(),
    );
    assert_eq!(s, VerifyState::Failed);
    assert_eq!(
        a,
        Action::Reply {
            message: "Error while getting Rank roles, maybe they dont exist?".to_string()
        },
    );
}

#[test]
fn missing_verified_role_is_reported() {
    let (s, a) = step(
        drive_to_reconciling(),
        Event::MemberSnapshot {
            member_ok: true,
            current_roles: vec![],
            available_roles: vec![role(11, "MVP+")],
            configured_group: None,
        },
        &config(),
        &tag(),
    );
    assert_eq!(s, VerifyState::Failed);
    match a {
        Action::Reply { message } => assert!(message.contains("Verified Role")),
        other => panic!("expected a reply, got {:?}", other),
    }
}

#[test]
fn end_to_end_grants_revokes_and_renames() {
    let cfg = config();
    let requester = tag();
    let (s, a) = step(
        VerifyState::Received,
        Event::Command { content: "!verify Notch".to_string() },
        &cfg,
        &requester,
    );
    assert_eq!(a, Action::CallLookup { username: "Notch".to_string() });
    let (s, a) = step(
        s,
        Event::LookupResponse {
            body: Some("{\"id\":\"069a79f444e94726a5befca90e38aaf5\"}".to_string()),
        },
        &cfg,
        &requester,
    );
    assert!(matches!(a, Action::CallProfile { .. }));
    let (s, a) = step(
        s,
        Event::ProfileResponse {
            player_body: Some(notch_profile_body("Tester#0001")),
            group_body: None,
        },
        &cfg,
        &requester,
    );
    assert_eq!(a, Action::ReadMember);
    let (mut s, mut a) = step(
        s,
        Event::MemberSnapshot {
            member_ok: true,
            current_roles: vec![role(1, "VIP"), role(2, "Member")],
            available_roles: vec![
                role(10, "Verified"),
                role(11, "MVP+"),
                role(1, "VIP"),
                role(2, "Member"),
            ],
            configured_group: None,
        },
        &cfg,
        &requester,
    );
    let mut ops: Vec<MutationOp> = Vec::new();
    loop {
        match a {
            Action::Mutate { op } => {
                ops.push(op);
                let next = step(s, Event::MutationOutcome { ok: true }, &cfg, &requester);
                s = next.0;
                a = next.1;
            },
            Action::Reply { message } => {
                assert!(message.contains("You now have all the roles"));
                break;
            },
            other => panic!("unexpected action {:?}", other),
        }
    }
    assert_eq!(s, VerifyState::Succeeded);
    assert_eq!(ops.len(), 4);
    // grants come first, in some order
    assert!(ops[0..2].contains(&MutationOp::Grant(10)));
    assert!(ops[0..2].contains(&MutationOp::Grant(11)));
    assert_eq!(ops[2], MutationOp::Revoke(1));
    assert_eq!(ops[3], MutationOp::SetNickname("Notch".to_string()));
}

#[test]
fn confirmed_group_membership_grants_the_group_role() {
    let cfg = config();
    let requester = tag();
    let (s, _) = step(
        VerifyState::Fetching { account_id: "x".to_string() },
        Event::ProfileResponse {
            player_body: Some(notch_profile_body("Tester#0001")),
            group_body: Some("{\"guild\":{\"name\":\"CoolGuild\"}}".to_string()),
        },
        &cfg,
        &requester,
    );
    let (mut s, mut a) = step(
        s,
        Event::MemberSnapshot {
            member_ok: true,
            current_roles: vec![],
            available_roles: vec![role(10, "Verified"), role(11, "MVP+"), role(20, "Guild Member")],
            configured_group: Some("CoolGuild".to_string()),
        },
        &cfg,
        &requester,
    );
    let mut granted: Vec<u64> = Vec::new();
    loop {
        match a {
            Action::Mutate { op } => {
                if let MutationOp::Grant(id) = op {
                    granted.push(id);
                }
                let next = step(s, Event::MutationOutcome { ok: true }, &cfg, &requester);
                s = next.0;
                a = next.1;
            },
            Action::Reply { .. } => break,
            other => panic!("unexpected action {:?}", other),
        }
    }
    assert!(granted.contains(&20));
}

#[test]
fn partial_failure_keeps_prior_grants_and_reports_the_nickname_step() {
    let cfg = config();
    let requester = tag();
    let s = drive_to_reconciling();
    let (mut s, mut a) = step(
        s,
        Event::MemberSnapshot {
            member_ok: true,
            current_roles: vec![],
            available_roles: vec![role(10, "Verified"), role(11, "MVP+")],
            configured_group: None,
        },
        &cfg,
        &requester,
    );
    let mut applied: Vec<MutationOp> = Vec::new();
    let failure_reply;
    loop {
        match a {
            Action::Mutate { op } => {
                let nick_step = matches!(op, MutationOp::SetNickname(_));
                if nick_step {
                    // the platform denies the rename; everything granted so
                    // far stays granted
                    let next = step(s, Event::MutationOutcome { ok: false }, &cfg, &requester);
                    s = next.0;
                    failure_reply = next.1;
                    break;
                }
                applied.push(op);
                let next = step(s, Event::MutationOutcome { ok: true }, &cfg, &requester);
                s = next.0;
                a = next.1;
            },
            other => panic!("unexpected action {:?}", other),
        }
    }
    assert_eq!(applied, vec![MutationOp::Grant(10), MutationOp::Grant(11)]);
    assert_eq!(s, VerifyState::Failed);
    match failure_reply {
        Action::Reply { message } => assert!(message.contains("unable to change your nickname")),
        other => panic!("expected a reply, got {:?}", other),
    }
    // no compensating revocation follows: the machine is done
    let (s2, a2) = step(s, Event::MutationOutcome { ok: true }, &cfg, &requester);
    assert_eq!(s2, VerifyState::Failed);
    assert_eq!(a2, Action::Ignore);
}

#[test]
fn rerunning_after_success_changes_nothing_more() {
    // second verification right after the first: the member now holds
    // exactly the target roles, so only the nickname is proposed again
    let cfg = config();
    let requester = tag();
    let s = drive_to_reconciling();
    let (mut s, mut a) = step(
        s,
        Event::MemberSnapshot {
            member_ok: true,
            current_roles: vec![role(10, "Verified"), role(11, "MVP+")],
            available_roles: vec![role(10, "Verified"), role(11, "MVP+")],
            configured_group: None,
        },
        &cfg,
        &requester,
    );
    let mut role_mutations = 0;
    loop {
        match a {
            Action::Mutate { op } => {
                if !matches!(op, MutationOp::SetNickname(_)) {
                    role_mutations += 1;
                }
                let next = step(s, Event::MutationOutcome { ok: true }, &cfg, &requester);
                s = next.0;
                a = next.1;
            },
            Action::Reply { .. } => break,
            other => panic!("unexpected action {:?}", other),
        }
    }
    assert_eq!(role_mutations, 0);
    assert_eq!(s, VerifyState::Succeeded);
}
