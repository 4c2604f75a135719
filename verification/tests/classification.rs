use verifybot::json::{fetch_from_response, group_from_response, resolve_from_response};
use verifybot::profile::{FetchError, ResolutionError};
use verifybot::rank::RankTier;

fn fetch(player_body: &str) -> Result<verifybot::profile::ProfileAttributes, FetchError> {
    fetch_from_response(&Some(player_body.to_string()), &None)
}

#[test]
fn prefix_always_wins_and_excludes_the_account() {
    // a prefix on the profile beats every other rank field
    let attrs = fetch(
        "{\"player\":{\"displayname\":\"Techno\",\"prefix\":\"[PIG+++]\",\"monthlyPackageRank\":\"SUPERSTAR\",\"newPackageRank\":\"MVP_PLUS\"}}",
    )
    .unwrap();
    assert_eq!(attrs.rank_tier, RankTier::Default);
}

#[test]
fn staff_marker_excludes_the_account() {
    for staff in ["HELPER", "MODERATOR", "ADMIN", "YOUTUBER"] {
        let body = format!(
            "{{\"player\":{{\"displayname\":\"N\",\"rank\":\"{}\",\"newPackageRank\":\"VIP\"}}}}",
            staff
        );
        let attrs = fetch(&body).unwrap();
        assert_eq!(attrs.rank_tier, RankTier::Default);
    }
}

#[test]
fn non_staff_rank_marker_falls_through() {
    let attrs = fetch(
        "{\"player\":{\"displayname\":\"N\",\"rank\":\"NORMAL\",\"newPackageRank\":\"VIP\"}}",
    )
    .unwrap();
    assert_eq!(attrs.rank_tier, RankTier::Vip);
}

#[test]
fn monthly_package_beats_the_package_table() {
    let attrs = fetch(
        "{\"player\":{\"displayname\":\"N\",\"monthlyPackageRank\":\"SUPERSTAR\",\"newPackageRank\":\"MVP_PLUS\"}}",
    )
    .unwrap();
    assert_eq!(attrs.rank_tier, RankTier::MvpPlusPlus);
}

#[test]
fn other_monthly_package_falls_through() {
    let attrs = fetch(
        "{\"player\":{\"displayname\":\"N\",\"monthlyPackageRank\":\"NONE\",\"newPackageRank\":\"MVP\"}}",
    )
    .unwrap();
    assert_eq!(attrs.rank_tier, RankTier::Mvp);
}

#[test]
fn the_package_table_maps_each_label() {
    let cases = [
        ("MVP_PLUS", RankTier::MvpPlus),
        ("MVP", RankTier::Mvp),
        ("VIP_PLUS", RankTier::VipPlus),
        ("VIP", RankTier::Vip),
        ("NONE", RankTier::Default),
    ];
    for (label, tier) in cases {
        let body = format!(
            "{{\"player\":{{\"displayname\":\"N\",\"newPackageRank\":\"{}\"}}}}",
            label
        );
        let attrs = fetch(&body).unwrap();
        assert_eq!(attrs.rank_tier, tier);
    }
}

#[test]
fn bare_profile_is_untiered() {
    let attrs = fetch("{\"player\":{\"displayname\":\"N\"}}").unwrap();
    assert_eq!(attrs.rank_tier, RankTier::Default);
    assert_eq!(attrs.linked_identity, None);
    assert_eq!(attrs.display_name, "N".to_string());
}

#[test]
fn linked_identity_is_decoded_verbatim() {
    let attrs = fetch(
        "{\"player\":{\"displayname\":\"N\",\"socialMedia\":{\"links\":{\"DISCORD\":\"Some One#1234\"}}}}",
    )
    .unwrap();
    assert_eq!(attrs.linked_identity, Some("Some One#1234".to_string()));
}

#[test]
fn profile_without_player_object_is_a_service_error() {
    assert_eq!(fetch("{\"success\":false}").unwrap_err(), FetchError::ServiceError);
}

#[test]
fn unparsable_profile_body_is_a_service_error() {
    assert_eq!(fetch("<html>500</html>").unwrap_err(), FetchError::ServiceError);
}

#[test]
fn missing_profile_body_is_a_service_error() {
    assert_eq!(
        fetch_from_response(&None, &None).unwrap_err(),
        FetchError::ServiceError
    );
}

#[test]
fn profile_without_display_name_is_a_service_error() {
    assert_eq!(
        fetch("{\"player\":{\"newPackageRank\":\"VIP\"}}").unwrap_err(),
        FetchError::ServiceError
    );
}

#[test]
fn group_name_is_best_effort() {
    assert_eq!(group_from_response(&None), None);
    assert_eq!(group_from_response(&Some("not json".to_string())), None);
    assert_eq!(group_from_response(&Some("{\"guild\":null}".to_string())), None);
    assert_eq!(
        group_from_response(&Some("{\"guild\":{\"name\":\"The Pack\"}}".to_string())),
        Some("The Pack".to_string())
    );
}

#[test]
fn resolution_decodes_the_account_id() {
    assert_eq!(
        resolve_from_response(&Some("{\"id\":\"abc123\",\"name\":\"N\"}".to_string())),
        Ok("abc123".to_string())
    );
}

#[test]
fn resolution_error_field_means_not_found() {
    assert_eq!(
        resolve_from_response(&Some("{\"error\":\"NotFound\",\"id\":\"x\"}".to_string())),
        Err(ResolutionError::NotFound)
    );
}

#[test]
fn resolution_failures_are_lookup_failures() {
    assert_eq!(resolve_from_response(&None), Err(ResolutionError::LookupFailed));
    assert_eq!(
        resolve_from_response(&Some("no json".to_string())),
        Err(ResolutionError::LookupFailed)
    );
    assert_eq!(
        resolve_from_response(&Some("{\"name\":\"N\"}".to_string())),
        Err(ResolutionError::LookupFailed)
    );
    // a non-string id is unusable
    assert_eq!(
        resolve_from_response(&Some("{\"id\":12}".to_string())),
        Err(ResolutionError::LookupFailed)
    );
}
