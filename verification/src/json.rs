//! The JSON boundary: response bodies are parsed with `serde_json`
//! behind small trusted wrappers, and the fields the pipeline reads
//! are decoded into the plain document types of [`crate::profile`].
//!
//! Each wrapped call computes from its arguments alone, so its result
//! carries a name (`spec_json_parse`, `spec_json_get`,
//! `spec_json_string`); everything after the calls is verified, and
//! the public functions here fix their results exactly over those
//! names.

use vstd::prelude::*;

use crate::profile::{
    spec_opt_view, FetchError, LookupDoc, PlayerDoc, ProfileAttributes, ResolutionError,
};
use crate::rank::{spec_rank_fields, RankTier};

verus! {

#[verifier::external_type_specification]
#[verifier::external_body]
pub struct ExValue(serde_json::Value);

/// What `serde_json::from_str` parses a body to: `None` for malformed
/// input or nesting beyond the parser's depth limit.
pub uninterp spec fn spec_json_parse(s: Seq<char>) -> Option<serde_json::Value>;

/// What `serde_json::Value::get` finds under a string key: `None`
/// where the value is no object or has no such field.
pub uninterp spec fn spec_json_get(v: serde_json::Value, key: Seq<char>) -> Option<
    serde_json::Value,
>;

/// What `serde_json::Value::as_str` reads out of a value: the
/// contents of a JSON string, `None` for every other kind of value.
pub uninterp spec fn spec_json_string(v: serde_json::Value) -> Option<Seq<char>>;

/// Relies on serde_json::from_str: the parse outcome of the body
/// alone.
#[verifier::external_body]
fn json_parse(s: &str) -> (r: Option<serde_json::Value>)
    ensures
        r == spec_json_parse(s@),
{
    serde_json::from_str::<serde_json::Value>(s).ok()
}

/// Relies on serde_json::Value::get: the field under the key, a
/// function of the value and the key alone.
#[verifier::external_body]
fn json_get(v: &serde_json::Value, key: &str) -> (r: Option<serde_json::Value>)
    ensures
        r == spec_json_get(*v, key@),
{
    v.get(key).cloned()
}

/// Relies on serde_json::Value::as_str: the string contents of the
/// value alone.
#[verifier::external_body]
fn json_as_string(v: &serde_json::Value) -> (r: Option<String>)
    ensures
        spec_opt_view(r) == spec_json_string(*v),
{
    v.as_str().map(|s| s.to_owned())
}

/// The string under `key`, where the value carries one there.
pub open spec fn spec_field_string(v: serde_json::Value, key: Seq<char>) -> Option<Seq<char>> {
    match spec_json_get(v, key) {
        Some(f) => spec_json_string(f),
        None => None,
    }
}

/// The resolver outcome a lookup body decodes to: an explicit error
/// field means no such account; a string id resolves; anything else
/// is a lookup failure.
pub open spec fn spec_resolution_of(body: Seq<char>) -> Result<Seq<char>, ResolutionError> {
    match spec_json_parse(body) {
        None => Err(ResolutionError::LookupFailed),
        Some(v) => if spec_json_get(v, "error"@) is Some {
            Err(ResolutionError::NotFound)
        } else {
            match spec_field_string(v, "id"@) {
                Some(id) => Ok(id),
                None => Err(ResolutionError::LookupFailed),
            }
        },
    }
}

/// The guild name a guild body decodes to, if any.
pub open spec fn spec_guild_name_of(body: Seq<char>) -> Option<Seq<char>> {
    match spec_json_parse(body) {
        None => None,
        Some(v) => match spec_json_get(v, "guild"@) {
            Some(g) => spec_field_string(g, "name"@),
            None => None,
        },
    }
}

/// The guild name an optional guild body decodes to.
pub open spec fn spec_group_of(body: Option<String>) -> Option<Seq<char>> {
    match body {
        Some(b) => spec_guild_name_of(b@),
        None => None,
    }
}

/// The linked identity under the player's `socialMedia.links.DISCORD`
/// field.
pub open spec fn spec_linked_identity_of(p: serde_json::Value) -> Option<Seq<char>> {
    match spec_json_get(p, "socialMedia"@) {
        Some(sm) => match spec_json_get(sm, "links"@) {
            Some(links) => spec_field_string(links, "DISCORD"@),
            None => None,
        },
        None => None,
    }
}

/// The player object of a parsed profile body, if the body parses and
/// carries one.
pub open spec fn spec_player_of(body: Seq<char>) -> Option<serde_json::Value> {
    match spec_json_parse(body) {
        None => None,
        Some(v) => spec_json_get(v, "player"@),
    }
}

/// The profile body yields no usable document: it is unparsable, has
/// no player object, or its player has no display name.
pub open spec fn spec_profile_malformed(body: Seq<char>) -> bool {
    match spec_player_of(body) {
        None => true,
        Some(p) => spec_field_string(p, "displayname"@) is None,
    }
}

/// The rank tier a player object classifies to.
pub open spec fn spec_profile_rank(p: serde_json::Value) -> RankTier {
    spec_rank_fields(
        spec_json_get(p, "prefix"@) is Some,
        spec_field_string(p, "rank"@),
        spec_field_string(p, "monthlyPackageRank"@),
        spec_field_string(p, "newPackageRank"@),
    )
}

/// Reads the lookup-response fields: an explicit error field and the
/// account id, where it is a string.
fn decode_lookup(v: &serde_json::Value) -> (d: LookupDoc)
    ensures
        d.has_error == (spec_json_get(*v, "error"@) is Some),
        spec_opt_view(d.account_id) == spec_field_string(*v, "id"@),
{
    let has_error = json_get(v, "error").is_some();
    let account_id = match json_get(v, "id") {
        Some(idv) => json_as_string(&idv),
        None => None,
    };
    LookupDoc { has_error, account_id }
}

/// Reads the profile fields under the document's player object, or
/// `None` where the document has no player object at all.
fn decode_player(root: &serde_json::Value) -> (d: Option<PlayerDoc>)
    ensures
        match spec_json_get(*root, "player"@) {
            None => d is None,
            Some(p) => d matches Some(doc) && {
                &&& doc.has_prefix == (spec_json_get(p, "prefix"@) is Some)
                &&& spec_opt_view(doc.staff_rank) == spec_field_string(p, "rank"@)
                &&& spec_opt_view(doc.monthly_package_rank) == spec_field_string(
                    p,
                    "monthlyPackageRank"@,
                )
                &&& spec_opt_view(doc.new_package_rank) == spec_field_string(
                    p,
                    "newPackageRank"@,
                )
                &&& spec_opt_view(doc.display_name) == spec_field_string(p, "displayname"@)
                &&& spec_opt_view(doc.linked_discord) == spec_linked_identity_of(p)
            },
        },
{
    let player = match json_get(root, "player") {
        Some(p) => p,
        None => {
            return None;
        },
    };
    let has_prefix = json_get(&player, "prefix").is_some();
    let staff_rank = match json_get(&player, "rank") {
        Some(v) => json_as_string(&v),
        None => None,
    };
    let monthly_package_rank = match json_get(&player, "monthlyPackageRank") {
        Some(v) => json_as_string(&v),
        None => None,
    };
    let new_package_rank = match json_get(&player, "newPackageRank") {
        Some(v) => json_as_string(&v),
        None => None,
    };
    let display_name = match json_get(&player, "displayname") {
        Some(v) => json_as_string(&v),
        None => None,
    };
    let linked_discord = match json_get(&player, "socialMedia") {
        Some(sm) => match json_get(&sm, "links") {
            Some(links) => match json_get(&links, "DISCORD") {
                Some(d) => json_as_string(&d),
                None => None,
            },
            None => None,
        },
        None => None,
    };
    Some(
        PlayerDoc {
            has_prefix,
            staff_rank,
            monthly_package_rank,
            new_package_rank,
            display_name,
            linked_discord,
        },
    )
}

/// Resolver stage on a raw lookup response: `None` stands for a
/// transport failure and is a lookup failure; a present body is
/// decoded exactly as [`spec_resolution_of`] fixes it.
pub fn resolve_from_response(body: &Option<String>) -> (r: Result<String, ResolutionError>)
    ensures
        match body {
            None => r == Err::<String, ResolutionError>(ResolutionError::LookupFailed),
            Some(b) => match spec_resolution_of(b@) {
                Ok(id) => r matches Ok(s) && s@ == id,
                Err(e) => r == Err::<String, ResolutionError>(e),
            },
        },
{
    match body {
        None => Err(ResolutionError::LookupFailed),
        Some(b) => {
            let doc = match json_parse(b.as_str()) {
                Some(v) => Some(decode_lookup(&v)),
                None => None,
            };
            crate::profile::resolve_outcome(doc)
        },
    }
}

/// Best-effort guild name from a raw guild response: any failure at
/// all degrades to `None`, never to an error.
pub fn group_from_response(body: &Option<String>) -> (r: Option<String>)
    ensures
        match body {
            None => r is None,
            Some(b) => spec_opt_view(r) == spec_guild_name_of(b@),
        },
{
    match body {
        None => None,
        Some(b) => match json_parse(b.as_str()) {
            Some(v) => match json_get(&v, "guild") {
                Some(g) => match json_get(&g, "name") {
                    Some(n) => json_as_string(&n),
                    None => None,
                },
                None => None,
            },
            None => None,
        },
    }
}

/// Fetcher stage on raw response bodies.  A missing body, an
/// unparsable one, one without a player object and one whose player
/// has no display name are all the same service error — nothing finer
/// is reported.  Otherwise the attributes are fixed field by field
/// over the named decode of the two bodies; the guild body is best
/// effort and never fails the fetch.
pub fn fetch_from_response(player_body: &Option<String>, group_body: &Option<String>) -> (r: Result<
    ProfileAttributes,
    FetchError,
>)
    ensures
        match player_body {
            None => r == Err::<ProfileAttributes, FetchError>(FetchError::ServiceError),
            Some(b) => {
                if spec_profile_malformed(b@) {
                    r == Err::<ProfileAttributes, FetchError>(FetchError::ServiceError)
                } else {
                    let p = spec_player_of(b@)->0;
                    r matches Ok(a) && {
                        &&& spec_opt_view(a.linked_identity) == spec_linked_identity_of(p)
                        &&& a.rank_tier == spec_profile_rank(p)
                        &&& Some(a.display_name@) == spec_field_string(p, "displayname"@)
                        &&& spec_opt_view(a.group_name) == spec_group_of(*group_body)
                    }
                }
            },
        },
{
    let group_name = group_from_response(group_body);
    match player_body {
        None => Err(FetchError::ServiceError),
        Some(b) => match json_parse(b.as_str()) {
            None => Err(FetchError::ServiceError),
            Some(v) => match decode_player(&v) {
                None => Err(FetchError::ServiceError),
                Some(doc) => crate::profile::attributes_from_doc(doc, group_name),
            },
        },
    }
}

} // verus!
