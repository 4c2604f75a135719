//! The profile data model and the pure classification steps of the
//! resolver and fetcher stages.
//!
//! `PlayerDoc` holds, as plain values, exactly the fields of the remote
//! profile document that the pipeline reads; `LookupDoc` does the same
//! for the account-lookup response.  The functions here turn those
//! decoded documents into stage outcomes and are specified exactly:
//! the remote calls and the JSON decoding stand elsewhere.

use vstd::prelude::*;

use crate::rank::{spec_rank_of, RankTier};

verus! {

/// The character view of an optional string.
pub open spec fn spec_opt_view(o: Option<String>) -> Option<Seq<char>> {
    match o {
        Some(s) => Some(s@),
        None => None,
    }
}

/// The fields the pipeline reads from a profile document.  A `None`
/// field was absent or was no string.
#[derive(Clone, Debug, PartialEq, Eq)]
pub struct PlayerDoc {
    /// A prefix attribute is reserved for top-tier, staff or novelty
    /// ranks; its bare presence counts.
    pub has_prefix: bool,
    /// The staff-rank marker field.
    pub staff_rank: Option<String>,
    /// The monthly package attribute.
    pub monthly_package_rank: Option<String>,
    /// The package attribute mapped through the tier table.
    pub new_package_rank: Option<String>,
    /// The externally reported display name.
    pub display_name: Option<String>,
    /// The linked chat-platform identity published on the profile.
    pub linked_discord: Option<String>,
}

/// The fields the pipeline reads from an account-lookup response.
#[derive(Clone, Debug, PartialEq, Eq)]
pub struct LookupDoc {
    /// The response carried an explicit error field: no such account.
    pub has_error: bool,
    /// The canonical account id, where the response carried one.
    pub account_id: Option<String>,
}

/// Failure of the account-lookup stage.  `NotFound` is a well-formed
/// answer that names no account; `LookupFailed` covers transport
/// errors, non-success statuses and unparsable bodies alike.
#[derive(Clone, Copy, Debug, PartialEq, Eq, Structural)]
pub enum ResolutionError {
    LookupFailed,
    NotFound,
}

/// Failure of the profile-fetch stage: transport or parse failure and
/// a document without a profile are reported identically.
#[derive(Clone, Copy, Debug, PartialEq, Eq, Structural)]
pub enum FetchError {
    ServiceError,
}

/// What the fetcher derives from a profile document.
#[derive(Clone, Debug, PartialEq, Eq)]
pub struct ProfileAttributes {
    /// The linked identity; absence is a normal, reportable outcome,
    /// distinct from a fetch failure.
    pub linked_identity: Option<String>,
    /// The derived rank tier.
    pub rank_tier: RankTier,
    /// The guild name, best effort; any failure degrades to `None`.
    pub group_name: Option<String>,
    /// The display name the nickname is set to.
    pub display_name: String,
}

/// Turns a decoded lookup response into the resolver outcome: no
/// response or no usable id is a lookup failure, an explicit error
/// field means the account does not exist.
pub fn resolve_outcome(doc: Option<LookupDoc>) -> (r: Result<String, ResolutionError>)
    ensures
        match doc {
            None => r == Err::<String, ResolutionError>(ResolutionError::LookupFailed),
            Some(d) => {
                if d.has_error {
                    r == Err::<String, ResolutionError>(ResolutionError::NotFound)
                } else {
                    match d.account_id {
                        Some(id) => r == Ok::<String, ResolutionError>(id),
                        None => r == Err::<String, ResolutionError>(ResolutionError::LookupFailed),
                    }
                }
            },
        },
{
    match doc {
        None => Err(ResolutionError::LookupFailed),
        Some(d) => {
            if d.has_error {
                Err(ResolutionError::NotFound)
            } else {
                match d.account_id {
                    Some(id) => Ok(id),
                    None => Err(ResolutionError::LookupFailed),
                }
            }
        },
    }
}

/// Turns a decoded profile document and the best-effort guild name
/// into the fetcher outcome.  A document without a display name is
/// malformed and reported as a service error.
pub fn attributes_from_doc(doc: PlayerDoc, group_name: Option<String>) -> (r: Result<
    ProfileAttributes,
    FetchError,
>)
    ensures
        doc.display_name is None ==> r == Err::<ProfileAttributes, FetchError>(
            FetchError::ServiceError,
        ),
        doc.display_name matches Some(n) ==> (r matches Ok(a) && a.linked_identity
            == doc.linked_discord && a.rank_tier == spec_rank_of(doc) && a.group_name == group_name
            && a.display_name == n),
{
    let rank_tier = crate::rank::classify_rank(&doc);
    match doc.display_name {
        None => Err(FetchError::ServiceError),
        Some(n) => Ok(
            ProfileAttributes {
                linked_identity: doc.linked_discord,
                rank_tier,
                group_name,
                display_name: n,
            },
        ),
    }
}

} // verus!
