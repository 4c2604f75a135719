//! Rank-tier classification of a fetched profile document.
//!
//! Classification is precedence based and derives exactly one tier:
//! a profile with a prefix attribute or a staff rank marker is excluded
//! from the tiered system, the premium monthly package marks the top
//! tier, and otherwise the package attribute is mapped through a fixed
//! table of four labels.

use vstd::prelude::*;

use crate::profile::PlayerDoc;
use crate::text::str_eq;

verus! {

/// The ordered rank tiers, lowest privilege first.  `Default` stands
/// for an account outside the tiered system.
#[derive(Clone, Copy, Debug, PartialEq, Eq, Structural)]
pub enum RankTier {
    Default,
    Vip,
    VipPlus,
    Mvp,
    MvpPlus,
    MvpPlusPlus,
}

/// The staff markers that exclude an account from the tiered system.
pub open spec fn spec_is_staff_label(s: Seq<char>) -> bool {
    ||| s == "HELPER"@
    ||| s == "MODERATOR"@
    ||| s == "ADMIN"@
    ||| s == "YOUTUBER"@
}

/// The fixed package-attribute table: four labels, one tier each;
/// anything else is untiered.
pub open spec fn spec_package_tier(s: Seq<char>) -> RankTier {
    if s == "MVP_PLUS"@ {
        RankTier::MvpPlus
    } else if s == "MVP"@ {
        RankTier::Mvp
    } else if s == "VIP_PLUS"@ {
        RankTier::VipPlus
    } else if s == "VIP"@ {
        RankTier::Vip
    } else {
        RankTier::Default
    }
}

/// The tier the four rank-related fields classify to: prefix
/// attribute first, then staff markers, then the premium monthly
/// package, then the package table.  The first matching step decides
/// alone.
pub open spec fn spec_rank_fields(
    has_prefix: bool,
    staff: Option<Seq<char>>,
    monthly: Option<Seq<char>>,
    package: Option<Seq<char>>,
) -> RankTier {
    if has_prefix {
        RankTier::Default
    } else if staff matches Some(s) && spec_is_staff_label(s) {
        RankTier::Default
    } else if monthly matches Some(m) && m == "SUPERSTAR"@ {
        RankTier::MvpPlusPlus
    } else {
        match package {
            Some(p) => spec_package_tier(p),
            None => RankTier::Default,
        }
    }
}

/// The tier of a decoded profile document.
pub open spec fn spec_rank_of(doc: PlayerDoc) -> RankTier {
    spec_rank_fields(
        doc.has_prefix,
        crate::profile::spec_opt_view(doc.staff_rank),
        crate::profile::spec_opt_view(doc.monthly_package_rank),
        crate::profile::spec_opt_view(doc.new_package_rank),
    )
}

/// Derives the rank tier of a profile document.
pub fn classify_rank(doc: &PlayerDoc) -> (r: RankTier)
    ensures
        r == spec_rank_of(*doc),
{
    if doc.has_prefix {
        return RankTier::Default;
    }
    if let Some(s) = &doc.staff_rank {
        if str_eq(s.as_str(), "HELPER") || str_eq(s.as_str(), "MODERATOR") || str_eq(
            s.as_str(),
            "ADMIN",
        ) || str_eq(s.as_str(), "YOUTUBER") {
            return RankTier::Default;
        }
    }
    if let Some(m) = &doc.monthly_package_rank {
        if str_eq(m.as_str(), "SUPERSTAR") {
            return RankTier::MvpPlusPlus;
        }
    }
    if let Some(p) = &doc.new_package_rank {
        if str_eq(p.as_str(), "MVP_PLUS") {
            return RankTier::MvpPlus;
        }
        if str_eq(p.as_str(), "MVP") {
            return RankTier::Mvp;
        }
        if str_eq(p.as_str(), "VIP_PLUS") {
            return RankTier::VipPlus;
        }
        if str_eq(p.as_str(), "VIP") {
            return RankTier::Vip;
        }
    }
    RankTier::Default
}

/// A profile that carries a prefix attribute is never tiered, whatever
/// else it holds.
pub proof fn lemma_prefix_excludes_tier(doc: PlayerDoc)
    requires
        doc.has_prefix,
    ensures
        spec_rank_of(doc) == RankTier::Default,
{
}

/// On a profile inside the tiered system, the premium monthly package
/// marks the top tier even where a package attribute beside it names a
/// lower one.
pub proof fn lemma_monthly_package_precedence(doc: PlayerDoc)
    requires
        !doc.has_prefix,
        !(doc.staff_rank matches Some(s) && spec_is_staff_label(s@)),
        doc.monthly_package_rank matches Some(m) && m@ == "SUPERSTAR"@,
    ensures
        spec_rank_of(doc) == RankTier::MvpPlusPlus,
{
}

} // verus!
