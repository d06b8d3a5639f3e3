//! Banner categories and the per-category policy table.
//!
//! Each banner category either has a 50/50 pity-guarantee mechanic or it
//! does not; for the categories that have one, the policy carries the
//! curated set of item identifiers that count as the "losing"
//! (non-featured) outcome of a free 50/50 roll.

use vstd::prelude::*;

verus! {

/// The closed set of banner categories, each with its own pull history
/// and statistics.
#[derive(Clone, Copy, PartialEq, Eq, Debug)]
pub enum BannerCategory {
    Beginner,
    Standard,
    CharacterEvent,
    WeaponEvent,
    Chronicled,
}

/// Static configuration for one banner category: whether a 50/50
/// pity-guarantee mechanic applies and, if so, which item identifiers
/// count as the losing outcome.
#[derive(Clone, Debug)]
pub struct BannerPolicy {
    pub has_guarantee: bool,
    pub loss_item_ids: Vec<i32>,
}

/// Whether a category carries the 50/50 guarantee mechanic: only the
/// character-event and weapon-event banners do.
pub open spec fn spec_has_guarantee(category: BannerCategory) -> bool {
    category is CharacterEvent || category is WeaponEvent
}

/// The standard-pool five-star characters that count as a lost 50/50
/// roll on the character-event banner.
pub open spec fn character_loss_ids() -> Seq<i32> {
    seq![10000042, 10000016, 10000003, 10000035, 10000069, 10000079, 10000041]
}

/// The standard-pool five-star weapons that count as a lost 50/50 roll
/// on the weapon-event banner.
pub open spec fn weapon_loss_ids() -> Seq<i32> {
    seq![15502, 11501, 14502, 13505, 14501, 15501, 12501, 13502, 12502]
}

/// The loss set of a category: empty whenever the category has no
/// guarantee mechanic.
pub open spec fn spec_loss_ids(category: BannerCategory) -> Seq<i32> {
    match category {
        BannerCategory::CharacterEvent => character_loss_ids(),
        BannerCategory::WeaponEvent => weapon_loss_ids(),
        _ => Seq::empty(),
    }
}

/// A policy is well formed when its loss set is empty unless the
/// guarantee mechanic applies.
pub open spec fn policy_wf(policy: BannerPolicy) -> bool {
    !policy.has_guarantee ==> policy.loss_item_ids@ == Seq::<i32>::empty()
}

/// Builds the policy of one banner category from the single data-driven
/// table above, so the per-category loss lists cannot drift apart.
pub fn policy_for(category: BannerCategory) -> (policy: BannerPolicy)
    ensures
        policy.has_guarantee == spec_has_guarantee(category),
        policy.loss_item_ids@ == spec_loss_ids(category),
        policy_wf(policy),
{
    match category {
        BannerCategory::CharacterEvent => {
            let mut ids: Vec<i32> = Vec::new();
            ids.push(10000042);
            ids.push(10000016);
            ids.push(10000003);
            ids.push(10000035);
            ids.push(10000069);
            ids.push(10000079);
            ids.push(10000041);
            proof {
                assert(ids@ =~= character_loss_ids());
            }
            BannerPolicy { has_guarantee: true, loss_item_ids: ids }
        }
        BannerCategory::WeaponEvent => {
            let mut ids: Vec<i32> = Vec::new();
            ids.push(15502);
            ids.push(11501);
            ids.push(14502);
            ids.push(13505);
            ids.push(14501);
            ids.push(15501);
            ids.push(12501);
            ids.push(13502);
            ids.push(12502);
            proof {
                assert(ids@ =~= weapon_loss_ids());
            }
            BannerPolicy { has_guarantee: true, loss_item_ids: ids }
        }
        _ => {
            let ids: Vec<i32> = Vec::new();
            proof {
                assert(ids@ =~= Seq::<i32>::empty());
            }
            BannerPolicy { has_guarantee: false, loss_item_ids: ids }
        }
    }
}

} // verus!
