//! The pull statistics engine.
//!
//! A single forward pass over a player's chronologically ordered pull
//! history derives, per banner category, the pull-distance sums behind
//! the luck averages and, where the category carries a 50/50 guarantee
//! mechanic, the win/loss tallies and best-ever streaks.
//!
//! The pass is specified by a step function over a mathematical
//! accumulator state; the executable engine is proved to land on exactly
//! the state that folding the step function over the input yields.

use vstd::prelude::*;

use crate::policy::BannerCategory;
use crate::policy::BannerPolicy;
use crate::policy::policy_for;
use crate::policy::spec_has_guarantee;
use crate::policy::spec_loss_ids;

verus! {

/// One historical gacha pull, as the engine sees it. The input sequence
/// must already be ordered by `sequence_index` ascending for the result
/// to be meaningful; the engine neither sorts nor validates ordering.
#[derive(Clone, Copy, PartialEq, Eq, Debug)]
pub struct PullRecord {
    /// The pull's 0-based position within its banner category's history.
    pub sequence_index: u32,
    /// Rarity tier; only tiers 4 and 5 are statistically significant,
    /// but every pull consumes pull-distance.
    pub rarity: i32,
    /// The specific item won; meaningful for 5-star pulls on banners
    /// with a guarantee mechanic, absent otherwise.
    pub item_id: Option<i32>,
}

/// The 50/50 tallies, reported only for categories with a guarantee
/// mechanic. `win_rate` is `win_count / rolls_at_stake`, left to the
/// caller because it is undefined when `rolls_at_stake` is zero.
#[derive(Clone, Copy, PartialEq, Eq, Debug)]
pub struct GuaranteeStats {
    /// Free 50/50 rolls that hit the featured pool.
    pub win_count: u64,
    /// Free 50/50 rolls resolved at all; forced featured results after a
    /// loss are excluded.
    pub rolls_at_stake: u64,
    /// Best-ever run of consecutive free-roll wins.
    pub max_win_streak: u64,
    /// Best-ever run of consecutive free-roll losses.
    pub max_loss_streak: u64,
}

/// The engine's output for one (player, banner category) pair. The luck
/// averages are `sum_4 / count_4` and `sum_5 / count_5`, left to the
/// caller because they are undefined when the respective count is zero.
#[derive(Clone, Copy, PartialEq, Eq, Debug)]
pub struct PullStatsResult {
    /// Total pull distance consumed by 4-star hits.
    pub sum_4: u64,
    /// Number of 4-star hits.
    pub count_4: u64,
    /// Total pull distance consumed by 5-star hits.
    pub sum_5: u64,
    /// Number of 5-star hits.
    pub count_5: u64,
    /// Present exactly when the category has a guarantee mechanic.
    pub guarantee: Option<GuaranteeStats>,
}

/// The accumulator state of the forward pass, over unbounded integers.
pub struct StatsModel {
    pub since_4: int,
    pub sum_4: int,
    pub count_4: int,
    pub since_5: int,
    pub sum_5: int,
    pub count_5: int,
    pub guaranteed_next: bool,
    pub win_count: int,
    pub rolls_at_stake: int,
    pub win_streak: int,
    pub max_win_streak: int,
    pub loss_streak: int,
    pub max_loss_streak: int,
}

/// The state before any pull: all counters zero, no guarantee active.
pub open spec fn init_model() -> StatsModel {
    StatsModel {
        since_4: 0,
        sum_4: 0,
        count_4: 0,
        since_5: 0,
        sum_5: 0,
        count_5: 0,
        guaranteed_next: false,
        win_count: 0,
        rolls_at_stake: 0,
        win_streak: 0,
        max_win_streak: 0,
        loss_streak: 0,
        max_loss_streak: 0,
    }
}

/// A pull loses the 50/50 roll when its item is one of the losing
/// (non-featured) identifiers. A missing item identifier never matches,
/// so it resolves as a win rather than a crash.
pub open spec fn spec_is_loss(pull: PullRecord, loss_ids: Seq<i32>) -> bool {
    match pull.item_id {
        Some(id) => loss_ids.contains(id),
        None => false,
    }
}

/// The guarantee state machine, driven exclusively by 5-star events.
/// A forced featured result (drawn while the guarantee is active) only
/// clears the guarantee: it counts toward no 50/50 tally. A free roll is
/// at stake; a loss arms the guarantee and extends the loss streak, a
/// win extends the win streak, and the reported streaks are the running
/// maxima.
pub open spec fn guarantee_step(m: StatsModel, pull: PullRecord, loss_ids: Seq<i32>) -> StatsModel {
    if m.guaranteed_next {
        StatsModel { guaranteed_next: false, ..m }
    } else if spec_is_loss(pull, loss_ids) {
        StatsModel {
            rolls_at_stake: m.rolls_at_stake + 1,
            win_streak: 0,
            loss_streak: m.loss_streak + 1,
            max_loss_streak: if m.loss_streak + 1 > m.max_loss_streak {
                m.loss_streak + 1
            } else {
                m.max_loss_streak
            },
            guaranteed_next: true,
            ..m
        }
    } else {
        StatsModel {
            rolls_at_stake: m.rolls_at_stake + 1,
            win_count: m.win_count + 1,
            loss_streak: 0,
            win_streak: m.win_streak + 1,
            max_win_streak: if m.win_streak + 1 > m.max_win_streak {
                m.win_streak + 1
            } else {
                m.max_win_streak
            },
            ..m
        }
    }
}

/// One pull of the forward pass. Every pull consumes one unit of both
/// pull distances; a 4-star banks the 4-star distance, a 5-star banks
/// the 5-star distance and, on guarantee banners, drives the guarantee
/// state machine.
pub open spec fn model_step(
    m: StatsModel,
    pull: PullRecord,
    has_guarantee: bool,
    loss_ids: Seq<i32>,
) -> StatsModel {
    let counted = StatsModel { since_4: m.since_4 + 1, since_5: m.since_5 + 1, ..m };
    if pull.rarity == 4 {
        StatsModel {
            sum_4: counted.sum_4 + counted.since_4,
            count_4: counted.count_4 + 1,
            since_4: 0,
            ..counted
        }
    } else if pull.rarity == 5 {
        let banked = StatsModel {
            sum_5: counted.sum_5 + counted.since_5,
            count_5: counted.count_5 + 1,
            since_5: 0,
            ..counted
        };
        if has_guarantee {
            guarantee_step(banked, pull, loss_ids)
        } else {
            banked
        }
    } else {
        counted
    }
}

/// The state after walking a whole pull sequence, oldest pull first.
pub open spec fn model_of(
    pulls: Seq<PullRecord>,
    has_guarantee: bool,
    loss_ids: Seq<i32>,
) -> StatsModel
    decreases pulls.len(),
{
    if pulls.len() == 0 {
        init_model()
    } else {
        model_step(model_of(pulls.drop_last(), has_guarantee, loss_ids), pulls.last(), has_guarantee, loss_ids)
    }
}

/// How a reported statistics record corresponds to the accumulator
/// state: every tally is carried over exactly, and the 50/50 block is
/// present exactly when the category has a guarantee mechanic.
pub open spec fn matches_model(r: PullStatsResult, m: StatsModel, has_guarantee: bool) -> bool {
    &&& r.sum_4 as int == m.sum_4
    &&& r.count_4 as int == m.count_4
    &&& r.sum_5 as int == m.sum_5
    &&& r.count_5 as int == m.count_5
    &&& match r.guarantee {
        Some(g) => {
            &&& has_guarantee
            &&& g.win_count as int == m.win_count
            &&& g.rolls_at_stake as int == m.rolls_at_stake
            &&& g.max_win_streak as int == m.max_win_streak
            &&& g.max_loss_streak as int == m.max_loss_streak
        },
        None => !has_guarantee,
    }
}

/// Every accumulator field stays within the number of pulls walked, and
/// the distance counters complement the banked sums exactly. This is
/// what keeps the 64-bit tallies of the executable engine from ever
/// overflowing.
pub proof fn lemma_model_bounds(pulls: Seq<PullRecord>, has_guarantee: bool, loss_ids: Seq<i32>)
    ensures
        ({
            let m = model_of(pulls, has_guarantee, loss_ids);
            &&& m.since_4 >= 0
            &&& m.since_5 >= 0
            &&& m.sum_4 >= 0
            &&& m.sum_5 >= 0
            &&& m.sum_4 + m.since_4 == pulls.len()
            &&& m.sum_5 + m.since_5 == pulls.len()
            &&& 0 <= m.count_4 <= pulls.len()
            &&& 0 <= m.count_5 <= pulls.len()
            &&& 0 <= m.win_count <= m.rolls_at_stake
            &&& m.rolls_at_stake <= m.count_5
            &&& 0 <= m.win_streak <= m.max_win_streak <= m.win_count
            &&& 0 <= m.loss_streak <= m.max_loss_streak <= m.rolls_at_stake
        }),
    decreases pulls.len(),
{
    if pulls.len() > 0 {
        lemma_model_bounds(pulls.drop_last(), has_guarantee, loss_ids);
    }
}

/// How many pulls at the end of the sequence come after the last hit of
/// the given rarity: the trailing run with no such hit.
pub open spec fn trailing_misses(pulls: Seq<PullRecord>, rarity: i32) -> int
    decreases pulls.len(),
{
    if pulls.len() == 0 {
        0
    } else if pulls.last().rarity == rarity {
        0
    } else {
        1 + trailing_misses(pulls.drop_last(), rarity)
    }
}

/// How many pulls of the sequence have the given rarity.
pub open spec fn count_rarity(pulls: Seq<PullRecord>, rarity: i32) -> int
    decreases pulls.len(),
{
    if pulls.len() == 0 {
        0
    } else {
        count_rarity(pulls.drop_last(), rarity) + if pulls.last().rarity == rarity {
            1int
        } else {
            0int
        }
    }
}

proof fn lemma_count_rarity_nonneg(pulls: Seq<PullRecord>, rarity: i32)
    ensures
        count_rarity(pulls, rarity) >= 0,
    decreases pulls.len(),
{
    if pulls.len() > 0 {
        lemma_count_rarity_nonneg(pulls.drop_last(), rarity);
    }
}

/// The banked distance sums are exactly the per-hit pull distances,
/// which reset at each hit, added up: telescoping, that is every pull up
/// to and including the last hit of the rarity, while the open distance
/// counter holds the trailing pulls after it. The hit counts are plain
/// rarity counts.
pub proof fn lemma_distance_sums(pulls: Seq<PullRecord>, has_guarantee: bool, loss_ids: Seq<i32>)
    ensures
        ({
            let m = model_of(pulls, has_guarantee, loss_ids);
            &&& m.since_4 == trailing_misses(pulls, 4)
            &&& m.sum_4 == pulls.len() - trailing_misses(pulls, 4)
            &&& m.count_4 == count_rarity(pulls, 4)
            &&& m.since_5 == trailing_misses(pulls, 5)
            &&& m.sum_5 == pulls.len() - trailing_misses(pulls, 5)
            &&& m.count_5 == count_rarity(pulls, 5)
        }),
    decreases pulls.len(),
{
    if pulls.len() > 0 {
        lemma_distance_sums(pulls.drop_last(), has_guarantee, loss_ids);
    }
}

/// A sequence without a single 5-star pull yields empty 5-star
/// statistics: no banked distance, no hit count, no roll at stake, no
/// win and no streak, and no armed guarantee. The luck average and the
/// win rate are then undefined, and callers must treat the zero counts
/// as "insufficient data" rather than divide by them.
pub proof fn lemma_no_five_star(pulls: Seq<PullRecord>, has_guarantee: bool, loss_ids: Seq<i32>)
    requires
        count_rarity(pulls, 5) == 0,
    ensures
        ({
            let m = model_of(pulls, has_guarantee, loss_ids);
            &&& m.count_5 == 0
            &&& m.sum_5 == 0
            &&& m.rolls_at_stake == 0
            &&& m.win_count == 0
            &&& m.max_win_streak == 0
            &&& m.max_loss_streak == 0
            &&& !m.guaranteed_next
        }),
    decreases pulls.len(),
{
    if pulls.len() > 0 {
        lemma_count_rarity_nonneg(pulls.drop_last(), 5);
        lemma_no_five_star(pulls.drop_last(), has_guarantee, loss_ids);
        lemma_distance_sums(pulls, has_guarantee, loss_ids);
    }
}

/// One face of order sensitivity: the engine is not a plain aggregate
/// of its input. Whenever a sequence and its reversal differ in how
/// many pulls follow their last 4-star hit, the two orders yield
/// different statistics, because the banked distance sum reads off the
/// position of that last hit.
pub proof fn lemma_order_sensitive(
    pulls: Seq<PullRecord>,
    has_guarantee: bool,
    loss_ids: Seq<i32>,
)
    requires
        trailing_misses(pulls, 4) != trailing_misses(pulls.reverse(), 4),
    ensures
        model_of(pulls, has_guarantee, loss_ids) != model_of(
            pulls.reverse(),
            has_guarantee,
            loss_ids,
        ),
{
    lemma_distance_sums(pulls, has_guarantee, loss_ids);
    lemma_distance_sums(pulls.reverse(), has_guarantee, loss_ids);
}

/// The guarantee exclusion law: a 5-star drawn while the guarantee is
/// armed is the forced featured result. It still banks its pull
/// distance and counts as a 5-star hit, but it is excluded from every
/// 50/50 tally — rolls at stake, wins, and both streaks — and it
/// disarms the guarantee. Counting it would understate the true loss
/// rate and streak lengths.
pub proof fn lemma_forced_win_excluded(m: StatsModel, pull: PullRecord, loss_ids: Seq<i32>)
    requires
        m.guaranteed_next,
        pull.rarity == 5,
    ensures
        ({
            let next = model_step(m, pull, true, loss_ids);
            &&& !next.guaranteed_next
            &&& next.rolls_at_stake == m.rolls_at_stake
            &&& next.win_count == m.win_count
            &&& next.win_streak == m.win_streak
            &&& next.max_win_streak == m.max_win_streak
            &&& next.loss_streak == m.loss_streak
            &&& next.max_loss_streak == m.max_loss_streak
            &&& next.count_5 == m.count_5 + 1
            &&& next.sum_5 == m.sum_5 + m.since_5 + 1
        }),
{
}

/// The engine's contract pins the whole record down: any two statistics
/// records that both match the accumulator state of the same pull
/// sequence under the same policy are identical. Recomputing is
/// therefore idempotent — the engine is a pure function of its input.
pub proof fn lemma_result_unique(
    pulls: Seq<PullRecord>,
    has_guarantee: bool,
    loss_ids: Seq<i32>,
    r1: PullStatsResult,
    r2: PullStatsResult,
)
    requires
        matches_model(r1, model_of(pulls, has_guarantee, loss_ids), has_guarantee),
        matches_model(r2, model_of(pulls, has_guarantee, loss_ids), has_guarantee),
    ensures
        r1 == r2,
{
}

/// Whether an item identifier is in the policy's loss set.
fn is_loss_item(policy: &BannerPolicy, id: i32) -> (r: bool)
    ensures
        r == policy.loss_item_ids@.contains(id),
{
    let mut i: usize = 0;
    while i < policy.loss_item_ids.len()
        invariant
            i <= policy.loss_item_ids@.len(),
            forall|j: int| 0 <= j < i ==> policy.loss_item_ids@[j] != id,
        decreases policy.loss_item_ids@.len() - i,
    {
        if policy.loss_item_ids[i] == id {
            proof {
                assert(policy.loss_item_ids@[i as int] == id);
            }
            return true;
        }
        i = i + 1;
    }
    false
}

/// Computes the statistics record for one ordered pull sequence and one
/// banner policy: the single consolidated form of the per-category
/// forward pass. Pure and total: any input sequence yields a record, and
/// zero-hit tallies surface as zero counts for the caller to treat as
/// "insufficient data" rather than as zero luck.
pub fn compute(pulls: &Vec<PullRecord>, policy: &BannerPolicy) -> (r: PullStatsResult)
    ensures
        matches_model(
            r,
            model_of(pulls@, policy.has_guarantee, policy.loss_item_ids@),
            policy.has_guarantee,
        ),
{
    let ghost hg = policy.has_guarantee;
    let ghost ids = policy.loss_item_ids@;

    let mut since_4: u64 = 0;
    let mut sum_4: u64 = 0;
    let mut count_4: u64 = 0;
    let mut since_5: u64 = 0;
    let mut sum_5: u64 = 0;
    let mut count_5: u64 = 0;
    let mut guaranteed_next: bool = false;
    let mut win_count: u64 = 0;
    let mut rolls_at_stake: u64 = 0;
    let mut win_streak: u64 = 0;
    let mut max_win_streak: u64 = 0;
    let mut loss_streak: u64 = 0;
    let mut max_loss_streak: u64 = 0;

    let mut i: usize = 0;
    while i < pulls.len()
        invariant
            i <= pulls@.len(),
            hg == policy.has_guarantee,
            ids == policy.loss_item_ids@,
            ({
                let m = model_of(pulls@.take(i as int), hg, ids);
                &&& since_4 as int == m.since_4
                &&& sum_4 as int == m.sum_4
                &&& count_4 as int == m.count_4
                &&& since_5 as int == m.since_5
                &&& sum_5 as int == m.sum_5
                &&& count_5 as int == m.count_5
                &&& guaranteed_next == m.guaranteed_next
                &&& win_count as int == m.win_count
                &&& rolls_at_stake as int == m.rolls_at_stake
                &&& win_streak as int == m.win_streak
                &&& max_win_streak as int == m.max_win_streak
                &&& loss_streak as int == m.loss_streak
                &&& max_loss_streak as int == m.max_loss_streak
            }),
        decreases pulls@.len() - i,
    {
        proof {
            lemma_model_bounds(pulls@.take(i as int), hg, ids);
            assert(pulls@.take(i + 1 as int).drop_last() =~= pulls@.take(i as int));
            assert(pulls@.take(i + 1 as int).last() == pulls@[i as int]);
        }
        let pull = pulls[i];

        since_4 = since_4 + 1;
        since_5 = since_5 + 1;
        if pull.rarity == 4 {
            count_4 = count_4 + 1;
            sum_4 = sum_4 + since_4;
            since_4 = 0;
        } else if pull.rarity == 5 {
            count_5 = count_5 + 1;
            sum_5 = sum_5 + since_5;
            since_5 = 0;
            if policy.has_guarantee {
                if guaranteed_next {
                    guaranteed_next = false;
                } else {
                    rolls_at_stake = rolls_at_stake + 1;
                    let loss = match pull.item_id {
                        Some(id) => is_loss_item(policy, id),
                        None => false,
                    };
                    if loss {
                        win_streak = 0;
                        loss_streak = loss_streak + 1;
                        if loss_streak > max_loss_streak {
                            max_loss_streak = loss_streak;
                        }
                        guaranteed_next = true;
                    } else {
                        win_count = win_count + 1;
                        loss_streak = 0;
                        win_streak = win_streak + 1;
                        if win_streak > max_win_streak {
                            max_win_streak = win_streak;
                        }
                    }
                }
            }
        }
        i = i + 1;
    }
    proof {
        assert(pulls@.take(pulls@.len() as int) =~= pulls@);
    }

    let guarantee = if policy.has_guarantee {
        Some(
            GuaranteeStats {
                win_count,
                rolls_at_stake,
                max_win_streak,
                max_loss_streak,
            },
        )
    } else {
        None
    };
    PullStatsResult { sum_4, count_4, sum_5, count_5, guarantee }
}

/// Computes the statistics record for one ordered pull sequence under a
/// banner category's own policy, looked up in the policy table. This is
/// the entry point a recompute sweep or an import refresh invokes once
/// per affected category, always with the complete pull history.
pub fn compute_for_category(pulls: &Vec<PullRecord>, category: BannerCategory) -> (r:
    PullStatsResult)
    ensures
        matches_model(
            r,
            model_of(pulls@, spec_has_guarantee(category), spec_loss_ids(category)),
            spec_has_guarantee(category),
        ),
{
    let policy = policy_for(category);
    compute(pulls, &policy)
}

} // verus!

