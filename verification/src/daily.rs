use vstd::prelude::*;
use crate::clock::in_utc_range;
use crate::dice::{random_in_range, random_index};
use crate::member::{fits_i64, DailyCounter, Member};
use crate::time::{utc_day_wait, utc_day_wait_at};

verus! {

/// The /grow boost, in percent, that the growth-boost daily reward grants.
pub const NEXT_GROWTH_BOOST_PERCENT: i64 = 50;
/// Range of the cm bonus daily reward.
pub const DAILY_BONUS_CM_MIN: i64 = 5;
pub const DAILY_BONUS_CM_MAX: i64 = 15;

pub const DAILY_BONUS_REWARD_WEIGHT: u32 = 1;
pub const NEXT_GROWTH_BOOST_REWARD_WEIGHT: u32 = 1;
pub const COOLDOWN_SKIP_REWARD_WEIGHT: u32 = 1;
pub const STREAK_SAVER_REWARD_WEIGHT: u32 = 1;
pub const LUCKY_ROLL_REWARD_WEIGHT: u32 = 1;

/// What the daily claim granted.
#[derive(Clone, Copy, Debug, PartialEq, Eq, Structural)]
pub enum DailyReward {
    /// Cm added to the length right away, and the length after it.
    BonusCm { bonus: i64, new_length: i64 },
    /// A boost, in percent, for the next /grow.
    GrowthBoost { percent: i64 },
    /// One more /grow that ignores the cooldown.
    CooldownSkip,
    /// One more missed UTC day the growth streak survives.
    StreakSaver,
    /// One more /grow that rolls twice and keeps the better roll.
    LuckyRoll,
}

/// Sum of the daily reward weights.
pub open spec fn total_daily_weight() -> int {
    DAILY_BONUS_REWARD_WEIGHT + NEXT_GROWTH_BOOST_REWARD_WEIGHT + COOLDOWN_SKIP_REWARD_WEIGHT
        + STREAK_SAVER_REWARD_WEIGHT + LUCKY_ROLL_REWARD_WEIGHT
}

/// Which daily reward (0: cm bonus, 1: growth boost, 2: cooldown skip,
/// 3: streak saver, 4: lucky roll) a weighted roll selects; each reward takes
/// a stretch of the roll range as long as its weight, in that order.
pub open spec fn daily_reward_slot(roll: int) -> int {
    let c1 = DAILY_BONUS_REWARD_WEIGHT as int;
    let c2 = c1 + NEXT_GROWTH_BOOST_REWARD_WEIGHT;
    let c3 = c2 + COOLDOWN_SKIP_REWARD_WEIGHT;
    let c4 = c3 + STREAK_SAVER_REWARD_WEIGHT;
    if roll < c1 {
        0
    } else if roll < c2 {
        1
    } else if roll < c3 {
        2
    } else if roll < c4 {
        3
    } else {
        4
    }
}

/// Whether the daily reward is still taken for the UTC day of `now`.
pub open spec fn daily_blocked(m: Member, now: int) -> bool {
    m.daily_last_claimed matches Some(t) && utc_day_wait(t as int, now) > 0
}

/// The outcome and the record after a daily claim at `now` that is not
/// blocked, for reward roll `roll` and cm bonus roll `bonus`.
pub open spec fn spec_daily_grant(m: Member, now: int, roll: int, bonus: i64) -> (DailyReward, Member) {
    let stamped = Member { daily_last_claimed: Some(now as i64), ..m };
    let slot = daily_reward_slot(roll);
    if slot == 0 {
        (
            DailyReward::BonusCm { bonus, new_length: (m.length + bonus) as i64 },
            Member { length: (m.length + bonus) as i64, ..stamped },
        )
    } else if slot == 1 {
        (
            DailyReward::GrowthBoost { percent: NEXT_GROWTH_BOOST_PERCENT },
            Member { daily_growth_boost_percent: NEXT_GROWTH_BOOST_PERCENT, ..stamped },
        )
    } else if slot == 2 {
        (
            DailyReward::CooldownSkip,
            stamped.with_counter(DailyCounter::CooldownSkips, (m.daily_cooldown_skips + 1) as i64),
        )
    } else if slot == 3 {
        (
            DailyReward::StreakSaver,
            stamped.with_counter(DailyCounter::StreakSavers, (m.daily_streak_savers + 1) as i64),
        )
    } else {
        (
            DailyReward::LuckyRoll,
            stamped.with_counter(DailyCounter::LuckyRolls, (m.daily_lucky_rolls + 1) as i64),
        )
    }
}

/// The daily claim's arithmetic stays within `i64`.
pub open spec fn daily_claim_fits(m: Member) -> bool {
    &&& fits_i64(m.length + DAILY_BONUS_CM_MAX)
    &&& m.daily_cooldown_skips < i64::MAX
    &&& m.daily_streak_savers < i64::MAX
    &&& m.daily_lucky_rolls < i64::MAX
}

impl Member {
    /// Tests `daily_claim_fits`.
    pub fn daily_claim_fits(&self) -> (r: bool)
        ensures
            r == daily_claim_fits(*self),
    {
        self.length <= i64::MAX - DAILY_BONUS_CM_MAX && self.daily_cooldown_skips < i64::MAX
            && self.daily_streak_savers < i64::MAX && self.daily_lucky_rolls < i64::MAX
    }

    /// The daily claim at `now`, for reward roll `roll` and cm bonus roll
    /// `bonus`: once per UTC day (otherwise the seconds to wait), granting the
    /// reward `roll` selects.
    pub fn claim_daily_with(&mut self, now: i64, roll: u32, bonus: i64) -> (r: Result<DailyReward, i64>)
        requires
            in_utc_range(now as int),
            roll < total_daily_weight(),
            DAILY_BONUS_CM_MIN <= bonus <= DAILY_BONUS_CM_MAX,
            daily_claim_fits(*old(self)),
        ensures
            daily_blocked(*old(self), now as int) ==> r == Err::<DailyReward, i64>(
                utc_day_wait(old(self).daily_last_claimed->0 as int, now as int) as i64,
            ) && *final(self) == *old(self),
            !daily_blocked(*old(self), now as int) ==> r == Ok::<DailyReward, i64>(
                spec_daily_grant(*old(self), now as int, roll as int, bonus).0,
            ) && *final(self) == spec_daily_grant(*old(self), now as int, roll as int, bonus).1,
    {
        if let Some(t) = self.daily_last_claimed {
            let wait = utc_day_wait_at(t, now);
            if wait > 0 {
                return Err(wait);
            }
        }
        let c1 = DAILY_BONUS_REWARD_WEIGHT;
        let c2 = c1 + NEXT_GROWTH_BOOST_REWARD_WEIGHT;
        let c3 = c2 + COOLDOWN_SKIP_REWARD_WEIGHT;
        let c4 = c3 + STREAK_SAVER_REWARD_WEIGHT;
        if roll < c1 {
            self.daily_last_claimed = Some(now);
            self.length = self.length + bonus;
            Ok(DailyReward::BonusCm { bonus, new_length: self.length })
        } else if roll < c2 {
            self.daily_last_claimed = Some(now);
            self.daily_growth_boost_percent = NEXT_GROWTH_BOOST_PERCENT;
            Ok(DailyReward::GrowthBoost { percent: NEXT_GROWTH_BOOST_PERCENT })
        } else if roll < c3 {
            self.increment_daily_counter(DailyCounter::CooldownSkips, now);
            Ok(DailyReward::CooldownSkip)
        } else if roll < c4 {
            self.increment_daily_counter(DailyCounter::StreakSavers, now);
            Ok(DailyReward::StreakSaver)
        } else {
            self.increment_daily_counter(DailyCounter::LuckyRolls, now);
            Ok(DailyReward::LuckyRoll)
        }
    }

    /// The daily claim at `now`, with the reward drawn by weight and the cm
    /// bonus drawn from `DAILY_BONUS_CM_MIN..=DAILY_BONUS_CM_MAX`.
    pub fn claim_daily(&mut self, now: i64) -> (r: Result<DailyReward, i64>)
        requires
            in_utc_range(now as int),
            daily_claim_fits(*old(self)),
        ensures
            daily_blocked(*old(self), now as int) ==> r == Err::<DailyReward, i64>(
                utc_day_wait(old(self).daily_last_claimed->0 as int, now as int) as i64,
            ) && *final(self) == *old(self),
            !daily_blocked(*old(self), now as int) ==> exists|roll: int, bonus: i64|
                0 <= roll < total_daily_weight() && DAILY_BONUS_CM_MIN <= bonus
                    <= DAILY_BONUS_CM_MAX && r == Ok::<DailyReward, i64>(
                    spec_daily_grant(*old(self), now as int, roll, bonus).0,
                ) && *final(self) == spec_daily_grant(*old(self), now as int, roll, bonus).1,
    {
        let total: u32 = DAILY_BONUS_REWARD_WEIGHT + NEXT_GROWTH_BOOST_REWARD_WEIGHT
            + COOLDOWN_SKIP_REWARD_WEIGHT + STREAK_SAVER_REWARD_WEIGHT + LUCKY_ROLL_REWARD_WEIGHT;
        let roll = random_index(total as usize) as u32;
        let bonus = random_in_range(DAILY_BONUS_CM_MIN, DAILY_BONUS_CM_MAX);
        let r = self.claim_daily_with(now, roll, bonus);
        proof {
            if !daily_blocked(*old(self), now as int) {
                assert(0 <= roll as int && (roll as int) < total_daily_weight());
            }
        }
        r
    }
}

/// A granted daily reward adds to what the player holds: the cm bonus adds
/// the bonus to the length, a cooldown skip, streak saver or lucky roll adds
/// exactly one to that counter, the growth boost sets the pending boost; the
/// claim is stamped at `now`, and nothing else in the record changes.
pub proof fn lemma_daily_reward_adds_to_holdings(m: Member, now: int, roll: int, bonus: i64)
    requires
        daily_claim_fits(m),
        fits_i64(now),
        0 <= roll < total_daily_weight(),
        DAILY_BONUS_CM_MIN <= bonus <= DAILY_BONUS_CM_MAX,
    ensures
        ({
            let (reward, after) = spec_daily_grant(m, now, roll, bonus);
            &&& after.daily_last_claimed == Some(now as i64)
            &&& after.length == m.length + (if reward is BonusCm { bonus as int } else { 0 })
            &&& after.daily_cooldown_skips == m.daily_cooldown_skips + (if reward is CooldownSkip {
                1int
            } else {
                0
            })
            &&& after.daily_streak_savers == m.daily_streak_savers + (if reward is StreakSaver {
                1int
            } else {
                0
            })
            &&& after.daily_lucky_rolls == m.daily_lucky_rolls + (if reward is LuckyRoll {
                1int
            } else {
                0
            })
            &&& after.daily_growth_boost_percent == (if reward is GrowthBoost {
                NEXT_GROWTH_BOOST_PERCENT
            } else {
                m.daily_growth_boost_percent
            })
            &&& (reward matches DailyReward::BonusCm { bonus: b, new_length } ==> b == bonus
                && new_length == after.length)
            &&& after.pvp_wins == m.pvp_wins
            &&& after.daily_streak == m.daily_streak
            &&& after.last_grow == m.last_grow
        }),
{
}

/// A second daily claim on the same UTC day as a granted one is refused.
pub proof fn lemma_daily_once_per_day(m: Member, now: int, roll: int, bonus: i64, later: int)
    requires
        in_utc_range(now),
        !daily_blocked(m, now),
        crate::time::utc_day(later) == crate::time::utc_day(now),
    ensures
        daily_blocked(spec_daily_grant(m, now, roll, bonus).1, later),
{
    crate::time::lemma_seconds_until_next_utc_day_bounds(later);
    let after = spec_daily_grant(m, now, roll, bonus).1;
    assert(after.daily_last_claimed == Some(now as i64));
}

} // verus!
