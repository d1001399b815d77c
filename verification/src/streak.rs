use vstd::prelude::*;
use crate::clock::{in_day_range, in_utc_range};
use crate::member::{fits_i64, Member};
use crate::time::{utc_day, utc_day_of, utc_day_wait, utc_day_wait_at};

verus! {

/// The growth streak after a /grow on a new UTC day, and whether a streak
/// saver kept it alive.
#[derive(Clone, Copy, Debug, PartialEq, Eq, Structural)]
pub struct GrowthStreakUpdate {
    pub streak: i64,
    pub used_streak_saver: bool,
}

/// How the growth streak moves when the player grows on day `today`:
/// nothing on a day already counted; one more after yesterday; one more
/// after a single missed day when a streak is running and a saver is held
/// (the saver is spent); otherwise it restarts at 1.
pub open spec fn spec_streak_step(m: Member, today: int) -> Option<GrowthStreakUpdate> {
    if m.last_streak_day matches Some(d) && d == today {
        None
    } else if m.last_streak_day matches Some(d) && d == today - 1 {
        Some(GrowthStreakUpdate { streak: (m.daily_streak + 1) as i64, used_streak_saver: false })
    } else if (m.last_streak_day matches Some(d) && d == today - 2) && m.daily_streak > 0
        && m.daily_streak_savers > 0 {
        Some(GrowthStreakUpdate { streak: (m.daily_streak + 1) as i64, used_streak_saver: true })
    } else {
        Some(GrowthStreakUpdate { streak: 1, used_streak_saver: false })
    }
}

/// The record after a streak step `u` on day `today`.
pub open spec fn spec_after_streak_step(m: Member, u: GrowthStreakUpdate, today: int) -> Member {
    Member {
        daily_streak: u.streak,
        best_daily_streak: if u.streak > m.best_daily_streak {
            u.streak
        } else {
            m.best_daily_streak
        },
        last_streak_day: Some(today as i64),
        daily_streak_savers: if u.used_streak_saver {
            (m.daily_streak_savers - 1) as i64
        } else {
            m.daily_streak_savers
        },
        ..m
    }
}

/// A UTC day counts once into the growth streak: after a step on `today` a
/// further /grow that day leaves the streak alone; the step stamps `today`,
/// the best streak is never below the current one afterwards, and a streak
/// grown on the following day is one longer.
pub proof fn lemma_growth_streak_counts_each_day_once(m: Member, today: int)
    requires
        spec_streak_step(m, today) is Some,
        fits_i64(today),
        m.daily_streak < i64::MAX,
        m.daily_streak >= 0,
    ensures
        ({
            let u = spec_streak_step(m, today)->0;
            let after = spec_after_streak_step(m, u, today);
            &&& after.last_streak_day == Some(today as i64)
            &&& spec_streak_step(after, today) is None
            &&& after.best_daily_streak >= after.daily_streak
            &&& u.streak >= 1
            &&& (after.daily_streak < i64::MAX ==> spec_streak_step(after, today + 1) == Some(
                GrowthStreakUpdate { streak: (u.streak + 1) as i64, used_streak_saver: false },
            ))
        }),
{
}

/// A streak saver bridges exactly one missed UTC day: it is spent only when
/// the last counted day is two days before today, a streak is running and a
/// saver is held, and then the streak goes on and one saver is used up. With
/// an older (or no) last counted day the streak restarts at 1 and no saver
/// is touched; after yesterday it simply goes on.
pub proof fn lemma_streak_saver_bridges_one_missed_day(m: Member, today: int)
    requires
        m.daily_streak < i64::MAX,
    ensures
        spec_streak_step(m, today) is Some && spec_streak_step(m, today)->0.used_streak_saver ==> {
            &&& m.last_streak_day == Some((today - 2) as i64)
            &&& m.daily_streak > 0
            &&& m.daily_streak_savers > 0
            &&& spec_streak_step(m, today)->0.streak == m.daily_streak + 1
            &&& spec_after_streak_step(m, spec_streak_step(m, today)->0, today).daily_streak_savers
                == m.daily_streak_savers - 1
        },
        spec_streak_step(m, today) is Some && !spec_streak_step(m, today)->0.used_streak_saver
            ==> spec_after_streak_step(m, spec_streak_step(m, today)->0, today).daily_streak_savers
            == m.daily_streak_savers,
        (m.last_streak_day matches Some(d) && d < today - 2) || m.last_streak_day is None
            ==> spec_streak_step(m, today) == Some(
            GrowthStreakUpdate { streak: 1, used_streak_saver: false },
        ),
        m.last_streak_day == Some((today - 1) as i64) && fits_i64(today - 1) ==> spec_streak_step(
            m,
            today,
        ) == Some(GrowthStreakUpdate { streak: (m.daily_streak + 1) as i64, used_streak_saver: false }),
{
}

/// Cm paid out automatically for a growth streak of `streak` days: the
/// value of 1 + 0.8·ln(streak) rounded to the nearest whole number and kept
/// within 1..=5. That value reaches 2, 3, 4 and 5 at streaks of 2, 7, 23
/// and 80 days.
pub open spec fn spec_streak_reward(streak: int) -> int {
    if streak < 2 {
        1
    } else if streak < 7 {
        2
    } else if streak < 23 {
        3
    } else if streak < 80 {
        4
    } else {
        5
    }
}

/// The automatic streak payout for a streak of `streak` days.
pub fn streak_reward_cm(streak: i64) -> (r: i64)
    ensures
        r == spec_streak_reward(streak as int),
        1 <= r <= 5,
{
    if streak < 2 {
        1
    } else if streak < 7 {
        2
    } else if streak < 23 {
        3
    } else if streak < 80 {
        4
    } else {
        5
    }
}

/// The automatic streak payout never shrinks as the streak grows and stays
/// within 1..=5.
pub proof fn lemma_streak_reward_monotone(a: int, b: int)
    requires
        a <= b,
    ensures
        spec_streak_reward(a) <= spec_streak_reward(b),
        1 <= spec_streak_reward(a) <= 5,
{
}

/// Cm paid out by the streak command for a streak of `streak` days: twice
/// the streak, kept within 2..=30.
pub open spec fn spec_streak_claim_reward(streak: int) -> int {
    if streak * 2 < 2 {
        2
    } else if streak * 2 > 30 {
        30
    } else {
        streak * 2
    }
}

/// The streak command's payout for a streak of `streak` days.
pub fn streak_claim_reward_cm(streak: i64) -> (r: i64)
    requires
        fits_i64(streak * 2),
    ensures
        r == spec_streak_claim_reward(streak as int),
{
    let doubled = streak * 2;
    if doubled < 2 {
        2
    } else if doubled > 30 {
        30
    } else {
        doubled
    }
}

/// Why the streak command paid nothing.
#[derive(Clone, Copy, Debug, PartialEq, Eq, Structural)]
pub enum StreakClaimRefusal {
    /// Today's /grow has not been counted yet.
    GrowFirst,
    /// Today's streak reward was already taken; wait this many seconds.
    AlreadyClaimed { wait_seconds: i64 },
}

/// The streak command's payout and the player's length after it.
#[derive(Clone, Copy, Debug, PartialEq, Eq, Structural)]
pub struct StreakClaim {
    pub reward: i64,
    pub new_length: i64,
}

impl Member {
    /// Counts a /grow on day `today` into the growth streak.
    pub fn update_growth_streak(&mut self, today: i64) -> (r: Option<GrowthStreakUpdate>)
        requires
            old(self).daily_streak < i64::MAX,
            in_day_range(today as int),
        ensures
            r == spec_streak_step(*old(self), today as int),
            *final(self) == (match r {
                Some(u) => spec_after_streak_step(*old(self), u, today as int),
                None => *old(self),
            }),
    {
        let last_date = self.last_streak_day;
        if let Some(d) = last_date {
            if d == today {
                return None;
            }
        }
        let yesterday = match last_date {
            Some(d) => d == today - 1,
            None => false,
        };
        let two_days_ago = match last_date {
            Some(d) => d == today - 2,
            None => false,
        };
        let mut used_streak_saver = false;
        let new_streak = if yesterday {
            self.daily_streak + 1
        } else if two_days_ago && self.daily_streak > 0 && self.daily_streak_savers > 0 {
            used_streak_saver = true;
            self.daily_streak_savers = self.daily_streak_savers - 1;
            self.daily_streak + 1
        } else {
            1
        };
        self.daily_streak = new_streak;
        if new_streak > self.best_daily_streak {
            self.best_daily_streak = new_streak;
        }
        self.last_streak_day = Some(today);
        Some(GrowthStreakUpdate { streak: new_streak, used_streak_saver })
    }

    /// Pays the automatic streak reward for a streak of `streak` days and
    /// stamps the streak claim at `now`; returns the payout.
    pub fn apply_streak_reward(&mut self, streak: i64, now: i64) -> (reward: i64)
        requires
            fits_i64(old(self).length + 5),
        ensures
            reward == spec_streak_reward(streak as int),
            *final(self) == (Member {
                length: (old(self).length + reward) as i64,
                streak_last_claimed: Some(now),
                ..*old(self)
            }),
    {
        let reward = streak_reward_cm(streak);
        self.length = self.length + reward;
        self.streak_last_claimed = Some(now);
        reward
    }

    /// The streak command at `now`: pays twice the streak (2..=30 cm) once
    /// per UTC day, only after that day's /grow was counted.
    pub fn claim_streak_reward(&mut self, now: i64) -> (r: Result<StreakClaim, StreakClaimRefusal>)
        requires
            in_utc_range(now as int),
            fits_i64(old(self).daily_streak * 2),
            fits_i64(old(self).length + 30),
        ensures
            !(old(self).last_streak_day matches Some(d) && d == utc_day(now as int)) ==> r
                == Err::<StreakClaim, StreakClaimRefusal>(StreakClaimRefusal::GrowFirst),
            (old(self).last_streak_day matches Some(d) && d == utc_day(now as int)) ==> match old(
                self,
            ).streak_last_claimed {
                Some(t) if utc_day_wait(t as int, now as int) > 0 => r == Err::<
                    StreakClaim,
                    StreakClaimRefusal,
                >(StreakClaimRefusal::AlreadyClaimed { wait_seconds: utc_day_wait(t as int, now as int) as i64 }),
                _ => r == Ok::<StreakClaim, StreakClaimRefusal>(
                    StreakClaim {
                        reward: spec_streak_claim_reward(old(self).daily_streak as int) as i64,
                        new_length: (old(self).length + spec_streak_claim_reward(
                            old(self).daily_streak as int,
                        )) as i64,
                    },
                ),
            },
            *final(self) == (match r {
                Ok(c) => Member {
                    length: c.new_length,
                    streak_last_claimed: Some(now),
                    ..*old(self)
                },
                Err(_) => *old(self),
            }),
    {
        let today = utc_day_of(now);
        let grown_today = match self.last_streak_day {
            Some(d) => d == today,
            None => false,
        };
        if !grown_today {
            return Err(StreakClaimRefusal::GrowFirst);
        }
        if let Some(t) = self.streak_last_claimed {
            let wait = utc_day_wait_at(t, now);
            if wait > 0 {
                return Err(StreakClaimRefusal::AlreadyClaimed { wait_seconds: wait });
            }
        }
        let reward = streak_claim_reward_cm(self.daily_streak);
        self.length = self.length + reward;
        self.streak_last_claimed = Some(now);
        Ok(StreakClaim { reward, new_length: self.length })
    }
}

} // verus!
