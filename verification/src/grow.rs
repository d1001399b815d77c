use vstd::prelude::*;
use crate::clock::{in_day_range, in_utc_range};
use crate::dice::{random_chance, random_in_range};
use crate::events::{GlobalEvent, JACKPOT_CHANCE_DENOMINATOR, JACKPOT_CHANCE_NUMERATOR, JACKPOT_EXTRA_CM};
use crate::member::{fits_i64, Member};
use crate::prestige::{calculate_prestige_growth_bonus, prestige_growth_bonus, round_div};
use crate::streak::{spec_after_streak_step, spec_streak_reward, spec_streak_step, GrowthStreakUpdate};
use crate::time::{cooldown_left, cooldown_remaining_at, utc_day, utc_day_of, SECONDS_PER_MINUTE};
use crate::viagra::{spec_viagra_active, VIAGRA_BOOST_PERCENT};

verus! {

/// Range of a /grow roll when no event changes it.
pub const BASE_GROWTH_MIN_CM: i64 = 1;
pub const BASE_GROWTH_MAX_CM: i64 = 10;
/// Minutes between two /grow when no event changes it.
pub const DEFAULT_GROW_COOLDOWN_MINUTES: i64 = 60;

/// The random draws of one /grow.
#[derive(Clone, Copy, Debug, PartialEq, Eq, Structural)]
pub struct GrowRolls {
    pub first: i64,
    /// Used only when the grow rolls twice.
    pub second: i64,
    /// Whether a jackpot event's jackpot hit.
    pub jackpot_hit: bool,
}

/// What a /grow did.
#[derive(Clone, Copy, Debug, PartialEq, Eq, Structural)]
pub struct GrowOutcome {
    /// Cm added by the grow itself (boosted roll, prestige bonus, jackpot).
    pub growth: i64,
    /// The roll kept (the better of two when rolling twice).
    pub base_growth: i64,
    pub cooldown_skip_used: bool,
    pub lucky_roll_used: bool,
    pub event_double_roll: bool,
    pub viagra_active: bool,
    pub daily_boost_percent: Option<i64>,
    pub event_bonus_percent: Option<i64>,
    pub prestige_bonus: i64,
    pub jackpot: Option<i64>,
    /// What the grow adds to the community pot of the active event.
    pub community_pot: Option<i64>,
    pub streak: Option<GrowthStreakUpdate>,
    pub streak_reward: Option<i64>,
    pub new_length: i64,
    /// When the next /grow is allowed.
    pub next_grow_at: i64,
}

/// /grow cooldown, in minutes, under `event`.
pub open spec fn grow_cooldown_minutes(event: Option<&GlobalEvent>) -> int {
    match event {
        Some(e) => match e.spec_grow_cooldown_minutes() {
            Some(m) => m as int,
            None => DEFAULT_GROW_COOLDOWN_MINUTES as int,
        },
        None => DEFAULT_GROW_COOLDOWN_MINUTES as int,
    }
}

/// Range of a /grow roll under `event`.
pub open spec fn grow_range(event: Option<&GlobalEvent>) -> (int, int) {
    match event {
        Some(e) => match e.spec_growth_range() {
            Some(r) => (r.0 as int, r.1 as int),
            None => (BASE_GROWTH_MIN_CM as int, BASE_GROWTH_MAX_CM as int),
        },
        None => (BASE_GROWTH_MIN_CM as int, BASE_GROWTH_MAX_CM as int),
    }
}

/// Whether /grow rolls twice under `event`.
pub open spec fn event_rolls_twice(event: Option<&GlobalEvent>) -> bool {
    event matches Some(e) && e.kind == crate::events::EventKind::DoubleGrowthRoll
}

/// The event's growth bonus percent, if it is a growth-bonus event.
pub open spec fn event_bonus(event: Option<&GlobalEvent>) -> Option<i64> {
    match event {
        Some(e) => e.spec_growth_bonus_percent(),
        None => None,
    }
}

/// The growth multiplier of a /grow at `now`, in percent: 100, plus 20 with
/// an active viagra, plus a pending daily boost, plus a growth-bonus event.
pub open spec fn boost_percent(m: Member, event: Option<&GlobalEvent>, now: int) -> int {
    100 + (if spec_viagra_active(m.viagra_active_until, now) {
        VIAGRA_BOOST_PERCENT as int
    } else {
        0
    }) + (match m.spec_daily_boost() {
        Some(p) => p as int,
        None => 0,
    }) + (match event_bonus(event) {
        Some(b) => b as int,
        None => 0,
    })
}

/// A roll under a multiplier of `percent`: rounded to the nearest whole cm
/// when the multiplier exceeds 100%, unchanged otherwise.
pub open spec fn boosted_growth(base: int, percent: int) -> int {
    if percent > 100 {
        round_div(base * percent, 100)
    } else {
        base
    }
}

/// Cm a /grow adds before any streak payout: the boosted roll, the prestige
/// bonus and a jackpot that hit.
pub open spec fn grow_gain(m: Member, event: Option<&GlobalEvent>, now: int, base: int, jackpot_hit: bool) -> int {
    boosted_growth(base, boost_percent(m, event, now)) + prestige_growth_bonus(m.prestige_level as int)
        + (if jackpot_hit && (event matches Some(e) && e.kind == crate::events::EventKind::JackpotGrowth) {
        JACKPOT_EXTRA_CM as int
    } else {
        0
    })
}

/// The outcome and the record after a /grow at `now` with draws `rolls`, or
/// the seconds of cooldown left when it is refused. `is_new` marks a player
/// seen for the first time, who is never on cooldown.
pub open spec fn spec_grow(
    m: Member,
    is_new: bool,
    event: Option<&GlobalEvent>,
    now: int,
    rolls: GrowRolls,
) -> Result<(GrowOutcome, Member), i64> {
    let minutes = grow_cooldown_minutes(event);
    let left = cooldown_left(m.last_grow as int, now, minutes);
    let on_cooldown = !is_new && left > 0;
    if on_cooldown && m.daily_cooldown_skips <= 0 {
        Err(left as i64)
    } else {
        let m1 = if on_cooldown {
            Member { daily_cooldown_skips: (m.daily_cooldown_skips - 1) as i64, ..m }
        } else {
            m
        };
        let lucky = m.daily_lucky_rolls > 0;
        let m2 = if lucky {
            Member { daily_lucky_rolls: (m.daily_lucky_rolls - 1) as i64, ..m1 }
        } else {
            m1
        };
        let twice = event_rolls_twice(event);
        let base: i64 = if lucky || twice {
            if rolls.second > rolls.first {
                rolls.second
            } else {
                rolls.first
            }
        } else {
            rolls.first
        };
        let daily = m.spec_daily_boost();
        let m3 = if daily is Some {
            Member { daily_growth_boost_percent: 0, ..m2 }
        } else {
            m2
        };
        let gain = grow_gain(m, event, now, base as int, rolls.jackpot_hit);
        let m4 = Member {
            length: (m.length + gain) as i64,
            last_grow: now as i64,
            growth_count: (m.growth_count + 1) as i64,
            ..m3
        };
        let today = utc_day(now);
        let su = spec_streak_step(m4, today);
        let m5 = match su {
            Some(u) => {
                let s = spec_after_streak_step(m4, u, today);
                Member {
                    length: (s.length + spec_streak_reward(u.streak as int)) as i64,
                    streak_last_claimed: Some(now as i64),
                    ..s
                }
            },
            None => m4,
        };
        let jackpot = match event {
            Some(e) => e.spec_jackpot_extra_cm(rolls.jackpot_hit),
            None => None,
        };
        let pot = match event {
            Some(e) => e.spec_community_pot_cm_per_grow(),
            None => None,
        };
        Ok(
            (
                GrowOutcome {
                    growth: gain as i64,
                    base_growth: base,
                    cooldown_skip_used: on_cooldown,
                    lucky_roll_used: lucky,
                    event_double_roll: twice,
                    viagra_active: spec_viagra_active(m.viagra_active_until, now),
                    daily_boost_percent: daily,
                    event_bonus_percent: event_bonus(event),
                    prestige_bonus: prestige_growth_bonus(m.prestige_level as int) as i64,
                    jackpot,
                    community_pot: pot,
                    streak: su,
                    streak_reward: match su {
                        Some(u) => Some(spec_streak_reward(u.streak as int) as i64),
                        None => None,
                    },
                    new_length: m5.length,
                    next_grow_at: (now + minutes * SECONDS_PER_MINUTE) as i64,
                },
                m5,
            ),
        )
    }
}

/// The arithmetic of a /grow at `now` stays within `i64` whatever it rolls.
pub open spec fn grow_fits(m: Member, event: Option<&GlobalEvent>, now: int) -> bool {
    let worst = grow_gain(m, event, now, grow_range(event).1, true);
    &&& fits_i64(worst)
    &&& fits_i64(m.length + worst + 5)
    &&& m.growth_count < i64::MAX
    &&& m.daily_streak < i64::MAX
}

/// What `grow` and `grow_with_rolls` need of their inputs.
pub open spec fn grow_ready(m: Member, event: Option<&GlobalEvent>, now: int) -> bool {
    &&& m.wf()
    &&& in_utc_range(now)
    &&& (event matches Some(e) ==> e.wf())
    &&& grow_fits(m, event, now)
}

proof fn lemma_round_div_monotone(a: int, b: int)
    requires
        0 <= a <= b,
    ensures
        0 <= round_div(a, 100) <= round_div(b, 100),
{
    assert((2 * a + 100) / 200 <= (2 * b + 100) / 200) by (nonlinear_arith)
        requires
            0 <= a <= b,
    ;
    assert(0 <= (2 * a + 100) / 200) by (nonlinear_arith)
        requires
            0 <= a,
    ;
}

/// The boosted roll grows with the roll and is never below it.
proof fn lemma_boosted_growth_bounds(base: int, top: int, percent: int)
    requires
        1 <= base <= top,
    ensures
        base <= boosted_growth(base, percent) <= boosted_growth(top, percent),
{
    if percent > 100 {
        assert(base * 100 <= base * percent && base * percent <= top * percent) by (nonlinear_arith)
            requires
                1 <= base <= top,
                percent > 100,
        ;
        lemma_round_div_monotone(base * 100, base * percent);
        lemma_round_div_monotone(base * percent, top * percent);
        assert(round_div(base * 100, 100) == base) by (nonlinear_arith)
            requires
                base >= 1,
                round_div(base * 100, 100) == (2 * (base * 100) + 100) / 200,
        ;
    }
}

fn boosted(base: i64, percent: i128) -> (r: i128)
    requires
        1 <= base <= 10,
        -0x4_0000_0000_0000_0000 <= percent <= 0x4_0000_0000_0000_0000,
    ensures
        r == boosted_growth(base as int, percent as int),
        1 <= r <= 0x4_0000_0000_0000_0000,
{
    if percent > 100 {
        assert(100 <= base * percent <= 10 * 0x4_0000_0000_0000_0000) by (nonlinear_arith)
            requires
                1 <= base <= 10,
                100 < percent <= 0x4_0000_0000_0000_0000,
        ;
        let x: i128 = base as i128 * percent;
        assert(1 <= (2 * x + 100) / 200 <= 0x4_0000_0000_0000_0000) by (nonlinear_arith)
            requires
                100 <= x <= 10 * 0x4_0000_0000_0000_0000,
        ;
        (2 * x + 100) / 200
    } else {
        base as i128
    }
}

impl Member {
    /// Tests `grow_fits`.
    pub fn grow_fits(&self, event: Option<&GlobalEvent>, now: i64) -> (r: bool)
        requires
            in_utc_range(now as int),
        ensures
            r == grow_fits(*self, event, now as int),
    {
        let top = match event {
            Some(e) => match e.growth_range() {
                Some(range) => range.1,
                None => BASE_GROWTH_MAX_CM,
            },
            None => BASE_GROWTH_MAX_CM,
        };
        let worst = self.grow_gain_i128(event, now, top, true);
        let max = i64::MAX as i128;
        let min = i64::MIN as i128;
        min <= worst && worst <= max && self.length as i128 + worst + 5 <= max
            && min <= self.length as i128 + worst + 5 && self.growth_count < i64::MAX
            && self.daily_streak < i64::MAX
    }

    fn grow_gain_i128(&self, event: Option<&GlobalEvent>, now: i64, base: i64, jackpot_hit: bool) -> (r: i128)
        requires
            1 <= base <= 10,
        ensures
            r == grow_gain(*self, event, now as int, base as int, jackpot_hit),
    {
        let viagra: i128 = if self.viagra_active_at(now) {
            VIAGRA_BOOST_PERCENT as i128
        } else {
            0
        };
        let daily: i128 = if self.daily_growth_boost_percent > 0 {
            self.daily_growth_boost_percent as i128
        } else {
            0
        };
        let bonus: i128 = match event {
            Some(e) => match e.growth_bonus_percent() {
                Some(b) => b as i128,
                None => 0,
            },
            None => 0,
        };
        let percent: i128 = 100 + viagra + daily + bonus;
        let boosted_roll = boosted(base, percent);
        let prestige = calculate_prestige_growth_bonus(self.prestige_level) as i128;
        let jackpot: i128 = match event {
            Some(e) => match e.jackpot_extra_cm_with(jackpot_hit) {
                Some(j) => j as i128,
                None => 0,
            },
            None => 0,
        };
        boosted_roll + prestige + jackpot
    }

    /// One /grow at `now` with the draws `rolls`. Refused, with the seconds
    /// of cooldown left, while the cooldown (60 minutes, or what the event
    /// sets) runs and no cooldown skip is held; otherwise a held skip is
    /// used, a held lucky roll makes it roll twice and keep the better roll
    /// (as a double-roll event does), the roll is multiplied by the boosts
    /// and the prestige bonus and any jackpot are added, the grow is stamped,
    /// and the growth streak of the UTC day advances and pays out.
    pub fn grow_with_rolls(
        &mut self,
        is_new: bool,
        event: Option<&GlobalEvent>,
        now: i64,
        rolls: GrowRolls,
    ) -> (r: Result<GrowOutcome, i64>)
        requires
            grow_ready(*old(self), event, now as int),
            grow_range(event).0 <= rolls.first <= grow_range(event).1,
            grow_range(event).0 <= rolls.second <= grow_range(event).1,
        ensures
            match spec_grow(*old(self), is_new, event, now as int, rolls) {
                Ok((o, m)) => r == Ok::<GrowOutcome, i64>(o) && *final(self) == m,
                Err(left) => r == Err::<GrowOutcome, i64>(left) && *final(self) == *old(self),
            },
    {
        let ghost m0 = *self;
        let minutes = match event {
            Some(e) => match e.grow_cooldown_minutes() {
                Some(m) => m,
                None => DEFAULT_GROW_COOLDOWN_MINUTES,
            },
            None => DEFAULT_GROW_COOLDOWN_MINUTES,
        };
        assert(crate::time::span_in_range(minutes * SECONDS_PER_MINUTE));
        let mut cooldown_skip_used = false;
        if !is_new {
            let left = cooldown_remaining_at(self.last_grow, now, minutes);
            if left != 0 {
                if self.consume_cooldown_skip() {
                    cooldown_skip_used = true;
                } else {
                    return Err(left);
                }
            }
        }
        let lucky = self.consume_lucky_roll();
        let twice = match event {
            Some(e) => e.rolls_growth_twice(),
            None => false,
        };
        let base = if lucky || twice {
            if rolls.second > rolls.first {
                rolls.second
            } else {
                rolls.first
            }
        } else {
            rolls.first
        };
        let viagra_active = self.viagra_active_at(now);
        let gain_wide = self.grow_gain_i128(event, now, base, rolls.jackpot_hit);
        let daily = self.consume_daily_growth_boost_percent();
        let prestige_bonus = calculate_prestige_growth_bonus(self.prestige_level);
        let top = match event {
            Some(e) => match e.growth_range() {
                Some(range) => range.1,
                None => BASE_GROWTH_MAX_CM,
            },
            None => BASE_GROWTH_MAX_CM,
        };
        proof {
            lemma_boosted_growth_bounds(base as int, top as int, boost_percent(m0, event, now as int));
        }
        let growth = gain_wide as i64;
        self.length = self.length + growth;
        self.last_grow = now;
        self.growth_count = self.growth_count + 1;
        let streak = self.update_growth_streak(utc_day_of(now));
        let streak_reward = match streak {
            Some(u) => Some(self.apply_streak_reward(u.streak, now)),
            None => None,
        };
        let jackpot = match event {
            Some(e) => e.jackpot_extra_cm_with(rolls.jackpot_hit),
            None => None,
        };
        let community_pot = match event {
            Some(e) => e.community_pot_cm_per_grow(),
            None => None,
        };
        let event_bonus_percent = match event {
            Some(e) => e.growth_bonus_percent(),
            None => None,
        };
        Ok(GrowOutcome {
            growth,
            base_growth: base,
            cooldown_skip_used,
            lucky_roll_used: lucky,
            event_double_roll: twice,
            viagra_active,
            daily_boost_percent: daily,
            event_bonus_percent,
            prestige_bonus,
            jackpot,
            community_pot,
            streak,
            streak_reward,
            new_length: self.length,
            next_grow_at: now + minutes * SECONDS_PER_MINUTE,
        })
    }

    /// One /grow at `now` with the rolls drawn uniformly from the range in
    /// force and the jackpot drawn with its chance during a jackpot event.
    pub fn grow(&mut self, is_new: bool, event: Option<&GlobalEvent>, now: i64) -> (r: Result<GrowOutcome, i64>)
        requires
            grow_ready(*old(self), event, now as int),
        ensures
            exists|rolls: GrowRolls|
                #![trigger spec_grow(*old(self), is_new, event, now as int, rolls)]
                grow_range(event).0 <= rolls.first <= grow_range(event).1 && grow_range(event).0
                    <= rolls.second <= grow_range(event).1 && match spec_grow(
                    *old(self),
                    is_new,
                    event,
                    now as int,
                    rolls,
                ) {
                    Ok((o, m)) => r == Ok::<GrowOutcome, i64>(o) && *final(self) == m,
                    Err(left) => r == Err::<GrowOutcome, i64>(left) && *final(self) == *old(self),
                },
    {
        let (low, high) = match event {
            Some(e) => match e.growth_range() {
                Some(range) => range,
                None => (BASE_GROWTH_MIN_CM, BASE_GROWTH_MAX_CM),
            },
            None => (BASE_GROWTH_MIN_CM, BASE_GROWTH_MAX_CM),
        };
        let first = random_in_range(low, high);
        let second = random_in_range(low, high);
        let jackpot_hit = match event {
            Some(e) => e.kind == crate::events::EventKind::JackpotGrowth && random_chance(
                JACKPOT_CHANCE_NUMERATOR,
                JACKPOT_CHANCE_DENOMINATOR,
            ),
            None => false,
        };
        let rolls = GrowRolls { first, second, jackpot_hit };
        self.grow_with_rolls(is_new, event, now, rolls)
    }
}

/// Draws a /grow roll from `low..=high`.
pub fn roll_growth(low: i64, high: i64) -> (r: i64)
    requires
        low <= high,
    ensures
        low <= r <= high,
{
    random_in_range(low, high)
}

/// Every accepted /grow adds at least 1 cm, before any streak payout.
pub proof fn lemma_grow_always_positive(
    m: Member,
    is_new: bool,
    event: Option<&GlobalEvent>,
    now: int,
    rolls: GrowRolls,
)
    requires
        grow_fits(m, event, now),
        grow_range(event).0 <= rolls.first <= grow_range(event).1,
        grow_range(event).0 <= rolls.second <= grow_range(event).1,
    ensures
        spec_grow(m, is_new, event, now, rolls) matches Ok((o, _)) ==> o.growth >= 1,
{
    if let Ok((o, _)) = spec_grow(m, is_new, event, now, rolls) {
        let lucky = m.daily_lucky_rolls > 0;
        let twice = event_rolls_twice(event);
        let base: i64 = if lucky || twice {
            if rolls.second > rolls.first {
                rolls.second
            } else {
                rolls.first
            }
        } else {
            rolls.first
        };
        lemma_boosted_growth_bounds(base as int, grow_range(event).1, boost_percent(m, event, now));
        let level = m.prestige_level as int;
        assert(prestige_growth_bonus(level) >= 0) by {
            crate::prestige::lemma_prestige_growth_bonus_nonnegative(level);
        }
    }
}

/// A /grow that rolls twice (a held lucky roll, or an event that rolls
/// twice) keeps the better of its two rolls; otherwise it keeps the first.
/// A held lucky roll is spent by the grow, and only one.
pub proof fn lemma_grow_keeps_the_better_roll(
    m: Member,
    is_new: bool,
    event: Option<&GlobalEvent>,
    now: int,
    rolls: GrowRolls,
)
    requires
        spec_grow(m, is_new, event, now, rolls) is Ok,
    ensures
        ({
            let (o, after) = spec_grow(m, is_new, event, now, rolls)->Ok_0;
            &&& o.lucky_roll_used == (m.daily_lucky_rolls > 0)
            &&& o.event_double_roll == (event matches Some(e) && e.kind
                == crate::events::EventKind::DoubleGrowthRoll)
            &&& (m.daily_lucky_rolls > 0 || o.event_double_roll) ==> {
                &&& o.base_growth >= rolls.first
                &&& o.base_growth >= rolls.second
                &&& (o.base_growth == rolls.first || o.base_growth == rolls.second)
            }
            &&& !(m.daily_lucky_rolls > 0 || o.event_double_roll) ==> o.base_growth == rolls.first
            &&& after.daily_lucky_rolls == (if m.daily_lucky_rolls > 0 {
                m.daily_lucky_rolls - 1
            } else {
                m.daily_lucky_rolls as int
            })
        }),
{
}

/// The record after a /grow (unchanged when refused).
pub open spec fn record_after_grow(
    m: Member,
    is_new: bool,
    event: Option<&GlobalEvent>,
    now: int,
    rolls: GrowRolls,
) -> Member {
    match spec_grow(m, is_new, event, now, rolls) {
        Ok(done) => done.1,
        Err(_) => m,
    }
}

/// After an accepted /grow at `now`, a player holding no cooldown skip is
/// refused every further /grow until the cooldown in force has passed, and
/// told how many seconds of it are left.
pub proof fn lemma_grow_cooldown_holds(
    m: Member,
    is_new: bool,
    event: Option<&GlobalEvent>,
    now: int,
    rolls: GrowRolls,
    later: int,
    rolls2: GrowRolls,
)
    requires
        in_utc_range(now),
        event matches Some(e) ==> e.wf(),
        spec_grow(m, is_new, event, now, rolls) is Ok,
        record_after_grow(m, is_new, event, now, rolls).daily_cooldown_skips <= 0,
        now <= later < now + grow_cooldown_minutes(event) * SECONDS_PER_MINUTE,
    ensures
        spec_grow(record_after_grow(m, is_new, event, now, rolls), false, event, later, rolls2) matches Err(left)
            && left == now + grow_cooldown_minutes(event) * SECONDS_PER_MINUTE - later,
{
}

/// How a /grow's result is announced, by the cm it added.
#[derive(Clone, Copy, Debug, PartialEq, Eq, Structural)]
pub enum GrowthTier {
    /// More than 10 cm.
    Incredible,
    /// More than 7 cm.
    Impressive,
    /// More than 3 cm.
    Solid,
    /// 3 cm or less.
    Modest,
}

pub open spec fn spec_growth_tier(growth: int) -> GrowthTier {
    if growth > 10 {
        GrowthTier::Incredible
    } else if growth > 7 {
        GrowthTier::Impressive
    } else if growth > 3 {
        GrowthTier::Solid
    } else {
        GrowthTier::Modest
    }
}

/// The announcement tier of a /grow that added `growth` cm.
pub fn growth_tier(growth: i64) -> (r: GrowthTier)
    ensures
        r == spec_growth_tier(growth as int),
{
    if growth > 10 {
        GrowthTier::Incredible
    } else if growth > 7 {
        GrowthTier::Impressive
    } else if growth > 3 {
        GrowthTier::Solid
    } else {
        GrowthTier::Modest
    }
}

impl GrowthTier {
    pub open spec fn spec_title(self) -> Seq<char> {
        match self {
            GrowthTier::Incredible => "🚀 INCREDIBLE GROWTH!"@,
            GrowthTier::Impressive => "🔥 Impressive Growth!"@,
            GrowthTier::Solid => "🌱 Solid Growth"@,
            GrowthTier::Modest => "📏 Modest Growth"@,
        }
    }

    /// The title of the announcement.
    pub fn title(self) -> (r: &'static str)
        ensures
            r@ == self.spec_title(),
    {
        match self {
            GrowthTier::Incredible => "🚀 INCREDIBLE GROWTH!",
            GrowthTier::Impressive => "🔥 Impressive Growth!",
            GrowthTier::Solid => "🌱 Solid Growth",
            GrowthTier::Modest => "📏 Modest Growth",
        }
    }

    /// The embed color of the announcement, greener for bigger growth.
    pub fn color(self) -> (r: u32)
        ensures
            r == (match self {
                GrowthTier::Incredible => 0x00FF00u32,
                GrowthTier::Impressive => 0x33FF33u32,
                GrowthTier::Solid => 0x66FF66u32,
                GrowthTier::Modest => 0x99FF99u32,
            }),
    {
        match self {
            GrowthTier::Incredible => 0x00FF00,
            GrowthTier::Impressive => 0x33FF33,
            GrowthTier::Solid => 0x66FF66,
            GrowthTier::Modest => 0x99FF99,
        }
    }
}

} // verus!
