use vstd::prelude::*;
use vstd::string::*;
use crate::clock::{in_utc_range, now_timestamp, parse_db_datetime, parsed_db_datetime};
use crate::dice::{random_chance, random_index};
use crate::text::{append_decimal, discord_timestamp, int_decimal, same_text, spec_discord_timestamp, text_with_number};
use crate::time::{span_in_range, SECONDS_PER_HOUR};

verus! {

/// How long a global event lasts once started.
pub const EVENT_DURATION_HOURS: i64 = 4;
/// Chance, at each check, that a new event starts when none is active.
pub const EVENT_ACTIVATION_CHANCE_NUMERATOR: u32 = 1;
pub const EVENT_ACTIVATION_CHANCE_DENOMINATOR: u32 = 2;

pub const GROWTH_BONUS_EVENT_WEIGHT: u32 = 1;
pub const LOWER_COOLDOWN_EVENT_WEIGHT: u32 = 1;
pub const LONGER_VIAGRA_EVENT_WEIGHT: u32 = 1;
pub const DOUBLE_GROWTH_ROLL_EVENT_WEIGHT: u32 = 1;
pub const COMPACT_GROWTH_EVENT_WEIGHT: u32 = 1;
pub const JACKPOT_GROWTH_EVENT_WEIGHT: u32 = 1;
pub const COMMUNITY_POT_EVENT_WEIGHT: u32 = 1;

pub const GROWTH_BONUS_PERCENT: i64 = 25;
pub const LOWER_COOLDOWN_MINUTES: i64 = 30;
pub const LONGER_VIAGRA_HOURS: i64 = 12;
pub const DOUBLE_GROWTH_ROLL_BONUS: i64 = 2;
pub const COMPACT_GROWTH_MIN_CM: i64 = 1;
pub const COMPACT_GROWTH_MAX_CM: i64 = 5;
pub const COMPACT_GROWTH_COOLDOWN_MINUTES: i64 = 15;
pub const JACKPOT_EXTRA_CM: i64 = 25;
pub const JACKPOT_CHANCE_NUMERATOR: u32 = 1;
pub const JACKPOT_CHANCE_DENOMINATOR: u32 = 10;
pub const COMMUNITY_POT_CM_PER_GROW: i64 = 1;

/// The kinds of global event.
#[derive(Clone, Copy, Debug, PartialEq, Eq, Structural)]
pub enum EventKind {
    GrowthBonus,
    LowerCooldown,
    LongerViagra,
    DoubleGrowthRoll,
    CompactGrowth,
    JackpotGrowth,
    CommunityPot,
}

/// The stored name of an event kind.
pub open spec fn spec_kind_name(k: EventKind) -> Seq<char> {
    match k {
        EventKind::GrowthBonus => "growth_bonus"@,
        EventKind::LowerCooldown => "lower_cooldown"@,
        EventKind::LongerViagra => "longer_viagra"@,
        EventKind::DoubleGrowthRoll => "double_growth_roll"@,
        EventKind::CompactGrowth => "compact_growth"@,
        EventKind::JackpotGrowth => "jackpot_growth"@,
        EventKind::CommunityPot => "community_pot"@,
    }
}

/// The event kind a stored name denotes, if any.
pub open spec fn spec_kind_from_name(s: Seq<char>) -> Option<EventKind> {
    if s == "growth_bonus"@ {
        Some(EventKind::GrowthBonus)
    } else if s == "lower_cooldown"@ {
        Some(EventKind::LowerCooldown)
    } else if s == "longer_viagra"@ {
        Some(EventKind::LongerViagra)
    } else if s == "double_growth_roll"@ {
        Some(EventKind::DoubleGrowthRoll)
    } else if s == "compact_growth"@ {
        Some(EventKind::CompactGrowth)
    } else if s == "jackpot_growth"@ {
        Some(EventKind::JackpotGrowth)
    } else if s == "community_pot"@ {
        Some(EventKind::CommunityPot)
    } else {
        None
    }
}

impl EventKind {
    /// The name under which the kind is stored.
    pub fn as_str(self) -> (r: &'static str)
        ensures
            r@ == spec_kind_name(self),
    {
        match self {
            EventKind::GrowthBonus => "growth_bonus",
            EventKind::LowerCooldown => "lower_cooldown",
            EventKind::LongerViagra => "longer_viagra",
            EventKind::DoubleGrowthRoll => "double_growth_roll",
            EventKind::CompactGrowth => "compact_growth",
            EventKind::JackpotGrowth => "jackpot_growth",
            EventKind::CommunityPot => "community_pot",
        }
    }

    /// The kind stored under `value`, or `None` for an unknown name.
    pub fn from_str(value: &str) -> (r: Option<EventKind>)
        ensures
            r == spec_kind_from_name(value@),
    {
        if same_text(value, "growth_bonus") {
            Some(EventKind::GrowthBonus)
        } else if same_text(value, "lower_cooldown") {
            Some(EventKind::LowerCooldown)
        } else if same_text(value, "longer_viagra") {
            Some(EventKind::LongerViagra)
        } else if same_text(value, "double_growth_roll") {
            Some(EventKind::DoubleGrowthRoll)
        } else if same_text(value, "compact_growth") {
            Some(EventKind::CompactGrowth)
        } else if same_text(value, "jackpot_growth") {
            Some(EventKind::JackpotGrowth)
        } else if same_text(value, "community_pot") {
            Some(EventKind::CommunityPot)
        } else {
            None
        }
    }
}

/// Reading back the stored name of a kind gives the kind again, and a name
/// that reads as a kind is that kind's stored name.
pub proof fn lemma_kind_name_round_trip(k: EventKind, s: Seq<char>)
    ensures
        spec_kind_from_name(spec_kind_name(k)) == Some(k),
        spec_kind_from_name(s) == Some(k) ==> s == spec_kind_name(k),
{
    reveal_strlit("growth_bonus");
    reveal_strlit("lower_cooldown");
    reveal_strlit("longer_viagra");
    reveal_strlit("double_growth_roll");
    reveal_strlit("compact_growth");
    reveal_strlit("jackpot_growth");
    reveal_strlit("community_pot");
    assert("lower_cooldown"@[0] != "growth_bonus"@[0]);
    assert("longer_viagra"@[0] != "growth_bonus"@[0]);
    assert("longer_viagra"@[2] != "lower_cooldown"@[2]);
    assert("double_growth_roll"@[0] != "growth_bonus"@[0]);
    assert("double_growth_roll"@[0] != "lower_cooldown"@[0]);
    assert("double_growth_roll"@[0] != "longer_viagra"@[0]);
    assert("compact_growth"@[0] != "growth_bonus"@[0]);
    assert("compact_growth"@[0] != "lower_cooldown"@[0]);
    assert("compact_growth"@[0] != "longer_viagra"@[0]);
    assert("compact_growth"@[0] != "double_growth_roll"@[0]);
    assert("jackpot_growth"@[0] != "growth_bonus"@[0]);
    assert("jackpot_growth"@[0] != "lower_cooldown"@[0]);
    assert("jackpot_growth"@[0] != "longer_viagra"@[0]);
    assert("jackpot_growth"@[0] != "double_growth_roll"@[0]);
    assert("jackpot_growth"@[0] != "compact_growth"@[0]);
    assert("community_pot"@[0] != "growth_bonus"@[0]);
    assert("community_pot"@[0] != "lower_cooldown"@[0]);
    assert("community_pot"@[0] != "longer_viagra"@[0]);
    assert("community_pot"@[0] != "double_growth_roll"@[0]);
    assert("community_pot"@[3] != "compact_growth"@[3]);
    assert("community_pot"@[0] != "jackpot_growth"@[0]);
}

/// A global event, active until `ends_at` (Unix time).
#[derive(Clone, Debug)]
pub struct GlobalEvent {
    pub id: i64,
    pub kind: EventKind,
    pub name: String,
    pub description: String,
    pub bonus_value: i64,
    pub ends_at: i64,
}

/// Cooldown of /grow, in minutes, that an event imposes.
pub open spec fn spec_event_cooldown_minutes(kind: EventKind, bonus_value: i64) -> Option<i64> {
    match kind {
        EventKind::LowerCooldown => Some(bonus_value),
        EventKind::CompactGrowth => Some(COMPACT_GROWTH_COOLDOWN_MINUTES),
        _ => None,
    }
}

impl GlobalEvent {
    /// The event's numbers can be turned into time spans: its bonus value,
    /// read as hours (and so also as minutes), is a span the date-time
    /// arithmetic accepts.
    pub open spec fn wf(&self) -> bool {
        span_in_range(self.bonus_value * SECONDS_PER_HOUR)
    }

    /// Tests `wf`.
    pub fn within_limits(&self) -> (r: bool)
        ensures
            r == self.wf(),
    {
        -9223372036854775 / 3600 <= self.bonus_value && self.bonus_value <= 9223372036854775 / 3600
    }

    /// The /grow bonus, in percent, of a growth-bonus event.
    pub open spec fn spec_growth_bonus_percent(&self) -> Option<i64> {
        if self.kind == EventKind::GrowthBonus {
            Some(self.bonus_value)
        } else {
            None
        }
    }

    /// The /grow bonus, in percent, of a growth-bonus event (`None` for other kinds).
    pub fn growth_bonus_percent(&self) -> (r: Option<i64>)
        ensures
            r == self.spec_growth_bonus_percent(),
    {
        if self.kind == EventKind::GrowthBonus {
            Some(self.bonus_value)
        } else {
            None
        }
    }

    pub open spec fn spec_grow_cooldown_minutes(&self) -> Option<i64> {
        spec_event_cooldown_minutes(self.kind, self.bonus_value)
    }

    /// The /grow cooldown, in minutes, while the event runs (`None`: unchanged).
    pub fn grow_cooldown_minutes(&self) -> (r: Option<i64>)
        ensures
            r == self.spec_grow_cooldown_minutes(),
    {
        match self.kind {
            EventKind::LowerCooldown => Some(self.bonus_value),
            EventKind::CompactGrowth => Some(COMPACT_GROWTH_COOLDOWN_MINUTES),
            _ => None,
        }
    }

    pub open spec fn spec_viagra_duration_hours(&self) -> Option<i64> {
        if self.kind == EventKind::LongerViagra {
            Some(self.bonus_value)
        } else {
            None
        }
    }

    /// How long a viagra taken during the event lasts, in hours (`None`: unchanged).
    pub fn viagra_duration_hours(&self) -> (r: Option<i64>)
        ensures
            r == self.spec_viagra_duration_hours(),
    {
        if self.kind == EventKind::LongerViagra {
            Some(self.bonus_value)
        } else {
            None
        }
    }

    pub open spec fn spec_growth_range(&self) -> Option<(i64, i64)> {
        if self.kind == EventKind::CompactGrowth {
            Some((COMPACT_GROWTH_MIN_CM, COMPACT_GROWTH_MAX_CM))
        } else {
            None
        }
    }

    /// The range /grow draws from while the event runs (`None`: unchanged).
    pub fn growth_range(&self) -> (r: Option<(i64, i64)>)
        ensures
            r == self.spec_growth_range(),
    {
        if self.kind == EventKind::CompactGrowth {
            Some((COMPACT_GROWTH_MIN_CM, COMPACT_GROWTH_MAX_CM))
        } else {
            None
        }
    }

    /// Whether /grow rolls twice and keeps the better roll.
    pub fn rolls_growth_twice(&self) -> (r: bool)
        ensures
            r == (self.kind == EventKind::DoubleGrowthRoll),
    {
        self.kind == EventKind::DoubleGrowthRoll
    }

    pub open spec fn spec_jackpot_extra_cm(&self, hit: bool) -> Option<i64> {
        if self.kind == EventKind::JackpotGrowth && hit {
            Some(JACKPOT_EXTRA_CM)
        } else {
            None
        }
    }

    /// The jackpot added to a /grow, given whether the jackpot draw hit.
    pub fn jackpot_extra_cm_with(&self, hit: bool) -> (r: Option<i64>)
        ensures
            r == self.spec_jackpot_extra_cm(hit),
    {
        if self.kind == EventKind::JackpotGrowth && hit {
            Some(JACKPOT_EXTRA_CM)
        } else {
            None
        }
    }

    /// The jackpot of a /grow: during a jackpot event, `JACKPOT_EXTRA_CM` with
    /// chance `JACKPOT_CHANCE_NUMERATOR / JACKPOT_CHANCE_DENOMINATOR`; never
    /// during other events.
    pub fn jackpot_extra_cm(&self) -> (r: Option<i64>)
        ensures
            self.kind != EventKind::JackpotGrowth ==> r is None,
            r matches Some(x) ==> x == JACKPOT_EXTRA_CM,
    {
        if self.kind == EventKind::JackpotGrowth {
            let hit = random_chance(JACKPOT_CHANCE_NUMERATOR, JACKPOT_CHANCE_DENOMINATOR);
            self.jackpot_extra_cm_with(hit)
        } else {
            None
        }
    }

    pub open spec fn spec_community_pot_cm_per_grow(&self) -> Option<i64> {
        if self.kind == EventKind::CommunityPot {
            Some(COMMUNITY_POT_CM_PER_GROW)
        } else {
            None
        }
    }

    /// What each /grow adds to the community pot (`None`: no pot).
    pub fn community_pot_cm_per_grow(&self) -> (r: Option<i64>)
        ensures
            r == self.spec_community_pot_cm_per_grow(),
    {
        if self.kind == EventKind::CommunityPot {
            Some(COMMUNITY_POT_CM_PER_GROW)
        } else {
            None
        }
    }

    /// The event's end as a Discord relative timestamp.
    pub fn ends_discord_timestamp(&self) -> (r: String)
        ensures
            r@ == spec_discord_timestamp(self.ends_at as int),
    {
        discord_timestamp(self.ends_at)
    }
}

/// Sum of the weights of all event kinds.
pub open spec fn total_event_weight() -> int {
    GROWTH_BONUS_EVENT_WEIGHT + LOWER_COOLDOWN_EVENT_WEIGHT + LONGER_VIAGRA_EVENT_WEIGHT
        + DOUBLE_GROWTH_ROLL_EVENT_WEIGHT + COMPACT_GROWTH_EVENT_WEIGHT
        + JACKPOT_GROWTH_EVENT_WEIGHT + COMMUNITY_POT_EVENT_WEIGHT
}

/// The kind a weighted roll below `total_event_weight()` selects: the kinds
/// take consecutive stretches of the roll range, each as long as its weight,
/// in declaration order.
pub open spec fn kind_for_roll(roll: int) -> EventKind {
    let c1 = GROWTH_BONUS_EVENT_WEIGHT as int;
    let c2 = c1 + LOWER_COOLDOWN_EVENT_WEIGHT;
    let c3 = c2 + LONGER_VIAGRA_EVENT_WEIGHT;
    let c4 = c3 + DOUBLE_GROWTH_ROLL_EVENT_WEIGHT;
    let c5 = c4 + COMPACT_GROWTH_EVENT_WEIGHT;
    let c6 = c5 + JACKPOT_GROWTH_EVENT_WEIGHT;
    if roll < c1 {
        EventKind::GrowthBonus
    } else if roll < c2 {
        EventKind::LowerCooldown
    } else if roll < c3 {
        EventKind::LongerViagra
    } else if roll < c4 {
        EventKind::DoubleGrowthRoll
    } else if roll < c5 {
        EventKind::CompactGrowth
    } else if roll < c6 {
        EventKind::JackpotGrowth
    } else {
        EventKind::CommunityPot
    }
}

/// The display name of a rolled event of kind `k`.
pub open spec fn event_name(k: EventKind) -> Seq<char> {
    match k {
        EventKind::GrowthBonus => "Growth Surge"@,
        EventKind::LowerCooldown => "Fast Hands"@,
        EventKind::LongerViagra => "Extended Pharmacy Hours"@,
        EventKind::DoubleGrowthRoll => "Double Trouble"@,
        EventKind::CompactGrowth => "Quick Sprouts"@,
        EventKind::JackpotGrowth => "Jackpot Window"@,
        EventKind::CommunityPot => "Community Pump"@,
    }
}

/// The description of a rolled event of kind `k`.
pub open spec fn event_description(k: EventKind) -> Seq<char> {
    match k {
        EventKind::GrowthBonus => "All /grow results get **+"@ + int_decimal(GROWTH_BONUS_PERCENT as int)
            + "% growth** during this bonus window."@,
        EventKind::LowerCooldown => "The /grow cooldown is lowered to **"@ + int_decimal(
            LOWER_COOLDOWN_MINUTES as int,
        ) + " minutes** while this event is active."@,
        EventKind::LongerViagra => "New /viagra activations last **"@ + int_decimal(
            LONGER_VIAGRA_HOURS as int,
        ) + " hours** during this event."@,
        EventKind::DoubleGrowthRoll => "Every /grow rolls twice and keeps the better result."@,
        EventKind::CompactGrowth => "/grow becomes smaller but faster: **"@ + int_decimal(
            COMPACT_GROWTH_MIN_CM as int,
        ) + "-"@ + int_decimal(COMPACT_GROWTH_MAX_CM as int) + " cm** every **"@ + int_decimal(
            COMPACT_GROWTH_COOLDOWN_MINUTES as int,
        ) + " minutes**."@,
        EventKind::JackpotGrowth => "Every /grow has a **"@ + int_decimal(
            JACKPOT_CHANCE_NUMERATOR as int,
        ) + "/"@ + int_decimal(JACKPOT_CHANCE_DENOMINATOR as int)
            + "** chance to hit an extra **+"@ + int_decimal(JACKPOT_EXTRA_CM as int)
            + " cm** jackpot."@,
        EventKind::CommunityPot => "Every /grow adds **+"@ + int_decimal(
            COMMUNITY_POT_CM_PER_GROW as int,
        )
            + " cm** to a global pot. The pot is automatically awarded to a random participant after the event ends."@,
    }
}

/// The bonus value of a rolled event of kind `k`.
pub open spec fn event_bonus(k: EventKind) -> i64 {
    match k {
        EventKind::GrowthBonus => GROWTH_BONUS_PERCENT,
        EventKind::LowerCooldown => LOWER_COOLDOWN_MINUTES,
        EventKind::LongerViagra => LONGER_VIAGRA_HOURS,
        EventKind::DoubleGrowthRoll => DOUBLE_GROWTH_ROLL_BONUS,
        EventKind::CompactGrowth => COMPACT_GROWTH_COOLDOWN_MINUTES,
        EventKind::JackpotGrowth => JACKPOT_EXTRA_CM,
        EventKind::CommunityPot => COMMUNITY_POT_CM_PER_GROW,
    }
}

/// `e` is the freshly rolled (not yet stored) event of its kind.
pub open spec fn is_rolled_event(e: GlobalEvent) -> bool {
    &&& e.id == 0
    &&& e.name@ == event_name(e.kind)
    &&& e.description@ == event_description(e.kind)
    &&& e.bonus_value == event_bonus(e.kind)
}

fn rolled_event(kind: EventKind, ends_at: i64) -> (e: GlobalEvent)
    ensures
        e.kind == kind,
        e.ends_at == ends_at,
        is_rolled_event(e),
        e.wf(),
{
    match kind {
        EventKind::GrowthBonus => GlobalEvent {
            id: 0,
            kind,
            name: String::from_str("Growth Surge"),
            description: text_with_number(
                "All /grow results get **+",
                GROWTH_BONUS_PERCENT,
                "% growth** during this bonus window.",
            ),
            bonus_value: GROWTH_BONUS_PERCENT,
            ends_at,
        },
        EventKind::LowerCooldown => GlobalEvent {
            id: 0,
            kind,
            name: String::from_str("Fast Hands"),
            description: text_with_number(
                "The /grow cooldown is lowered to **",
                LOWER_COOLDOWN_MINUTES,
                " minutes** while this event is active.",
            ),
            bonus_value: LOWER_COOLDOWN_MINUTES,
            ends_at,
        },
        EventKind::LongerViagra => GlobalEvent {
            id: 0,
            kind,
            name: String::from_str("Extended Pharmacy Hours"),
            description: text_with_number(
                "New /viagra activations last **",
                LONGER_VIAGRA_HOURS,
                " hours** during this event.",
            ),
            bonus_value: LONGER_VIAGRA_HOURS,
            ends_at,
        },
        EventKind::DoubleGrowthRoll => GlobalEvent {
            id: 0,
            kind,
            name: String::from_str("Double Trouble"),
            description: String::from_str("Every /grow rolls twice and keeps the better result."),
            bonus_value: DOUBLE_GROWTH_ROLL_BONUS,
            ends_at,
        },
        EventKind::CompactGrowth => {
            let mut d = text_with_number(
                "/grow becomes smaller but faster: **",
                COMPACT_GROWTH_MIN_CM,
                "-",
            );
            append_decimal(&mut d, COMPACT_GROWTH_MAX_CM);
            d.append(" cm** every **");
            append_decimal(&mut d, COMPACT_GROWTH_COOLDOWN_MINUTES);
            d.append(" minutes**.");
            GlobalEvent {
                id: 0,
                kind,
                name: String::from_str("Quick Sprouts"),
                description: d,
                bonus_value: COMPACT_GROWTH_COOLDOWN_MINUTES,
                ends_at,
            }
        },
        EventKind::JackpotGrowth => {
            let mut d = text_with_number(
                "Every /grow has a **",
                JACKPOT_CHANCE_NUMERATOR as i64,
                "/",
            );
            append_decimal(&mut d, JACKPOT_CHANCE_DENOMINATOR as i64);
            d.append("** chance to hit an extra **+");
            append_decimal(&mut d, JACKPOT_EXTRA_CM);
            d.append(" cm** jackpot.");
            GlobalEvent {
                id: 0,
                kind,
                name: String::from_str("Jackpot Window"),
                description: d,
                bonus_value: JACKPOT_EXTRA_CM,
                ends_at,
            }
        },
        EventKind::CommunityPot => GlobalEvent {
            id: 0,
            kind,
            name: String::from_str("Community Pump"),
            description: text_with_number(
                "Every /grow adds **+",
                COMMUNITY_POT_CM_PER_GROW,
                " cm** to a global pot. The pot is automatically awarded to a random participant after the event ends.",
            ),
            bonus_value: COMMUNITY_POT_CM_PER_GROW,
            ends_at,
        },
    }
}

/// The event a weighted roll selects, stamped with `ends_at`.
pub fn global_event_for_roll(roll: u32, ends_at: i64) -> (e: GlobalEvent)
    requires
        roll < total_event_weight(),
    ensures
        e.kind == kind_for_roll(roll as int),
        e.ends_at == ends_at,
        is_rolled_event(e),
        e.wf(),
{
    let c1 = GROWTH_BONUS_EVENT_WEIGHT;
    let c2 = c1 + LOWER_COOLDOWN_EVENT_WEIGHT;
    let c3 = c2 + LONGER_VIAGRA_EVENT_WEIGHT;
    let c4 = c3 + DOUBLE_GROWTH_ROLL_EVENT_WEIGHT;
    let c5 = c4 + COMPACT_GROWTH_EVENT_WEIGHT;
    let c6 = c5 + JACKPOT_GROWTH_EVENT_WEIGHT;
    let kind = if roll < c1 {
        EventKind::GrowthBonus
    } else if roll < c2 {
        EventKind::LowerCooldown
    } else if roll < c3 {
        EventKind::LongerViagra
    } else if roll < c4 {
        EventKind::DoubleGrowthRoll
    } else if roll < c5 {
        EventKind::CompactGrowth
    } else if roll < c6 {
        EventKind::JackpotGrowth
    } else {
        EventKind::CommunityPot
    };
    rolled_event(kind, ends_at)
}

/// Rolls a random event kind, weighted by the kind weights, stamped with the
/// current time.
pub fn roll_global_event() -> (e: GlobalEvent)
    ensures
        is_rolled_event(e),
        e.wf(),
        in_utc_range(e.ends_at as int),
{
    let total: u32 = GROWTH_BONUS_EVENT_WEIGHT + LOWER_COOLDOWN_EVENT_WEIGHT
        + LONGER_VIAGRA_EVENT_WEIGHT + DOUBLE_GROWTH_ROLL_EVENT_WEIGHT
        + COMPACT_GROWTH_EVENT_WEIGHT + JACKPOT_GROWTH_EVENT_WEIGHT + COMMUNITY_POT_EVENT_WEIGHT;
    let roll = random_index(total as usize) as u32;
    let now = now_timestamp();
    global_event_for_roll(roll, now)
}

/// Seconds an event lasts.
pub open spec fn event_duration_seconds() -> int {
    EVENT_DURATION_HOURS * SECONDS_PER_HOUR
}

/// The decision of whether a new event starts: only when none is active and
/// the activation draw hit; the event is the one `roll` selects and ends
/// `EVENT_DURATION_HOURS` after `now`.
pub fn start_event_decision(has_active: bool, activation_hit: bool, roll: u32, now: i64) -> (r:
    Option<GlobalEvent>)
    requires
        roll < total_event_weight(),
        in_utc_range(now as int),
    ensures
        r is Some <==> !has_active && activation_hit,
        r matches Some(e) ==> {
            &&& e.kind == kind_for_roll(roll as int)
            &&& e.ends_at == now + event_duration_seconds()
            &&& is_rolled_event(e)
            &&& e.wf()
        },
{
    if has_active || !activation_hit {
        return None;
    }
    Some(global_event_for_roll(roll, now + EVENT_DURATION_HOURS * SECONDS_PER_HOUR))
}

/// Starts a new global event when none is active, with chance
/// `EVENT_ACTIVATION_CHANCE_NUMERATOR / EVENT_ACTIVATION_CHANCE_DENOMINATOR`.
/// A started event ends `EVENT_DURATION_HOURS` after the clock read that
/// started it; when the clock reads less than that before the last
/// representable time, no event is started, so a started event's end is
/// always representable.
pub fn try_start_new_event(has_active: bool) -> (r: Option<GlobalEvent>)
    ensures
        has_active ==> r is None,
        r matches Some(e) ==> {
            &&& is_rolled_event(e)
            &&& e.wf()
            &&& in_utc_range(e.ends_at - event_duration_seconds())
            &&& in_utc_range(e.ends_at as int)
        },
{
    if has_active {
        return None;
    }
    if !random_chance(EVENT_ACTIVATION_CHANCE_NUMERATOR, EVENT_ACTIVATION_CHANCE_DENOMINATOR) {
        return None;
    }
    let total: u32 = GROWTH_BONUS_EVENT_WEIGHT + LOWER_COOLDOWN_EVENT_WEIGHT
        + LONGER_VIAGRA_EVENT_WEIGHT + DOUBLE_GROWTH_ROLL_EVENT_WEIGHT
        + COMPACT_GROWTH_EVENT_WEIGHT + JACKPOT_GROWTH_EVENT_WEIGHT + COMMUNITY_POT_EVENT_WEIGHT;
    let roll = random_index(total as usize) as u32;
    let now = now_timestamp();
    if now > crate::clock::MAX_UTC_TIMESTAMP - EVENT_DURATION_HOURS * SECONDS_PER_HOUR {
        return None;
    }
    start_event_decision(false, true, roll, now)
}

/// The active event described by a stored row: the row's kind must be known,
/// its end must read as a timestamp, and that end must lie after `now`.
pub fn active_event_from_row(
    id: i64,
    event_type: &str,
    name: String,
    description: String,
    bonus_value: i64,
    ends_at_text: &str,
    now: i64,
) -> (r: Option<GlobalEvent>)
    ensures
        r is Some <==> {
            &&& spec_kind_from_name(event_type@) is Some
            &&& parsed_db_datetime(ends_at_text@) matches Some(t) && t > now
        },
        r matches Some(e) ==> {
            &&& e.id == id
            &&& Some(e.kind) == spec_kind_from_name(event_type@)
            &&& e.name == name
            &&& e.description == description
            &&& e.bonus_value == bonus_value
            &&& Some(e.ends_at) == parsed_db_datetime(ends_at_text@)
        },
{
    let kind = match EventKind::from_str(event_type) {
        Some(k) => k,
        None => return None,
    };
    let ends_at = match parse_db_datetime(ends_at_text) {
        Some(t) => t,
        None => return None,
    };
    if ends_at <= now {
        return None;
    }
    Some(GlobalEvent { id, kind, name, description, bonus_value, ends_at })
}

/// What happens to the pot of an expired community-pot event.
#[derive(Clone, Copy, Debug, PartialEq, Eq, Structural)]
pub enum PotResolution {
    /// Nothing was added to the pot.
    NothingInPot,
    /// The pot holds something but nobody grew during the event.
    NoEligibleGrowers,
    /// Participant `winner_index` receives the pot and now has `new_length`.
    Awarded { winner_index: usize, new_length: i64 },
}

/// Resolution of a pot of `pot_amount` among growers with the given lengths,
/// given the index the winner draw produced.
pub fn resolve_community_pot_with(
    pot_amount: i64,
    participant_lengths: &Vec<i64>,
    winner_index: usize,
) -> (r: PotResolution)
    requires
        pot_amount > 0 && participant_lengths.len() > 0 ==> {
            &&& winner_index < participant_lengths.len()
            &&& i64::MIN <= participant_lengths[winner_index as int] + pot_amount <= i64::MAX
        },
    ensures
        pot_amount <= 0 ==> r == PotResolution::NothingInPot,
        pot_amount > 0 && participant_lengths.len() == 0 ==> r == PotResolution::NoEligibleGrowers,
        pot_amount > 0 && participant_lengths.len() > 0 ==> r == (PotResolution::Awarded {
            winner_index,
            new_length: (participant_lengths[winner_index as int] + pot_amount) as i64,
        }),
{
    if pot_amount <= 0 {
        PotResolution::NothingInPot
    } else if participant_lengths.len() == 0 {
        PotResolution::NoEligibleGrowers
    } else {
        PotResolution::Awarded {
            winner_index,
            new_length: participant_lengths[winner_index] + pot_amount,
        }
    }
}

/// Resolves an expired community pot: a pot with something in it goes to a
/// uniformly drawn grower of the event, whose length grows by the pot.
pub fn resolve_community_pot(pot_amount: i64, participant_lengths: &Vec<i64>) -> (r:
    PotResolution)
    requires
        pot_amount > 0 ==> forall|i: int|
            0 <= i < participant_lengths.len() ==> i64::MIN <= #[trigger] participant_lengths[i]
                + pot_amount <= i64::MAX,
    ensures
        pot_amount <= 0 ==> r == PotResolution::NothingInPot,
        pot_amount > 0 && participant_lengths.len() == 0 ==> r == PotResolution::NoEligibleGrowers,
        pot_amount > 0 && participant_lengths.len() > 0 ==> (r matches PotResolution::Awarded {
            winner_index,
            new_length,
        } && winner_index < participant_lengths.len() && new_length
            == participant_lengths[winner_index as int] + pot_amount),
{
    if pot_amount > 0 && participant_lengths.len() > 0 {
        let w = random_index(participant_lengths.len());
        resolve_community_pot_with(pot_amount, participant_lengths, w)
    } else {
        resolve_community_pot_with(pot_amount, participant_lengths, 0)
    }
}

/// The bot's presence text: the active event's name, or a note that none runs.
pub open spec fn spec_presence_text(event_name: Option<Seq<char>>) -> Seq<char> {
    match event_name {
        Some(n) => "Event: "@ + n,
        None => "No event active"@,
    }
}

/// The bot's presence text for the active event, if any.
pub fn presence_text(event: Option<&GlobalEvent>) -> (r: String)
    ensures
        r@ == spec_presence_text(
            match event {
                Some(e) => Some(e.name@),
                None => None,
            },
        ),
{
    match event {
        Some(e) => {
            let mut s = String::from_str("Event: ");
            s.append(e.name.as_str());
            s
        },
        None => String::from_str("No event active"),
    }
}

} // verus!
