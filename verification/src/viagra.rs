use vstd::prelude::*;
use crate::clock::{in_utc_range, parse_db_datetime, parsed_db_datetime};
use crate::events::GlobalEvent;
use crate::member::{opt_in_utc_range, Member};
use crate::time::{SECONDS_PER_HOUR, span_in_range};

verus! {

/// Time between two viagra activations.
pub const VIAGRA_COOLDOWN_HOURS: i64 = 72;
/// How long a viagra lasts when no event changes it.
pub const VIAGRA_DURATION_HOURS: i64 = 6;
/// Growth boost, in percent, while a viagra is active.
pub const VIAGRA_BOOST_PERCENT: i64 = 20;

/// Whether a viagra running until `active_until` is active at `now`.
pub open spec fn spec_viagra_active(active_until: Option<i64>, now: int) -> bool {
    active_until matches Some(t) && now < t
}

/// Whether the viagra whose stored end is `active_until` is active at `now`;
/// an absent or unreadable end means no viagra.
pub fn is_viagra_active(active_until: Option<&str>, now: i64) -> (r: bool)
    ensures
        r == spec_viagra_active(
            match active_until {
                Some(s) => parsed_db_datetime(s@),
                None => None,
            },
            now as int,
        ),
{
    match active_until {
        Some(s) => match parse_db_datetime(s) {
            Some(t) => now < t,
            None => false,
        },
        None => false,
    }
}

/// When the next viagra may be taken.
#[derive(Clone, Copy, Debug, PartialEq, Eq, Structural)]
pub enum NextViagra {
    /// Right away.
    Now,
    /// At this Unix time.
    At(i64),
    /// The stored time of the last one cannot be read.
    Unknown,
}

/// What the stats show about a player's viagra.
#[derive(Clone, Copy, Debug, PartialEq, Eq, Structural)]
pub struct ViagraStatus {
    pub active: bool,
    /// When the running viagra ends, if one is active.
    pub effect_ends: Option<i64>,
    pub next_available: NextViagra,
}

/// Seconds between two viagra activations.
pub open spec fn viagra_cooldown_seconds() -> int {
    VIAGRA_COOLDOWN_HOURS * SECONDS_PER_HOUR
}

/// The next activation time after a viagra taken at `last_used` (if read),
/// seen at `now`.
pub open spec fn spec_next_viagra(last_used_text: Option<Seq<char>>, now: int) -> NextViagra {
    match last_used_text {
        None => NextViagra::Now,
        Some(s) => match parsed_db_datetime(s) {
            None => NextViagra::Unknown,
            Some(t) => if t + viagra_cooldown_seconds() > now {
                NextViagra::At((t + viagra_cooldown_seconds()) as i64)
            } else {
                NextViagra::Now
            },
        },
    }
}

/// A player's viagra status at `now`, from the stored end of the running
/// viagra and the stored time of the last one.
pub fn get_viagra_status(active_until: Option<&str>, last_used: Option<&str>, now: i64) -> (r:
    ViagraStatus)
    requires
        in_utc_range(now as int),
    ensures
        r.active == spec_viagra_active(
            match active_until {
                Some(s) => parsed_db_datetime(s@),
                None => None,
            },
            now as int,
        ),
        r.effect_ends == (if r.active {
            match active_until {
                Some(s) => parsed_db_datetime(s@),
                None => None,
            }
        } else {
            None
        }),
        r.next_available == spec_next_viagra(
            match last_used {
                Some(s) => Some(s@),
                None => None,
            },
            now as int,
        ),
{
    let until = match active_until {
        Some(s) => parse_db_datetime(s),
        None => None,
    };
    let active = match until {
        Some(t) => now < t,
        None => false,
    };
    let next_available = match last_used {
        None => NextViagra::Now,
        Some(s) => match parse_db_datetime(s) {
            None => NextViagra::Unknown,
            Some(t) => {
                let next = t + VIAGRA_COOLDOWN_HOURS * SECONDS_PER_HOUR;
                if next > now {
                    NextViagra::At(next)
                } else {
                    NextViagra::Now
                }
            },
        },
    };
    ViagraStatus { active, effect_ends: if active { until } else { None }, next_available }
}

/// Why a viagra was refused.
#[derive(Clone, Copy, Debug, PartialEq, Eq, Structural)]
pub enum ViagraRefusal {
    /// One is still running until this time.
    AlreadyActive { active_until: i64 },
    /// The cooldown has this many seconds left.
    Cooldown { remaining: i64 },
}

/// Hours a viagra taken during `event` lasts.
pub open spec fn spec_viagra_hours(event: Option<&GlobalEvent>) -> int {
    match event {
        Some(e) => match e.spec_viagra_duration_hours() {
            Some(h) => h as int,
            None => VIAGRA_DURATION_HOURS as int,
        },
        None => VIAGRA_DURATION_HOURS as int,
    }
}

/// Seconds left of the cooldown after a viagra taken at `last_used`.
pub open spec fn viagra_cooldown_left(last_used: int, now: int) -> int {
    viagra_cooldown_seconds() - (now - last_used)
}

impl Member {
    /// Whether the player's viagra is active at `now`.
    pub fn viagra_active_at(&self, now: i64) -> (r: bool)
        ensures
            r == spec_viagra_active(self.viagra_active_until, now as int),
    {
        match self.viagra_active_until {
            Some(t) => now < t,
            None => false,
        }
    }

    /// Takes a viagra at `now`: refused while one is running, or while the
    /// cooldown after the last one runs; otherwise it starts now and lasts
    /// `VIAGRA_DURATION_HOURS` (or what the active event sets). Returns when
    /// it ends.
    pub fn take_viagra(&mut self, now: i64, event: Option<&GlobalEvent>) -> (r: Result<
        i64,
        ViagraRefusal,
    >)
        requires
            old(self).wf(),
            in_utc_range(now as int),
            event matches Some(e) ==> e.wf(),
            in_utc_range(now + spec_viagra_hours(event) * SECONDS_PER_HOUR),
        ensures
            spec_viagra_active(old(self).viagra_active_until, now as int) ==> r == Err::<
                i64,
                ViagraRefusal,
            >(ViagraRefusal::AlreadyActive { active_until: old(self).viagra_active_until->0 }),
            !spec_viagra_active(old(self).viagra_active_until, now as int) && (old(
                self,
            ).viagra_last_used matches Some(t) && viagra_cooldown_left(t as int, now as int) > 0)
                ==> r == Err::<i64, ViagraRefusal>(
                ViagraRefusal::Cooldown {
                    remaining: viagra_cooldown_left(old(self).viagra_last_used->0 as int, now as int) as i64,
                },
            ),
            r is Ok <==> !spec_viagra_active(old(self).viagra_active_until, now as int) && !(old(
                self,
            ).viagra_last_used matches Some(t) && viagra_cooldown_left(t as int, now as int) > 0),
            r matches Ok(until) ==> until == now + spec_viagra_hours(event)
                * SECONDS_PER_HOUR && *final(self) == (Member {
                viagra_last_used: Some(now),
                viagra_active_until: Some(until),
                ..*old(self)
            }),
            r is Err ==> *final(self) == *old(self),
    {
        if let Some(t) = self.viagra_active_until {
            if now < t {
                return Err(ViagraRefusal::AlreadyActive { active_until: t });
            }
        }
        if let Some(last) = self.viagra_last_used {
            let remaining = VIAGRA_COOLDOWN_HOURS * SECONDS_PER_HOUR - (now - last);
            if remaining > 0 {
                return Err(ViagraRefusal::Cooldown { remaining });
            }
        }
        let hours = match event {
            Some(e) => match e.viagra_duration_hours() {
                Some(h) => h,
                None => VIAGRA_DURATION_HOURS,
            },
            None => VIAGRA_DURATION_HOURS,
        };
        let until = now + hours * SECONDS_PER_HOUR;
        self.viagra_last_used = Some(now);
        self.viagra_active_until = Some(until);
        Ok(until)
    }
}

/// Whether taking a viagra at `now` is refused (one is running, or the
/// cooldown after the last one is not over).
pub open spec fn spec_viagra_refused(m: Member, now: int) -> bool {
    spec_viagra_active(m.viagra_active_until, now) || (m.viagra_last_used matches Some(t)
        && viagra_cooldown_left(t as int, now) > 0)
}

/// Once a viagra is taken at `taken_at`, every later request before the
/// cooldown is over is refused.
pub proof fn lemma_viagra_once_per_cooldown(m: Member, taken_at: i64, later: int)
    requires
        m.viagra_last_used == Some(taken_at),
        taken_at <= later < taken_at + viagra_cooldown_seconds(),
    ensures
        spec_viagra_refused(m, later),
{
}

} // verus!
