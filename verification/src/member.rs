use vstd::prelude::*;
use crate::clock::{
    db_date_text, db_datetime_text, format_db_date, format_db_datetime, in_day_range, in_utc_range,
    parse_db_date, parse_db_datetime, parsed_db_date, parsed_db_datetime,
};

verus! {

/// Whether `x` is a value of `i64`.
pub open spec fn fits_i64(x: int) -> bool {
    i64::MIN <= x <= i64::MAX
}

/// A player's record in one server, with stored timestamps read as Unix
/// times (seconds) and the streak date as a day number since 1970-01-01.
#[derive(Clone, Copy, Debug, PartialEq, Eq, Structural)]
pub struct Member {
    pub length: i64,
    pub last_grow: i64,
    pub growth_count: i64,
    pub dick_of_day_count: i64,
    pub pvp_wins: i64,
    pub pvp_losses: i64,
    pub pvp_max_streak: i64,
    pub pvp_current_streak: i64,
    pub cm_won: i64,
    pub cm_lost: i64,
    pub prestige_level: i64,
    pub prestige_points: i64,
    pub viagra_last_used: Option<i64>,
    pub viagra_active_until: Option<i64>,
    pub daily_last_claimed: Option<i64>,
    pub daily_growth_boost_percent: i64,
    pub daily_cooldown_skips: i64,
    pub daily_streak_savers: i64,
    pub daily_lucky_rolls: i64,
    pub daily_streak: i64,
    pub best_daily_streak: i64,
    pub last_streak_day: Option<i64>,
    pub streak_last_claimed: Option<i64>,
}

/// A player's record as stored: timestamps as `%Y-%m-%d %H:%M:%S` text, the
/// streak date as `%Y-%m-%d` text.
#[derive(Clone, Debug)]
pub struct MemberRow {
    pub length: i64,
    pub last_grow: String,
    pub growth_count: i64,
    pub dick_of_day_count: i64,
    pub pvp_wins: i64,
    pub pvp_losses: i64,
    pub pvp_max_streak: i64,
    pub pvp_current_streak: i64,
    pub cm_won: i64,
    pub cm_lost: i64,
    pub prestige_level: i64,
    pub prestige_points: i64,
    pub viagra_last_used: Option<String>,
    pub viagra_active_until: Option<String>,
    pub daily_last_claimed: Option<String>,
    pub daily_growth_boost_percent: i64,
    pub daily_cooldown_skips: i64,
    pub daily_streak_savers: i64,
    pub daily_lucky_rolls: i64,
    pub daily_streak: i64,
    pub best_daily_streak: i64,
    pub last_streak_date: Option<String>,
    pub streak_last_claimed: Option<String>,
}

/// An optional stored timestamp as read: absent or unreadable text gives `None`.
pub open spec fn read_opt_datetime(text: Option<String>) -> Option<i64> {
    match text {
        Some(s) => parsed_db_datetime(s@),
        None => None,
    }
}

/// An optional stored date as read: absent or unreadable text gives `None`.
pub open spec fn read_opt_date(text: Option<String>) -> Option<i64> {
    match text {
        Some(s) => parsed_db_date(s@),
        None => None,
    }
}

fn read_datetime(text: &Option<String>) -> (r: Option<i64>)
    ensures
        r == read_opt_datetime(*text),
        r matches Some(t) ==> in_utc_range(t as int),
{
    match text {
        Some(s) => parse_db_datetime(s.as_str()),
        None => None,
    }
}

fn read_date(text: &Option<String>) -> (r: Option<i64>)
    ensures
        r == read_opt_date(*text),
        r matches Some(d) ==> in_day_range(d as int),
{
    match text {
        Some(s) => parse_db_date(s.as_str()),
        None => None,
    }
}

/// An optional Unix time whose value, if any, is representable.
pub open spec fn opt_in_utc_range(t: Option<i64>) -> bool {
    t matches Some(x) ==> in_utc_range(x as int)
}

/// An optional time rendered for storage.
pub open spec fn opt_datetime_text(t: Option<i64>) -> Option<Seq<char>> {
    match t {
        Some(x) => Some(db_datetime_text(x)),
        None => None,
    }
}

fn write_datetime(t: Option<i64>) -> (r: Option<String>)
    requires
        opt_in_utc_range(t),
    ensures
        (match r {
            Some(s) => Some(s@),
            None => None,
        }) == opt_datetime_text(t),
        read_opt_datetime(r) == t,
{
    match t {
        Some(x) => Some(format_db_datetime(x)),
        None => None,
    }
}

/// The counters of single-use rewards that the daily claim hands out.
#[derive(Clone, Copy, Debug, PartialEq, Eq, Structural)]
pub enum DailyCounter {
    CooldownSkips,
    StreakSavers,
    LuckyRolls,
}

/// The record a stored row reads as: unreadable last-grow text counts as
/// the Unix epoch, other unreadable or absent times as absent.
pub open spec fn member_from_row(row: MemberRow) -> Member {
    Member {
        length: row.length,
        last_grow: match parsed_db_datetime(row.last_grow@) {
            Some(t) => t,
            None => 0,
        },
        growth_count: row.growth_count,
        dick_of_day_count: row.dick_of_day_count,
        pvp_wins: row.pvp_wins,
        pvp_losses: row.pvp_losses,
        pvp_max_streak: row.pvp_max_streak,
        pvp_current_streak: row.pvp_current_streak,
        cm_won: row.cm_won,
        cm_lost: row.cm_lost,
        prestige_level: row.prestige_level,
        prestige_points: row.prestige_points,
        viagra_last_used: read_opt_datetime(row.viagra_last_used),
        viagra_active_until: read_opt_datetime(row.viagra_active_until),
        daily_last_claimed: read_opt_datetime(row.daily_last_claimed),
        daily_growth_boost_percent: row.daily_growth_boost_percent,
        daily_cooldown_skips: row.daily_cooldown_skips,
        daily_streak_savers: row.daily_streak_savers,
        daily_lucky_rolls: row.daily_lucky_rolls,
        daily_streak: row.daily_streak,
        best_daily_streak: row.best_daily_streak,
        last_streak_day: read_opt_date(row.last_streak_date),
        streak_last_claimed: read_opt_datetime(row.streak_last_claimed),
    }
}

/// `row` is `m` in stored form: every time rendered by the stored-timestamp
/// (or stored-date) rendering, which reads back as that time, and every
/// number copied.
pub open spec fn stored_as(m: Member, row: MemberRow) -> bool {
    &&& row.last_grow@ == db_datetime_text(m.last_grow)
    &&& parsed_db_datetime(row.last_grow@) == Some(m.last_grow)
    &&& opt_text(row.viagra_last_used) == opt_datetime_text(m.viagra_last_used)
    &&& read_opt_datetime(row.viagra_last_used) == m.viagra_last_used
    &&& opt_text(row.viagra_active_until) == opt_datetime_text(m.viagra_active_until)
    &&& read_opt_datetime(row.viagra_active_until) == m.viagra_active_until
    &&& opt_text(row.daily_last_claimed) == opt_datetime_text(m.daily_last_claimed)
    &&& read_opt_datetime(row.daily_last_claimed) == m.daily_last_claimed
    &&& opt_text(row.streak_last_claimed) == opt_datetime_text(m.streak_last_claimed)
    &&& read_opt_datetime(row.streak_last_claimed) == m.streak_last_claimed
    &&& opt_text(row.last_streak_date) == (match m.last_streak_day {
        Some(d) => Some(db_date_text(d)),
        None => None,
    })
    &&& read_opt_date(row.last_streak_date) == m.last_streak_day
    &&& row.length == m.length
    &&& row.growth_count == m.growth_count
    &&& row.dick_of_day_count == m.dick_of_day_count
    &&& row.pvp_wins == m.pvp_wins
    &&& row.pvp_losses == m.pvp_losses
    &&& row.pvp_max_streak == m.pvp_max_streak
    &&& row.pvp_current_streak == m.pvp_current_streak
    &&& row.cm_won == m.cm_won
    &&& row.cm_lost == m.cm_lost
    &&& row.prestige_level == m.prestige_level
    &&& row.prestige_points == m.prestige_points
    &&& row.daily_growth_boost_percent == m.daily_growth_boost_percent
    &&& row.daily_cooldown_skips == m.daily_cooldown_skips
    &&& row.daily_streak_savers == m.daily_streak_savers
    &&& row.daily_lucky_rolls == m.daily_lucky_rolls
    &&& row.daily_streak == m.daily_streak
    &&& row.best_daily_streak == m.best_daily_streak
}

/// The characters of an optional text.
pub open spec fn opt_text(s: Option<String>) -> Option<Seq<char>> {
    match s {
        Some(x) => Some(x@),
        None => None,
    }
}

/// A record written in stored form reads back as the same record.
pub proof fn lemma_stored_record_reads_back(m: Member, row: MemberRow)
    requires
        stored_as(m, row),
    ensures
        member_from_row(row) == m,
{
}

impl Member {
    /// The record of a player seen for the first time, whose last /grow is
    /// dated `last_grow`.
    pub fn new(last_grow: i64) -> (m: Member)
        ensures
            m.length == 0,
            m.last_grow == last_grow,
            m.growth_count == 0 && m.dick_of_day_count == 0,
            m.pvp_wins == 0 && m.pvp_losses == 0 && m.pvp_max_streak == 0
                && m.pvp_current_streak == 0,
            m.cm_won == 0 && m.cm_lost == 0,
            m.prestige_level == 0 && m.prestige_points == 0,
            m.viagra_last_used is None && m.viagra_active_until is None,
            m.daily_last_claimed is None,
            m.daily_growth_boost_percent == 0 && m.daily_cooldown_skips == 0
                && m.daily_streak_savers == 0 && m.daily_lucky_rolls == 0,
            m.daily_streak == 0 && m.best_daily_streak == 0,
            m.last_streak_day is None && m.streak_last_claimed is None,
    {
        Member {
            length: 0,
            last_grow,
            growth_count: 0,
            dick_of_day_count: 0,
            pvp_wins: 0,
            pvp_losses: 0,
            pvp_max_streak: 0,
            pvp_current_streak: 0,
            cm_won: 0,
            cm_lost: 0,
            prestige_level: 0,
            prestige_points: 0,
            viagra_last_used: None,
            viagra_active_until: None,
            daily_last_claimed: None,
            daily_growth_boost_percent: 0,
            daily_cooldown_skips: 0,
            daily_streak_savers: 0,
            daily_lucky_rolls: 0,
            daily_streak: 0,
            best_daily_streak: 0,
            last_streak_day: None,
            streak_last_claimed: None,
        }
    }

    /// Every time in the record is representable.
    pub open spec fn wf(&self) -> bool {
        &&& in_utc_range(self.last_grow as int)
        &&& opt_in_utc_range(self.viagra_last_used)
        &&& opt_in_utc_range(self.viagra_active_until)
        &&& opt_in_utc_range(self.daily_last_claimed)
        &&& opt_in_utc_range(self.streak_last_claimed)
        &&& (self.last_streak_day matches Some(d) ==> in_day_range(d as int))
    }

    /// Reads a stored record. An unreadable last-grow time counts as the
    /// Unix epoch; other unreadable times count as absent.
    pub fn from_row(row: &MemberRow) -> (m: Member)
        ensures
            m == member_from_row(*row),
            m.wf(),
    {
        let last_grow = match parse_db_datetime(row.last_grow.as_str()) {
            Some(t) => t,
            None => 0,
        };
        Member {
            length: row.length,
            last_grow,
            growth_count: row.growth_count,
            dick_of_day_count: row.dick_of_day_count,
            pvp_wins: row.pvp_wins,
            pvp_losses: row.pvp_losses,
            pvp_max_streak: row.pvp_max_streak,
            pvp_current_streak: row.pvp_current_streak,
            cm_won: row.cm_won,
            cm_lost: row.cm_lost,
            prestige_level: row.prestige_level,
            prestige_points: row.prestige_points,
            viagra_last_used: read_datetime(&row.viagra_last_used),
            viagra_active_until: read_datetime(&row.viagra_active_until),
            daily_last_claimed: read_datetime(&row.daily_last_claimed),
            daily_growth_boost_percent: row.daily_growth_boost_percent,
            daily_cooldown_skips: row.daily_cooldown_skips,
            daily_streak_savers: row.daily_streak_savers,
            daily_lucky_rolls: row.daily_lucky_rolls,
            daily_streak: row.daily_streak,
            best_daily_streak: row.best_daily_streak,
            last_streak_day: read_date(&row.last_streak_date),
            streak_last_claimed: read_datetime(&row.streak_last_claimed),
        }
    }

    /// The record in stored form.
    pub fn to_row(&self) -> (row: MemberRow)
        requires
            self.wf(),
        ensures
            stored_as(*self, row),
    {
        let last_streak_date = match self.last_streak_day {
            Some(d) => Some(format_db_date(d)),
            None => None,
        };
        MemberRow {
            length: self.length,
            last_grow: format_db_datetime(self.last_grow),
            growth_count: self.growth_count,
            dick_of_day_count: self.dick_of_day_count,
            pvp_wins: self.pvp_wins,
            pvp_losses: self.pvp_losses,
            pvp_max_streak: self.pvp_max_streak,
            pvp_current_streak: self.pvp_current_streak,
            cm_won: self.cm_won,
            cm_lost: self.cm_lost,
            prestige_level: self.prestige_level,
            prestige_points: self.prestige_points,
            viagra_last_used: write_datetime(self.viagra_last_used),
            viagra_active_until: write_datetime(self.viagra_active_until),
            daily_last_claimed: write_datetime(self.daily_last_claimed),
            daily_growth_boost_percent: self.daily_growth_boost_percent,
            daily_cooldown_skips: self.daily_cooldown_skips,
            daily_streak_savers: self.daily_streak_savers,
            daily_lucky_rolls: self.daily_lucky_rolls,
            daily_streak: self.daily_streak,
            best_daily_streak: self.best_daily_streak,
            last_streak_date,
            streak_last_claimed: write_datetime(self.streak_last_claimed),
        }
    }

    /// The value of one single-use reward counter.
    pub open spec fn counter(&self, which: DailyCounter) -> i64 {
        match which {
            DailyCounter::CooldownSkips => self.daily_cooldown_skips,
            DailyCounter::StreakSavers => self.daily_streak_savers,
            DailyCounter::LuckyRolls => self.daily_lucky_rolls,
        }
    }

    /// The record with one reward counter replaced.
    pub open spec fn with_counter(self, which: DailyCounter, v: i64) -> Member {
        match which {
            DailyCounter::CooldownSkips => Member { daily_cooldown_skips: v, ..self },
            DailyCounter::StreakSavers => Member { daily_streak_savers: v, ..self },
            DailyCounter::LuckyRolls => Member { daily_lucky_rolls: v, ..self },
        }
    }

    fn set_counter(&mut self, which: DailyCounter, v: i64)
        ensures
            *final(self) == old(self).with_counter(which, v),
    {
        match which {
            DailyCounter::CooldownSkips => self.daily_cooldown_skips = v,
            DailyCounter::StreakSavers => self.daily_streak_savers = v,
            DailyCounter::LuckyRolls => self.daily_lucky_rolls = v,
        }
    }

    fn get_counter(&self, which: DailyCounter) -> (r: i64)
        ensures
            r == self.counter(which),
    {
        match which {
            DailyCounter::CooldownSkips => self.daily_cooldown_skips,
            DailyCounter::StreakSavers => self.daily_streak_savers,
            DailyCounter::LuckyRolls => self.daily_lucky_rolls,
        }
    }

    /// Takes one reward off a counter: a positive counter goes down by one,
    /// any other is set to zero.
    pub fn decrement_daily_counter(&mut self, which: DailyCounter)
        ensures
            *final(self) == old(self).with_counter(
                which,
                if old(self).counter(which) > 0 {
                    (old(self).counter(which) - 1) as i64
                } else {
                    0
                },
            ),
    {
        let c = self.get_counter(which);
        self.set_counter(which, if c > 0 { c - 1 } else { 0 });
    }

    /// Uses one reward of a counter if there is one: `true` and the counter
    /// down by one when it was positive; `false` and no change otherwise.
    pub fn consume_daily_counter(&mut self, which: DailyCounter) -> (used: bool)
        ensures
            used == (old(self).counter(which) > 0),
            *final(self) == (if used {
                old(self).with_counter(which, (old(self).counter(which) - 1) as i64)
            } else {
                *old(self)
            }),
    {
        if self.get_counter(which) <= 0 {
            return false;
        }
        self.decrement_daily_counter(which);
        true
    }

    /// Uses a cooldown skip, if the player holds one.
    pub fn consume_cooldown_skip(&mut self) -> (used: bool)
        ensures
            used == (old(self).daily_cooldown_skips > 0),
            *final(self) == (if used {
                Member { daily_cooldown_skips: (old(self).daily_cooldown_skips - 1) as i64, ..*old(self) }
            } else {
                *old(self)
            }),
    {
        self.consume_daily_counter(DailyCounter::CooldownSkips)
    }

    /// Uses a lucky roll, if the player holds one.
    pub fn consume_lucky_roll(&mut self) -> (used: bool)
        ensures
            used == (old(self).daily_lucky_rolls > 0),
            *final(self) == (if used {
                Member { daily_lucky_rolls: (old(self).daily_lucky_rolls - 1) as i64, ..*old(self) }
            } else {
                *old(self)
            }),
    {
        self.consume_daily_counter(DailyCounter::LuckyRolls)
    }

    /// Adds one reward to a counter and stamps the daily claim at `now`.
    pub fn increment_daily_counter(&mut self, which: DailyCounter, now: i64)
        requires
            old(self).counter(which) < i64::MAX,
        ensures
            *final(self) == (Member {
                daily_last_claimed: Some(now),
                ..old(self).with_counter(which, (old(self).counter(which) + 1) as i64)
            }),
    {
        let c = self.get_counter(which);
        self.set_counter(which, c + 1);
        self.daily_last_claimed = Some(now);
    }

    /// The growth boost a /grow receives from the daily reward, if any.
    pub open spec fn spec_daily_boost(&self) -> Option<i64> {
        if self.daily_growth_boost_percent > 0 {
            Some(self.daily_growth_boost_percent)
        } else {
            None
        }
    }

    /// Uses the pending daily growth boost: a positive boost is returned and
    /// cleared; otherwise nothing changes.
    pub fn consume_daily_growth_boost_percent(&mut self) -> (r: Option<i64>)
        ensures
            r == old(self).spec_daily_boost(),
            *final(self) == (if r is Some {
                Member { daily_growth_boost_percent: 0, ..*old(self) }
            } else {
                *old(self)
            }),
    {
        let boost_percent = self.daily_growth_boost_percent;
        if boost_percent <= 0 {
            return None;
        }
        self.daily_growth_boost_percent = 0;
        Some(boost_percent)
    }
}

} // verus!
