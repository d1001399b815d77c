use vstd::prelude::*;
use crate::clock::{in_utc_range, parse_db_datetime, parsed_db_datetime};
use crate::dice::{random_in_range, random_index, random_index_from};
use crate::member::fits_i64;
use crate::time::{cooldown_left, cooldown_remaining_at, SECONDS_PER_HOUR};

verus! {

/// Players active in the last week needed to award a Dick of the Day.
pub const DOTD_MIN_ACTIVE_USERS: usize = 2;
/// Hours between two Dick of the Day awards in a server.
pub const DOTD_COOLDOWN_HOURS: i64 = 24;
/// Range of the bonus of the rank-titled award (the Schlong of the Day).
pub const DOTD_BONUS_MIN_CM: i64 = 10;
pub const DOTD_BONUS_MAX_CM: i64 = 25;
/// Range of the bonus of the length-titled Dick of the Day that
/// `/dickoftheday` awards.
pub const CLASSIC_DOTD_BONUS_MIN_CM: i64 = 5;
pub const CLASSIC_DOTD_BONUS_MAX_CM: i64 = 10;

/// A stored last-award time as read: unreadable text counts as the Unix epoch.
pub open spec fn last_award_time(text: Seq<char>) -> int {
    match parsed_db_datetime(text) {
        Some(t) => t as int,
        None => 0,
    }
}

/// Seconds a server must still wait at `now` before its next Dick of the
/// Day, given the stored time of its last one: the rest of the
/// `DOTD_COOLDOWN_HOURS` cooldown that started at the last award, none once
/// it has passed.
pub fn dotd_wait(last_dotd: &str, now: i64) -> (r: i64)
    requires
        in_utc_range(now as int),
    ensures
        r == cooldown_left(last_award_time(last_dotd@), now as int, DOTD_COOLDOWN_HOURS * 60),
        r >= 0,
{
    let last = match parse_db_datetime(last_dotd) {
        Some(t) => t,
        None => 0,
    };
    cooldown_remaining_at(last, now, DOTD_COOLDOWN_HOURS * 60)
}

/// A server gets at most one Dick of the Day in any 24 hours: the wait is
/// positive exactly while less than `DOTD_COOLDOWN_HOURS` have passed since
/// the stored last award, and when it is, it ends exactly when they have.
pub proof fn lemma_dotd_once_per_cooldown(last_dotd: Seq<char>, now: int)
    ensures
        ({
            let last = last_award_time(last_dotd);
            let wait = cooldown_left(last, now, DOTD_COOLDOWN_HOURS * 60);
            &&& wait > 0 <==> now - last < DOTD_COOLDOWN_HOURS * SECONDS_PER_HOUR
            &&& wait > 0 ==> now + wait == last + DOTD_COOLDOWN_HOURS * SECONDS_PER_HOUR
            &&& wait >= 0
        }),
{
}

/// Picks the Dick of the Day among `active_users_len` candidates, with a
/// caller-held generator.
pub fn choose_sotd_winner(rng: &mut rand::rngs::StdRng, active_users_len: usize) -> (r: usize)
    requires
        active_users_len > 0,
    ensures
        r < active_users_len,
{
    random_index_from(rng, active_users_len)
}

/// A Dick of the Day award: the winner among the candidates, the bonus and
/// the winner's length after it.
#[derive(Clone, Copy, Debug, PartialEq, Eq, Structural)]
pub struct DotdAward {
    pub winner_index: usize,
    pub bonus: i64,
    pub new_length: i64,
}

/// The award among candidates of the given lengths, for the drawn winner
/// and bonus; too few candidates get no award.
pub fn award_dotd_with(lengths: &Vec<i64>, winner_index: usize, bonus: i64) -> (r: Option<DotdAward>)
    requires
        lengths.len() >= DOTD_MIN_ACTIVE_USERS ==> winner_index < lengths.len() && fits_i64(
            lengths[winner_index as int] + bonus,
        ),
    ensures
        lengths.len() < DOTD_MIN_ACTIVE_USERS ==> r is None,
        lengths.len() >= DOTD_MIN_ACTIVE_USERS ==> r == Some(
            DotdAward {
                winner_index,
                bonus,
                new_length: (lengths[winner_index as int] + bonus) as i64,
            },
        ),
{
    if lengths.len() < DOTD_MIN_ACTIVE_USERS {
        return None;
    }
    Some(DotdAward { winner_index, bonus, new_length: lengths[winner_index] + bonus })
}

/// Awards the Dick of the Day among candidates of the given lengths: a
/// uniformly drawn winner gets a bonus drawn from `low..=high`.
pub fn award_dotd(lengths: &Vec<i64>, low: i64, high: i64) -> (r: Option<DotdAward>)
    requires
        low <= high,
        forall|i: int| 0 <= i < lengths.len() ==> fits_i64(#[trigger] lengths[i] + high),
        forall|i: int| 0 <= i < lengths.len() ==> fits_i64(#[trigger] lengths[i] + low),
    ensures
        lengths.len() < DOTD_MIN_ACTIVE_USERS ==> r is None,
        lengths.len() >= DOTD_MIN_ACTIVE_USERS ==> (r matches Some(a) && a.winner_index
            < lengths.len() && low <= a.bonus <= high && a.new_length == lengths[a.winner_index as int]
            + a.bonus),
{
    if lengths.len() < DOTD_MIN_ACTIVE_USERS {
        return None;
    }
    let w = random_index(lengths.len());
    let bonus = random_in_range(low, high);
    award_dotd_with(lengths, w, bonus)
}

/// The Dick of the Day title, by the winner's new length.
pub open spec fn spec_classic_dotd_title(total: int) -> Seq<char> {
    if total <= 10 {
        "Tiny but Mighty"@
    } else if total <= 20 {
        "Rising Star"@
    } else if total <= 40 {
        "Impressive Member"@
    } else if total <= 60 {
        "Legendary Organ"@
    } else {
        "GOD OF SCHLONGS"@
    }
}

/// The Dick of the Day title, by length, of a winner now `total` cm long.
pub fn classic_dotd_title(total: i64) -> (r: &'static str)
    ensures
        r@ == spec_classic_dotd_title(total as int),
{
    if total <= 10 {
        "Tiny but Mighty"
    } else if total <= 20 {
        "Rising Star"
    } else if total <= 40 {
        "Impressive Member"
    } else if total <= 60 {
        "Legendary Organ"
    } else {
        "GOD OF SCHLONGS"
    }
}

} // verus!
