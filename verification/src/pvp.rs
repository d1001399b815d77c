use vstd::prelude::*;
use vstd::string::*;
use std::collections::HashMap;
use crate::dice::random_in_range;
use crate::member::{fits_i64, Member};
use crate::text::{append_unsigned, digit_char, int_decimal, nat_decimal, text_with_number};

verus! {

broadcast use vstd::std_specs::hash::group_hash_axioms;

/// How long an open challenge can be accepted, in seconds.
pub const PVP_CHALLENGE_TTL_SECONDS: u64 = 86400;
/// Range of a battle roll.
pub const PVP_ROLL_MIN: i64 = 1;
pub const PVP_ROLL_MAX: i64 = 100;

/// An open battle challenge: the bet, when it was posted (Unix seconds) and
/// the server it belongs to.
#[derive(Clone, Copy, Debug, PartialEq, Eq, Structural)]
pub struct PvpChallenge {
    pub bet: i64,
    pub created_at: u64,
    pub guild_id: u64,
}

/// The open challenges, one per challenger.
pub struct PvpBoard {
    pub challenges: HashMap<u64, PvpChallenge>,
}

impl View for PvpBoard {
    type V = Map<u64, PvpChallenge>;

    open spec fn view(&self) -> Map<u64, PvpChallenge> {
        self.challenges@
    }
}

/// Why a challenge could not be posted.
#[derive(Clone, Copy, Debug, PartialEq, Eq, Structural)]
pub enum PvpRefusal {
    /// Bets are of at least 1 cm.
    InvalidBet,
    /// The challenger holds only this much.
    InsufficientLength { has: i64 },
}

/// The first look at an accepted challenge.
#[derive(Clone, Copy, Debug, PartialEq, Eq, Structural)]
pub enum AcceptCheck {
    /// The challenger tried to accept their own challenge.
    SelfChallenge,
    /// No open challenge of that challenger.
    NoChallenge,
    /// The challenge was older than a day and is removed.
    Expired,
    /// The challenge is open.
    Open { bet: i64, guild_id: u64 },
}

/// Whether both players can still cover the bet.
#[derive(Clone, Copy, Debug, PartialEq, Eq, Structural)]
pub enum StakeCheck {
    /// The challenger no longer holds the bet; the challenge is removed.
    ChallengerShort { has: i64 },
    /// The accepting player does not hold the bet; the challenge stays open.
    ChallengedShort { has: i64 },
    /// Both can pay; the challenge is taken off the board and fought.
    Fight,
}

/// Whether a challenge posted at `created_at` has expired at `now`: the
/// elapsed time, counted modulo 2^64 as unsigned seconds, exceeds a day.
pub open spec fn challenge_expired(created_at: u64, now: u64) -> bool {
    if now >= created_at {
        now - created_at > PVP_CHALLENGE_TTL_SECONDS
    } else {
        now + 0x1_0000_0000_0000_0000 - created_at > PVP_CHALLENGE_TTL_SECONDS
    }
}

/// The first look at `challenger_id`'s challenge, accepted by
/// `challenged_id` at `now` on a board holding `board`: the answer and the
/// board afterwards. One's own challenge and a missing one are refused; an
/// expired one is removed; an open one is reported and stays.
pub open spec fn spec_accept_challenge(
    board: Map<u64, PvpChallenge>,
    challenger_id: u64,
    challenged_id: u64,
    now: u64,
) -> (AcceptCheck, Map<u64, PvpChallenge>) {
    if challenger_id == challenged_id {
        (AcceptCheck::SelfChallenge, board)
    } else if !board.contains_key(challenger_id) {
        (AcceptCheck::NoChallenge, board)
    } else if challenge_expired(board[challenger_id].created_at, now) {
        (AcceptCheck::Expired, board.remove(challenger_id))
    } else {
        (
            AcceptCheck::Open {
                bet: board[challenger_id].bet,
                guild_id: board[challenger_id].guild_id,
            },
            board,
        )
    }
}

/// The stake check of `challenger_id`'s challenge of `bet` cm: the answer
/// and the board afterwards. A challenger who no longer holds the bet loses
/// the challenge; an accepting player who does not leaves it open; otherwise
/// it is taken off the board to be fought.
pub open spec fn spec_check_stakes(
    board: Map<u64, PvpChallenge>,
    challenger_id: u64,
    bet: i64,
    challenger_length: i64,
    challenged_length: i64,
) -> (StakeCheck, Map<u64, PvpChallenge>) {
    if challenger_length < bet {
        (StakeCheck::ChallengerShort { has: challenger_length }, board.remove(challenger_id))
    } else if challenged_length < bet {
        (StakeCheck::ChallengedShort { has: challenged_length }, board)
    } else {
        (StakeCheck::Fight, board.remove(challenger_id))
    }
}

/// A challenge is fought at most once: once its stakes check out and the
/// fight starts, accepting the same challenge again, by anyone, finds no
/// challenge, until the challenger posts a new one.
pub proof fn lemma_challenge_fought_once(
    board: Map<u64, PvpChallenge>,
    challenger_id: u64,
    bet: i64,
    challenger_length: i64,
    challenged_length: i64,
    other_id: u64,
    now: u64,
)
    requires
        spec_check_stakes(board, challenger_id, bet, challenger_length, challenged_length).0
            == StakeCheck::Fight,
        other_id != challenger_id,
    ensures
        ({
            let after = spec_check_stakes(
                board,
                challenger_id,
                bet,
                challenger_length,
                challenged_length,
            ).1;
            spec_accept_challenge(after, challenger_id, other_id, now) == (
                AcceptCheck::NoChallenge,
                after,
            )
        }),
{
}

impl PvpBoard {
    /// An empty board.
    pub fn new() -> (b: PvpBoard)
        ensures
            b@ == Map::<u64, PvpChallenge>::empty(),
    {
        PvpBoard { challenges: HashMap::new() }
    }

    /// Posts a challenge of `bet` cm by `challenger_id`, who holds
    /// `challenger_length`, replacing any open challenge of theirs.
    pub fn post_challenge(
        &mut self,
        challenger_id: u64,
        guild_id: u64,
        bet: i64,
        challenger_length: i64,
        now: u64,
    ) -> (r: Result<(), PvpRefusal>)
        ensures
            bet <= 0 ==> r == Err::<(), PvpRefusal>(PvpRefusal::InvalidBet) && final(self)@ == old(self)@,
            bet > 0 && challenger_length < bet ==> r == Err::<(), PvpRefusal>(
                PvpRefusal::InsufficientLength { has: challenger_length },
            ) && final(self)@ == old(self)@,
            bet > 0 && challenger_length >= bet ==> r == Ok::<(), PvpRefusal>(()) && final(self)@
                == old(self)@.insert(challenger_id, PvpChallenge { bet, created_at: now, guild_id }),
    {
        if bet <= 0 {
            return Err(PvpRefusal::InvalidBet);
        }
        if challenger_length < bet {
            return Err(PvpRefusal::InsufficientLength { has: challenger_length });
        }
        self.challenges.insert(challenger_id, PvpChallenge { bet, created_at: now, guild_id });
        Ok(())
    }

    /// First step of accepting `challenger_id`'s challenge by
    /// `challenged_id` at `now`: refused for one's own challenge or a missing
    /// one; an expired challenge is removed; an open one is reported.
    pub fn accept_challenge(&mut self, challenger_id: u64, challenged_id: u64, now: u64) -> (r: AcceptCheck)
        ensures
            (r, final(self)@) == spec_accept_challenge(old(self)@, challenger_id, challenged_id, now),
    {
        if challenger_id == challenged_id {
            return AcceptCheck::SelfChallenge;
        }
        let (bet, created_at, guild_id) = match self.challenges.get(&challenger_id) {
            Some(c) => (c.bet, c.created_at, c.guild_id),
            None => return AcceptCheck::NoChallenge,
        };
        let expired = if now >= created_at {
            now - created_at > PVP_CHALLENGE_TTL_SECONDS
        } else {
            (u64::MAX - created_at) + now + 1 > PVP_CHALLENGE_TTL_SECONDS
        };
        if expired {
            self.challenges.remove(&challenger_id);
            return AcceptCheck::Expired;
        }
        AcceptCheck::Open { bet, guild_id }
    }

    /// Second step of accepting: both players must still hold the bet. A
    /// challenger who no longer does loses the challenge; an accepting player
    /// who does not leaves it open for others; otherwise it is taken off the
    /// board to be fought.
    pub fn check_stakes(
        &mut self,
        challenger_id: u64,
        bet: i64,
        challenger_length: i64,
        challenged_length: i64,
    ) -> (r: StakeCheck)
        ensures
            (r, final(self)@) == spec_check_stakes(
                old(self)@,
                challenger_id,
                bet,
                challenger_length,
                challenged_length,
            ),
    {
        if challenger_length < bet {
            self.challenges.remove(&challenger_id);
            return StakeCheck::ChallengerShort { has: challenger_length };
        }
        if challenged_length < bet {
            return StakeCheck::ChallengedShort { has: challenged_length };
        }
        self.challenges.remove(&challenger_id);
        StakeCheck::Fight
    }
}

/// Who won a battle.
#[derive(Clone, Copy, Debug, PartialEq, Eq, Structural)]
pub enum BattleResult {
    Tie,
    ChallengerWon,
    ChallengedWon,
}

/// The winner's record after winning `bet` cm.
pub open spec fn after_win(m: Member, bet: i64) -> Member {
    let streak = m.pvp_current_streak + 1;
    Member {
        length: (m.length + bet) as i64,
        pvp_wins: (m.pvp_wins + 1) as i64,
        pvp_current_streak: streak as i64,
        pvp_max_streak: if streak > m.pvp_max_streak {
            streak as i64
        } else {
            m.pvp_max_streak
        },
        cm_won: (m.cm_won + bet) as i64,
        ..m
    }
}

/// The loser's record after losing `bet` cm.
pub open spec fn after_loss(m: Member, bet: i64) -> Member {
    Member {
        length: (m.length - bet) as i64,
        pvp_losses: (m.pvp_losses + 1) as i64,
        pvp_current_streak: 0,
        cm_lost: (m.cm_lost + bet) as i64,
        ..m
    }
}

/// The arithmetic of winning `bet` cm stays within `i64`.
pub open spec fn can_win(m: Member, bet: i64) -> bool {
    &&& fits_i64(m.length + bet)
    &&& m.pvp_wins < i64::MAX
    &&& m.pvp_current_streak < i64::MAX
    &&& fits_i64(m.cm_won + bet)
}

/// The arithmetic of losing `bet` cm stays within `i64`.
pub open spec fn can_lose(m: Member, bet: i64) -> bool {
    &&& fits_i64(m.length - bet)
    &&& m.pvp_losses < i64::MAX
    &&& fits_i64(m.cm_lost + bet)
}

fn win(m: &mut Member, bet: i64)
    requires
        can_win(*old(m), bet),
    ensures
        *final(m) == after_win(*old(m), bet),
{
    let streak = m.pvp_current_streak + 1;
    m.length = m.length + bet;
    m.pvp_wins = m.pvp_wins + 1;
    m.pvp_current_streak = streak;
    if streak > m.pvp_max_streak {
        m.pvp_max_streak = streak;
    }
    m.cm_won = m.cm_won + bet;
}

fn lose(m: &mut Member, bet: i64)
    requires
        can_lose(*old(m), bet),
    ensures
        *final(m) == after_loss(*old(m), bet),
{
    m.length = m.length - bet;
    m.pvp_losses = m.pvp_losses + 1;
    m.pvp_current_streak = 0;
    m.cm_lost = m.cm_lost + bet;
}

/// Settles a battle of `bet` cm from the two rolls: the higher roll wins
/// the bet from the other; equal rolls leave both records as they were.
pub fn settle_battle(
    challenger: &mut Member,
    challenged: &mut Member,
    bet: i64,
    challenger_roll: i64,
    challenged_roll: i64,
) -> (r: BattleResult)
    requires
        challenger_roll > challenged_roll ==> can_win(*old(challenger), bet) && can_lose(
            *old(challenged),
            bet,
        ),
        challenger_roll < challenged_roll ==> can_win(*old(challenged), bet) && can_lose(
            *old(challenger),
            bet,
        ),
    ensures
        challenger_roll == challenged_roll ==> r == BattleResult::Tie && *final(challenger) == *old(
            challenger,
        ) && *final(challenged) == *old(challenged),
        challenger_roll > challenged_roll ==> r == BattleResult::ChallengerWon && *final(challenger)
            == after_win(*old(challenger), bet) && *final(challenged) == after_loss(
            *old(challenged),
            bet,
        ),
        challenger_roll < challenged_roll ==> r == BattleResult::ChallengedWon && *final(challenged)
            == after_win(*old(challenged), bet) && *final(challenger) == after_loss(
            *old(challenger),
            bet,
        ),
{
    if challenger_roll > challenged_roll {
        win(challenger, bet);
        lose(challenged, bet);
        BattleResult::ChallengerWon
    } else if challenger_roll < challenged_roll {
        win(challenged, bet);
        lose(challenger, bet);
        BattleResult::ChallengedWon
    } else {
        BattleResult::Tie
    }
}

/// A battle moves the bet from loser to winner and creates no length.
pub proof fn lemma_battle_conserves_length(winner: Member, loser: Member, bet: i64)
    requires
        can_win(winner, bet),
        can_lose(loser, bet),
    ensures
        after_win(winner, bet).length + after_loss(loser, bet).length == winner.length
            + loser.length,
        after_win(winner, bet).pvp_current_streak == winner.pvp_current_streak + 1,
        after_win(winner, bet).pvp_max_streak >= after_win(winner, bet).pvp_current_streak,
        after_loss(loser, bet).pvp_current_streak == 0,
{
}

/// A battle's tallies accumulate: the winner gains the bet in length and in
/// cm won, one more win and one more battle in the current streak (the best
/// streak keeps up with it); the loser gives up the bet in length, adds it to
/// the cm lost and one more loss, and the streak ends. Every other count of
/// the two records stays as it was.
pub proof fn lemma_battle_tallies_accumulate(winner: Member, loser: Member, bet: i64)
    requires
        can_win(winner, bet),
        can_lose(loser, bet),
    ensures
        ({
            let w = after_win(winner, bet);
            &&& w.length == winner.length + bet
            &&& w.cm_won == winner.cm_won + bet
            &&& w.pvp_wins == winner.pvp_wins + 1
            &&& w.pvp_current_streak == winner.pvp_current_streak + 1
            &&& w.pvp_max_streak == (if winner.pvp_current_streak + 1 > winner.pvp_max_streak {
                winner.pvp_current_streak + 1
            } else {
                winner.pvp_max_streak as int
            })
            &&& w.pvp_losses == winner.pvp_losses
            &&& w.cm_lost == winner.cm_lost
            &&& w.growth_count == winner.growth_count
            &&& w.prestige_level == winner.prestige_level
        }),
        ({
            let l = after_loss(loser, bet);
            &&& l.length == loser.length - bet
            &&& l.cm_lost == loser.cm_lost + bet
            &&& l.pvp_losses == loser.pvp_losses + 1
            &&& l.pvp_current_streak == 0
            &&& l.pvp_wins == loser.pvp_wins
            &&& l.pvp_max_streak == loser.pvp_max_streak
            &&& l.cm_won == loser.cm_won
            &&& l.growth_count == loser.growth_count
        }),
{
}

/// Draws the two battle rolls from `PVP_ROLL_MIN..=PVP_ROLL_MAX`.
pub fn roll_battle() -> (r: (i64, i64))
    ensures
        PVP_ROLL_MIN <= r.0 <= PVP_ROLL_MAX,
        PVP_ROLL_MIN <= r.1 <= PVP_ROLL_MAX,
{
    let a = random_in_range(PVP_ROLL_MIN, PVP_ROLL_MAX);
    let b = random_in_range(PVP_ROLL_MIN, PVP_ROLL_MAX);
    (a, b)
}

/// The component id of the accept button of `challenger_id`'s challenge.
pub open spec fn spec_accept_id(challenger_id: u64) -> Seq<char> {
    "pvp_accept:"@ + nat_decimal(challenger_id as nat)
}

/// The component id of the accept button of a challenge.
pub fn pvp_accept_custom_id(challenger_id: u64) -> (r: String)
    ensures
        r@ == spec_accept_id(challenger_id),
{
    let mut s = String::from_str("pvp_accept:");
    append_unsigned(&mut s, challenger_id);
    s
}

/// Whether `c` is an ASCII decimal digit.
pub open spec fn is_digit(c: char) -> bool {
    '0' <= c <= '9'
}

/// `s` without a leading '+', if it has one.
pub open spec fn unsigned_digits(s: Seq<char>) -> Seq<char> {
    if s.len() > 0 && s[0] == '+' {
        s.drop_first()
    } else {
        s
    }
}

/// Whether every character of `d` is a decimal digit.
pub open spec fn all_digits(d: Seq<char>) -> bool {
    forall|i: int| 0 <= i < d.len() ==> is_digit(#[trigger] d[i])
}

/// The number a sequence of decimal digits spells.
pub open spec fn digits_value(s: Seq<char>) -> int
    decreases s.len(),
{
    if s.len() == 0 {
        0
    } else {
        digits_value(s.drop_last()) * 10 + (s.last() as int - '0' as int)
    }
}

/// What reading `s` as an unsigned 64-bit decimal gives: an optional '+'
/// followed by at least one digit and nothing else, of a value that fits.
pub open spec fn parse_u64_text(s: Seq<char>) -> Option<u64> {
    let d = unsigned_digits(s);
    if d.len() > 0 && all_digits(d) && digits_value(d) <= u64::MAX {
        Some(digits_value(d) as u64)
    } else {
        None
    }
}

/// The index of the first ':' of `s` at or after `start` (the length of `s`
/// when there is none).
pub open spec fn first_colon_from(s: Seq<char>, start: int) -> int
    decreases s.len() - start,
{
    if start >= s.len() {
        s.len() as int
    } else if s[start] == ':' {
        start
    } else {
        first_colon_from(s, start + 1)
    }
}

/// The second ':'-separated field of `s` (empty when `s` has no ':').
pub open spec fn second_field(s: Seq<char>) -> Seq<char> {
    let i = first_colon_from(s, 0);
    if i >= s.len() {
        Seq::empty()
    } else {
        s.subrange(i + 1, first_colon_from(s, i + 1))
    }
}

/// The challenger an accept button names: the second ':'-separated field of
/// its id read as an unsigned number, or 0 when it does not read as one.
pub open spec fn spec_accept_challenger(custom_id: Seq<char>) -> u64 {
    match parse_u64_text(second_field(custom_id)) {
        Some(v) => v,
        None => 0,
    }
}

fn find_colon(s: &str, start: usize) -> (r: usize)
    requires
        start <= s@.len(),
    ensures
        r == first_colon_from(s@, start as int),
        start <= r <= s@.len(),
{
    let n = s.unicode_len();
    let mut k = start;
    while k < n
        invariant
            n == s@.len(),
            start <= k <= n,
            first_colon_from(s@, start as int) == first_colon_from(s@, k as int),
        decreases n - k,
    {
        if s.get_char(k) == ':' {
            return k;
        }
        k = k + 1;
    }
    k
}

proof fn lemma_digits_value_prefix(d: Seq<char>, k: int)
    requires
        0 <= k <= d.len(),
        forall|i: int| 0 <= i < d.len() ==> is_digit(#[trigger] d[i]),
    ensures
        digits_value(d.take(k)) <= digits_value(d),
        0 <= digits_value(d.take(k)),
    decreases d.len(),
{
    if k < d.len() {
        assert(d.drop_last().take(k) =~= d.take(k));
        lemma_digits_value_prefix(d.drop_last(), k);
        lemma_digits_value_prefix(d.drop_last(), d.len() - 1);
        assert(d.drop_last().take(d.len() - 1) =~= d.drop_last());
        assert(is_digit(d.last()));
    } else {
        assert(d.take(k) =~= d);
        if d.len() > 0 {
            lemma_digits_value_prefix(d.drop_last(), d.len() - 1);
            assert(d.drop_last().take(d.len() - 1) =~= d.drop_last());
            assert(is_digit(d.last()));
        }
    }
}

/// Reads the characters `from..to` of `s` as an unsigned decimal.
fn parse_unsigned(s: &str, from: usize, to: usize) -> (r: Option<u64>)
    requires
        from <= to <= s@.len(),
    ensures
        r == parse_u64_text(s@.subrange(from as int, to as int)),
{
    let ghost text = s@.subrange(from as int, to as int);
    let mut start = from;
    if from < to {
        let c0 = s.get_char(from);
        assert(text[0] == c0);
        if c0 == '+' {
            start = from + 1;
        }
    }
    let ghost d = s@.subrange(start as int, to as int);
    proof {
        if text.len() > 0 && text[0] == '+' {
            assert(d =~= text.drop_first());
        } else {
            assert(d =~= text);
        }
    }
    assert(d == unsigned_digits(text));
    if start >= to {
        return None;
    }
    let mut value: u64 = 0;
    let mut k = start;
    while k < to
        invariant
            from <= start < to <= s@.len(),
            start <= k <= to,
            d == s@.subrange(start as int, to as int),
            text == s@.subrange(from as int, to as int),
            d == unsigned_digits(text),
            forall|i: int| 0 <= i < k - start ==> is_digit(#[trigger] d[i]),
            value == digits_value(d.take(k - start)),
        decreases to - k,
    {
        let c = s.get_char(k);
        assert(d[k - start] == c);
        if !('0' <= c && c <= '9') {
            assert(!is_digit(d[k - start]));
            assert(!all_digits(d));
            return None;
        }
        let digit: u64 = (c as u32 - '0' as u32) as u64;
        assert(d.take(k - start + 1).drop_last() =~= d.take(k - start));
        assert(d.take(k - start + 1).last() == c);
        assert(digit == c as int - '0' as int);
        assert(digits_value(d.take(k - start + 1)) == value * 10 + digit);
        if value > (u64::MAX - digit) / 10 {
            proof {
                assert(forall|i: int| 0 <= i < k - start + 1 ==> is_digit(#[trigger] d.take(k - start + 1)[i]));
                assert(digits_value(d.take(k - start + 1)) > u64::MAX) by (nonlinear_arith)
                    requires
                        value > (u64::MAX - digit) / 10,
                        digits_value(d.take(k - start + 1)) == value * 10 + digit,
                        digit <= 9,
                ;
                if forall|i: int| 0 <= i < d.len() ==> is_digit(#[trigger] d[i]) {
                    lemma_digits_value_prefix(d, k - start + 1);
                }
            }
            return None;
        }
        value = value * 10 + digit;
        k = k + 1;
    }
    assert(d.take(to - start) =~= d);
    Some(value)
}

/// Whether a component id is that of a challenge's accept button.
pub open spec fn spec_is_accept_id(custom_id: Seq<char>) -> bool {
    custom_id.len() >= 11 && custom_id.take(11) == "pvp_accept:"@
}

/// Whether a component id is that of a challenge's accept button.
pub fn is_pvp_accept(custom_id: &str) -> (r: bool)
    ensures
        r == spec_is_accept_id(custom_id@),
{
    let prefix = "pvp_accept:";
    proof {
        reveal_strlit("pvp_accept:");
    }
    let n = custom_id.unicode_len();
    if n < 11 {
        return false;
    }
    let mut i: usize = 0;
    while i < 11
        invariant
            n == custom_id@.len(),
            n >= 11,
            prefix@ == "pvp_accept:"@,
            prefix@.len() == 11,
            i <= 11,
            forall|j: int| 0 <= j < i ==> custom_id@[j] == prefix@[j],
        decreases 11 - i,
    {
        if custom_id.get_char(i) != prefix.get_char(i) {
            assert(custom_id@.take(11)[i as int] != "pvp_accept:"@[i as int]);
            return false;
        }
        i = i + 1;
    }
    assert(custom_id@.take(11) =~= "pvp_accept:"@);
    true
}

/// The challenger an accept button names.
pub fn pvp_accept_challenger(custom_id: &str) -> (r: u64)
    ensures
        r == spec_accept_challenger(custom_id@),
{
    let n = custom_id.unicode_len();
    let i = find_colon(custom_id, 0);
    if i >= n {
        proof {
            assert(second_field(custom_id@) =~= Seq::<char>::empty());
        }
        return 0;
    }
    let j = find_colon(custom_id, i + 1);
    match parse_unsigned(custom_id, i + 1, j) {
        Some(v) => v,
        None => 0,
    }
}

proof fn lemma_decimal_digits(n: nat)
    ensures
        nat_decimal(n).len() > 0,
        all_digits(nat_decimal(n)),
        digits_value(nat_decimal(n)) == n,
    decreases n,
{
    let d = (n % 10) as nat;
    assert(('0' as int + d) as char as int == '0' as int + d);
    if n >= 10 {
        lemma_decimal_digits(n / 10);
        let s = nat_decimal(n);
        assert(s.drop_last() =~= nat_decimal(n / 10));
        assert(s.last() == digit_char(d));
        vstd::arithmetic::div_mod::lemma_fundamental_div_mod(n as int, 10);
        assert(digits_value(s) == digits_value(nat_decimal(n / 10)) * 10 + d);
        assert forall|i: int| 0 <= i < s.len() implies is_digit(#[trigger] s[i]) by {
            if i < s.len() - 1 {
                assert(s[i] == nat_decimal(n / 10)[i]);
            }
        }
    } else {
        let s = nat_decimal(n);
        assert(s.drop_last() =~= Seq::<char>::empty());
        assert(digits_value(s.drop_last()) == 0);
        assert(n % 10 == n);
    }
}

proof fn lemma_no_colon_to_end(s: Seq<char>, start: int)
    requires
        0 <= start <= s.len(),
        forall|k: int| start <= k < s.len() ==> s[k] != ':',
    ensures
        first_colon_from(s, start) == s.len(),
    decreases s.len() - start,
{
    if start < s.len() {
        lemma_no_colon_to_end(s, start + 1);
    }
}

/// Reading back the challenger of an accept button built for a challenger
/// gives that challenger.
pub proof fn lemma_accept_id_round_trip(challenger_id: u64)
    ensures
        spec_is_accept_id(spec_accept_id(challenger_id)),
        spec_accept_challenger(spec_accept_id(challenger_id)) == challenger_id,
{
    reveal_strlit("pvp_accept:");
    let dec = nat_decimal(challenger_id as nat);
    lemma_decimal_digits(challenger_id as nat);
    let s = spec_accept_id(challenger_id);
    assert(s.take(11) =~= "pvp_accept:"@);
    assert(s.len() == 11 + dec.len());
    assert forall|k: int| 11 <= k < s.len() implies s[k] != ':' by {
        assert(s[k] == dec[k - 11]);
        assert(is_digit(dec[k - 11]));
    }
    lemma_no_colon_to_end(s, 11);
    assert(s[10] == ':');
    assert(first_colon_from(s, 10) == 10);
    assert(first_colon_from(s, 9) == 10);
    assert(first_colon_from(s, 8) == 10);
    assert(first_colon_from(s, 7) == 10);
    assert(first_colon_from(s, 6) == 10);
    assert(first_colon_from(s, 5) == 10);
    assert(first_colon_from(s, 4) == 10);
    assert(first_colon_from(s, 3) == 10);
    assert(first_colon_from(s, 2) == 10);
    assert(first_colon_from(s, 1) == 10);
    assert(first_colon_from(s, 0) == 10);
    assert(second_field(s) =~= dec);
    assert(is_digit(dec[0]));
    assert(unsigned_digits(dec) == dec);
}

/// How a challenge's bet is described when it is posted.
pub open spec fn spec_bet_description(bet: int) -> Seq<char> {
    if bet >= 50 {
        "**HOLY MOLY!** This is a high-stakes dick measuring contest!"@
    } else if bet >= 25 {
        "That's quite a sizeable wager! Someone's feeling confident!"@
    } else if bet >= 10 {
        "A decent bet! More than a day's growth on the line."@
    } else if bet >= 5 {
        "A reasonable bet for a friendly competition."@
    } else {
        "A cautious bet. Not everyone's ready to risk their precious centimeters!"@
    }
}

/// The description of a posted challenge's bet.
pub fn bet_description(bet: i64) -> (r: &'static str)
    ensures
        r@ == spec_bet_description(bet as int),
{
    if bet >= 50 {
        "**HOLY MOLY!** This is a high-stakes dick measuring contest!"
    } else if bet >= 25 {
        "That's quite a sizeable wager! Someone's feeling confident!"
    } else if bet >= 10 {
        "A decent bet! More than a day's growth on the line."
    } else if bet >= 5 {
        "A reasonable bet for a friendly competition."
    } else {
        "A cautious bet. Not everyone's ready to risk their precious centimeters!"
    }
}

/// The comment on a tied battle of `bet` cm.
pub open spec fn spec_tie_comment(bet: int) -> Seq<char> {
    if bet >= 30 {
        "A "@ + int_decimal(bet) + " cm bet and it ends in a tie?! The dick gods must be laughing!"@
    } else if bet >= 15 {
        "Insanity! Neither dick emerged victorious today!"@
    } else {
        "What are the odds?! Both measuring exactly the same!"@
    }
}

/// The comment shown for a tied battle.
pub fn tie_comment(bet: i64) -> (r: String)
    ensures
        r@ == spec_tie_comment(bet as int),
{
    if bet >= 30 {
        text_with_number(
            "A ",
            bet,
            " cm bet and it ends in a tie?! The dick gods must be laughing!",
        )
    } else if bet >= 15 {
        String::from_str("Insanity! Neither dick emerged victorious today!")
    } else {
        String::from_str("What are the odds?! Both measuring exactly the same!")
    }
}

/// Which taunt a won battle earns, from the margin between the rolls and
/// the size of the bet.
#[derive(Clone, Copy, Debug, PartialEq, Eq, Structural)]
pub enum TauntTier {
    /// Margin over 50 and a bet of 30 or more.
    HistoricBeatdown,
    /// Margin over 50.
    Massacre,
    /// Margin over 20 and a bet of 20 or more.
    OutclassedForBet,
    /// Margin over 20.
    Outclassed,
    /// Margin over 5 and a bet of 15 or more.
    CloseForBet,
    /// Margin over 5.
    Close,
    /// Margin of 5 or less and a bet of 25 or more.
    NailBiter,
    /// Margin of 5 or less.
    Hairline,
}

pub open spec fn spec_taunt_tier(margin: int, bet: int) -> TauntTier {
    if margin > 50 {
        if bet >= 30 { TauntTier::HistoricBeatdown } else { TauntTier::Massacre }
    } else if margin > 20 {
        if bet >= 20 { TauntTier::OutclassedForBet } else { TauntTier::Outclassed }
    } else if margin > 5 {
        if bet >= 15 { TauntTier::CloseForBet } else { TauntTier::Close }
    } else if bet >= 25 {
        TauntTier::NailBiter
    } else {
        TauntTier::Hairline
    }
}

/// The taunt tier of a battle won by `winner_roll` over `loser_roll`.
pub fn taunt_tier(winner_roll: i64, loser_roll: i64, bet: i64) -> (r: TauntTier)
    requires
        PVP_ROLL_MIN <= winner_roll <= PVP_ROLL_MAX,
        PVP_ROLL_MIN <= loser_roll <= PVP_ROLL_MAX,
    ensures
        r == spec_taunt_tier(winner_roll - loser_roll, bet as int),
{
    let margin = winner_roll - loser_roll;
    if margin > 50 {
        if bet >= 30 { TauntTier::HistoricBeatdown } else { TauntTier::Massacre }
    } else if margin > 20 {
        if bet >= 20 { TauntTier::OutclassedForBet } else { TauntTier::Outclassed }
    } else if margin > 5 {
        if bet >= 15 { TauntTier::CloseForBet } else { TauntTier::Close }
    } else if bet >= 25 {
        TauntTier::NailBiter
    } else {
        TauntTier::Hairline
    }
}

/// The remark on the size of a battle's bet.
pub open spec fn spec_bet_comment(bet: int) -> Seq<char> {
    if bet >= 50 {
        "\n\n💰 **MASSIVE BET!** "@ + int_decimal(bet)
            + " cm is roughly a week's worth of growth! Talk about high stakes!"@
    } else if bet >= 30 {
        "\n\n💰 A **huge "@ + int_decimal(bet) + " cm bet**! That's several days of growth on the line!"@
    } else if bet >= 15 {
        "\n\n💰 A solid **"@ + int_decimal(bet) + " cm bet** - more than a day's worth of growth!"@
    } else if bet >= 10 {
        "\n\n💰 A respectable wager, putting a full day's growth at stake!"@
    } else {
        Seq::empty()
    }
}

/// The remark added to a battle's result on the size of its bet.
pub fn bet_comment(bet: i64) -> (r: String)
    ensures
        r@ == spec_bet_comment(bet as int),
{
    if bet >= 50 {
        text_with_number(
            "\n\n💰 **MASSIVE BET!** ",
            bet,
            " cm is roughly a week's worth of growth! Talk about high stakes!",
        )
    } else if bet >= 30 {
        text_with_number(
            "\n\n💰 A **huge ",
            bet,
            " cm bet**! That's several days of growth on the line!",
        )
    } else if bet >= 15 {
        text_with_number(
            "\n\n💰 A solid **",
            bet,
            " cm bet** - more than a day's worth of growth!",
        )
    } else if bet >= 10 {
        String::from_str("\n\n💰 A respectable wager, putting a full day's growth at stake!")
    } else {
        String::new()
    }
}

/// How a winning streak is celebrated.
#[derive(Clone, Copy, Debug, PartialEq, Eq, Structural)]
pub enum StreakFlair {
    /// Under three wins in a row.
    Plain,
    /// Three or four wins in a row.
    OnFire,
    /// Five or more wins in a row.
    Dominating,
}

/// The celebration of a winning streak of `streak` battles.
pub fn streak_flair(streak: i64) -> (r: StreakFlair)
    ensures
        r == (if streak >= 5 {
            StreakFlair::Dominating
        } else if streak >= 3 {
            StreakFlair::OnFire
        } else {
            StreakFlair::Plain
        }),
{
    if streak >= 5 {
        StreakFlair::Dominating
    } else if streak >= 3 {
        StreakFlair::OnFire
    } else {
        StreakFlair::Plain
    }
}

} // verus!
