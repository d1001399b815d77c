use dick_grower::board::GuildNames;
use dick_grower::clock::stored_datetime_text;
use dick_grower::dotd::dotd_wait;
use dick_grower::gift::gift_length;
use dick_grower::member::Member;
use dick_grower::prestige::{calculate_prestige_growth_bonus, required_length_for_next_prestige};
use dick_grower::pvp::{settle_battle, AcceptCheck, PvpBoard, StakeCheck};
use dick_grower::streak::streak_reward_cm;
use dick_grower::time::{check_utc_day_reset_at, utc_day_of};
use dick_grower::viagra::ViagraRefusal;

const NOON: i64 = 1710072000; // 2024-03-10 12:00:00 UTC

#[test]
fn a_fought_challenge_cannot_be_accepted_again() {
    let mut board = PvpBoard::new();
    board.post_challenge(1, 9, 10, 50, 1000).unwrap();
    assert_eq!(board.accept_challenge(1, 2, 1000), AcceptCheck::Open { bet: 10, guild_id: 9 });
    assert_eq!(board.check_stakes(1, 10, 50, 20), StakeCheck::Fight);
    assert_eq!(board.accept_challenge(1, 3, 1001), AcceptCheck::NoChallenge);
    assert_eq!(board.accept_challenge(1, 2, 1001), AcceptCheck::NoChallenge);
    // A fresh challenge can be fought again.
    board.post_challenge(1, 9, 5, 50, 2000).unwrap();
    assert_eq!(board.accept_challenge(1, 3, 2001), AcceptCheck::Open { bet: 5, guild_id: 9 });
}

#[test]
fn the_wait_until_the_next_utc_day_is_exact() {
    for now in [NOON, NOON + 43199, NOON - 43200, -1, 0, 86399, -86401] {
        let (_, wait) = check_utc_day_reset_at(now, now);
        assert!(wait >= 1 && wait <= 86400);
        assert_eq!(utc_day_of(now + wait), utc_day_of(now) + 1);
        assert_eq!(utc_day_of(now + wait - 1), utc_day_of(now));
    }
}

#[test]
fn dick_of_the_day_once_per_24_hours() {
    let last = "2024-03-10 00:00:00";
    let awarded = NOON - 43200;
    for now in [awarded, NOON, NOON + 43199] {
        let wait = dotd_wait(last, now);
        assert!(wait > 0);
        assert_eq!(now + wait, awarded + 86400);
    }
    assert_eq!(dotd_wait(last, NOON + 43200), 0);
}

#[test]
fn stored_times_read_back() {
    assert_eq!(stored_datetime_text(NOON), "2024-03-10 12:00:00");
    assert_eq!(dotd_wait(&stored_datetime_text(NOON), NOON + 1), 86399);
}

#[test]
fn prestige_bonus_has_diminishing_returns() {
    let mut previous = calculate_prestige_growth_bonus(0);
    assert_eq!(previous, 0);
    for level in 1..=5000i64 {
        let bonus = calculate_prestige_growth_bonus(level);
        assert!(bonus == previous || bonus == previous + 1);
        assert!(bonus <= level);
        previous = bonus;
    }
    for level in 0..60i64 {
        assert!(required_length_for_next_prestige(level) <= required_length_for_next_prestige(level + 1));
    }
}

#[test]
fn streak_payout_never_shrinks() {
    let mut previous = streak_reward_cm(i64::MIN);
    for streak in -5..200i64 {
        let r = streak_reward_cm(streak);
        assert!(r >= previous && (1..=5).contains(&r));
        previous = r;
    }
}

#[test]
fn gifts_and_battles_keep_the_total_length() {
    let mut a = Member::new(NOON);
    let mut b = Member::new(NOON);
    a.length = 100;
    b.length = 3;
    gift_length(1, 2, 40, &mut a, &mut b).unwrap();
    assert_eq!(a.length + b.length, 103);
    settle_battle(&mut a, &mut b, 20, 90, 10);
    assert_eq!(a.length + b.length, 103);
    settle_battle(&mut a, &mut b, 20, 10, 90);
    assert_eq!(a.length + b.length, 103);
}

#[test]
fn viagra_is_refused_until_its_cooldown_ends() {
    let mut m = Member::new(NOON);
    let until = m.take_viagra(NOON, None).unwrap();
    assert_eq!(until, NOON + 6 * 3600);
    assert_eq!(m.take_viagra(NOON + 1, None), Err(ViagraRefusal::AlreadyActive { active_until: until }));
    assert_eq!(
        m.take_viagra(NOON + 6 * 3600, None),
        Err(ViagraRefusal::Cooldown { remaining: 66 * 3600 })
    );
    assert_eq!(m.take_viagra(NOON + 72 * 3600 - 1, None), Err(ViagraRefusal::Cooldown { remaining: 1 }));
    assert!(m.take_viagra(NOON + 72 * 3600, None).is_ok());
}

#[test]
fn server_names_stay_fresh_for_exactly_half_a_day() {
    let mut names = GuildNames::new();
    names.remember(1, "One".to_string(), 0);
    for t in [0u64, 1, 43199] {
        assert_eq!(names.fresh_name(1, t), Some("One".to_string()));
    }
    for t in [43200u64, 100000] {
        assert_eq!(names.fresh_name(1, t), None);
    }
}
