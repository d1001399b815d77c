use dick_grower::clock::{MAX_EPOCH_DAY, MAX_UTC_TIMESTAMP, MIN_EPOCH_DAY, MIN_UTC_TIMESTAMP};
use dick_grower::daily::{DailyReward, DAILY_BONUS_CM_MAX, DAILY_BONUS_CM_MIN};
use dick_grower::events::{EventKind, GlobalEvent};
use dick_grower::grow::{growth_tier, GrowRolls, GrowthTier};
use dick_grower::member::{DailyCounter, Member, MemberRow};
use dick_grower::prestige::{calculate_prestige_growth_bonus, prestige_title, required_length_for_next_prestige, PrestigeRefusal};
use dick_grower::streak::{streak_claim_reward_cm, GrowthStreakUpdate, StreakClaimRefusal};
use dick_grower::viagra::{get_viagra_status, is_viagra_active, NextViagra, ViagraRefusal};

const NOON: i64 = 1710072000; // 2024-03-10 12:00:00 UTC
const TODAY: i64 = 19792;

fn member() -> Member {
    Member::new(NOON - 2 * 86400)
}

fn event(kind: EventKind, bonus_value: i64) -> GlobalEvent {
    GlobalEvent { id: 1, kind, name: "Ev".to_string(), description: String::new(), bonus_value, ends_at: NOON + 3600 }
}

fn rolls(first: i64, second: i64) -> GrowRolls {
    GrowRolls { first, second, jackpot_hit: false }
}

#[test]
fn stored_rows_are_read_and_written() {
    let row = MemberRow {
        length: 42,
        last_grow: "2024-03-10 12:00:00".to_string(),
        growth_count: 3,
        dick_of_day_count: 1,
        pvp_wins: 2,
        pvp_losses: 1,
        pvp_max_streak: 2,
        pvp_current_streak: 0,
        cm_won: 10,
        cm_lost: 5,
        prestige_level: 1,
        prestige_points: 100,
        viagra_last_used: Some("2024-03-09 06:30:00".to_string()),
        viagra_active_until: Some("garbage".to_string()),
        daily_last_claimed: None,
        daily_growth_boost_percent: 50,
        daily_cooldown_skips: 1,
        daily_streak_savers: 2,
        daily_lucky_rolls: 3,
        daily_streak: 4,
        best_daily_streak: 5,
        last_streak_date: Some("2024-03-10".to_string()),
        streak_last_claimed: Some("2024-03-10 12:00:01".to_string()),
    };
    let m = Member::from_row(&row);
    assert_eq!(m.last_grow, NOON);
    assert_eq!(m.viagra_last_used, Some(NOON - 86400 - 5 * 3600 - 1800));
    assert_eq!(m.viagra_active_until, None);
    assert_eq!(m.daily_last_claimed, None);
    assert_eq!(m.last_streak_day, Some(TODAY));
    assert_eq!(m.streak_last_claimed, Some(NOON + 1));
    assert_eq!(m.length, 42);
    assert_eq!(m.daily_lucky_rolls, 3);
    let back = m.to_row();
    assert_eq!(back.last_grow, "2024-03-10 12:00:00");
    assert_eq!(back.viagra_last_used.as_deref(), Some("2024-03-09 06:30:00"));
    assert_eq!(back.viagra_active_until, None);
    assert_eq!(back.last_streak_date.as_deref(), Some("2024-03-10"));
    assert_eq!(back.prestige_points, 100);
    let mut bad = row.clone();
    bad.last_grow = "not a time".to_string();
    assert_eq!(Member::from_row(&bad).last_grow, 0);
}

#[test]
fn a_written_record_reads_back_unchanged() {
    let mut m = member();
    m.length = -7;
    m.viagra_last_used = Some(MIN_UTC_TIMESTAMP);
    m.viagra_active_until = Some(MAX_UTC_TIMESTAMP);
    m.daily_last_claimed = Some(-62135596800); // year 1
    m.streak_last_claimed = Some(253402300800); // year 10000
    m.last_streak_day = Some(MIN_EPOCH_DAY);
    m.prestige_level = 3;
    assert_eq!(Member::from_row(&m.to_row()), m);
    m.last_grow = -1;
    m.last_streak_day = Some(MAX_EPOCH_DAY);
    m.daily_last_claimed = None;
    assert_eq!(Member::from_row(&m.to_row()), m);
    assert_eq!(m.to_row().streak_last_claimed.as_deref(), Some("+10000-01-01 00:00:00"));
}

#[test]
fn single_use_rewards_are_used_once() {
    let mut m = member();
    m.daily_cooldown_skips = 1;
    assert!(m.consume_cooldown_skip());
    assert_eq!(m.daily_cooldown_skips, 0);
    assert!(!m.consume_cooldown_skip());
    assert_eq!(m.daily_cooldown_skips, 0);
    m.daily_lucky_rolls = -2;
    assert!(!m.consume_lucky_roll());
    assert_eq!(m.daily_lucky_rolls, -2);
    m.decrement_daily_counter(DailyCounter::LuckyRolls);
    assert_eq!(m.daily_lucky_rolls, 0);
    m.increment_daily_counter(DailyCounter::StreakSavers, NOON);
    assert_eq!(m.daily_streak_savers, 1);
    assert_eq!(m.daily_last_claimed, Some(NOON));
    assert!(m.consume_daily_counter(DailyCounter::StreakSavers));
    m.daily_growth_boost_percent = 50;
    assert_eq!(m.consume_daily_growth_boost_percent(), Some(50));
    assert_eq!(m.daily_growth_boost_percent, 0);
    assert_eq!(m.consume_daily_growth_boost_percent(), None);
}

#[test]
fn growth_streak_steps() {
    let mut m = member();
    assert_eq!(m.update_growth_streak(TODAY), Some(GrowthStreakUpdate { streak: 1, used_streak_saver: false }));
    assert_eq!(m.update_growth_streak(TODAY), None);
    assert_eq!(m.update_growth_streak(TODAY + 1), Some(GrowthStreakUpdate { streak: 2, used_streak_saver: false }));
    assert_eq!(m.best_daily_streak, 2);
    // one missed day without a saver restarts the streak
    assert_eq!(m.update_growth_streak(TODAY + 3), Some(GrowthStreakUpdate { streak: 1, used_streak_saver: false }));
    assert_eq!(m.best_daily_streak, 2);
    // with a saver it survives and the saver is spent
    m.update_growth_streak(TODAY + 4);
    m.daily_streak_savers = 1;
    assert_eq!(m.update_growth_streak(TODAY + 6), Some(GrowthStreakUpdate { streak: 3, used_streak_saver: true }));
    assert_eq!(m.daily_streak_savers, 0);
    assert_eq!(m.best_daily_streak, 3);
    assert_eq!(m.last_streak_day, Some(TODAY + 6));
}

#[test]
fn streak_command_pays_once_after_growing() {
    let mut m = member();
    assert_eq!(m.claim_streak_reward(NOON), Err(StreakClaimRefusal::GrowFirst));
    m.update_growth_streak(TODAY);
    m.daily_streak = 4;
    m.length = 10;
    let claim = m.claim_streak_reward(NOON).unwrap();
    assert_eq!(claim.reward, 8);
    assert_eq!(claim.new_length, 18);
    assert_eq!(m.claim_streak_reward(NOON + 60), Err(StreakClaimRefusal::AlreadyClaimed { wait_seconds: 12 * 3600 - 60 }));
    assert_eq!(streak_claim_reward_cm(0), 2);
    assert_eq!(streak_claim_reward_cm(1), 2);
    assert_eq!(streak_claim_reward_cm(7), 14);
    assert_eq!(streak_claim_reward_cm(15), 30);
    assert_eq!(streak_claim_reward_cm(100), 30);
    for s in -10..100i64 {
        assert_eq!(streak_claim_reward_cm(s), (s * 2).clamp(2, 30));
    }
}

#[test]
fn viagra_activation_and_cooldown() {
    let mut m = member();
    assert_eq!(m.take_viagra(NOON, None), Ok(NOON + 6 * 3600));
    assert!(m.viagra_active_at(NOON + 3600));
    assert!(!m.viagra_active_at(NOON + 6 * 3600));
    assert_eq!(m.take_viagra(NOON + 60, None), Err(ViagraRefusal::AlreadyActive { active_until: NOON + 6 * 3600 }));
    assert_eq!(m.take_viagra(NOON + 7 * 3600, None), Err(ViagraRefusal::Cooldown { remaining: 65 * 3600 }));
    let longer = event(EventKind::LongerViagra, 12);
    assert_eq!(m.take_viagra(NOON + 72 * 3600, Some(&longer)), Ok(NOON + 84 * 3600));
    assert_eq!(m.viagra_last_used, Some(NOON + 72 * 3600));
}

#[test]
fn viagra_status_from_stored_times() {
    assert!(is_viagra_active(Some("2024-03-10 18:00:00"), NOON));
    assert!(!is_viagra_active(Some("2024-03-10 12:00:00"), NOON));
    assert!(!is_viagra_active(Some("??"), NOON));
    assert!(!is_viagra_active(None, NOON));
    let s = get_viagra_status(Some("2024-03-10 18:00:00"), Some("2024-03-10 12:00:00"), NOON);
    assert!(s.active);
    assert_eq!(s.effect_ends, Some(NOON + 6 * 3600));
    assert_eq!(s.next_available, NextViagra::At(NOON + 72 * 3600));
    let s = get_viagra_status(None, None, NOON);
    assert!(!s.active);
    assert_eq!(s.effect_ends, None);
    assert_eq!(s.next_available, NextViagra::Now);
    let s = get_viagra_status(Some("2024-03-01 00:00:00"), Some("2024-03-01 00:00:00"), NOON);
    assert_eq!(s.next_available, NextViagra::Now);
    let s = get_viagra_status(None, Some("bad"), NOON);
    assert_eq!(s.next_available, NextViagra::Unknown);
}

#[test]
fn daily_rewards_by_roll() {
    let mut m = member();
    m.length = 10;
    assert_eq!(m.claim_daily_with(NOON, 0, 7), Ok(DailyReward::BonusCm { bonus: 7, new_length: 17 }));
    assert_eq!(m.length, 17);
    assert_eq!(m.daily_last_claimed, Some(NOON));
    assert_eq!(m.claim_daily_with(NOON + 3600, 1, 7), Err(11 * 3600));
    let next_day = NOON + 86400;
    assert_eq!(m.claim_daily_with(next_day, 1, 7), Ok(DailyReward::GrowthBoost { percent: 50 }));
    assert_eq!(m.daily_growth_boost_percent, 50);
    assert_eq!(m.claim_daily_with(next_day + 86400, 2, 7), Ok(DailyReward::CooldownSkip));
    assert_eq!(m.daily_cooldown_skips, 1);
    assert_eq!(m.claim_daily_with(next_day + 2 * 86400, 3, 7), Ok(DailyReward::StreakSaver));
    assert_eq!(m.daily_streak_savers, 1);
    assert_eq!(m.claim_daily_with(next_day + 3 * 86400, 4, 7), Ok(DailyReward::LuckyRoll));
    assert_eq!(m.daily_lucky_rolls, 1);
    assert_eq!(m.length, 17);
}

#[test]
fn daily_claim_draws_a_reward() {
    for _ in 0..50 {
        let mut m = member();
        match m.claim_daily(NOON) {
            Ok(DailyReward::BonusCm { bonus, new_length }) => {
                assert!((DAILY_BONUS_CM_MIN..=DAILY_BONUS_CM_MAX).contains(&bonus));
                assert_eq!(new_length, bonus);
            }
            Ok(_) => {}
            Err(w) => panic!("refused {}", w),
        }
        assert!(m.claim_daily(NOON + 1).is_err());
    }
}

#[test]
fn prestige_requirements_follow_the_float_formula() {
    for level in -5i64..=70 {
        let l = level.clamp(0, 50) as i32;
        let expected = (1000f64 * 1.12f64.powi(l)).round() as i64;
        assert_eq!(required_length_for_next_prestige(level), expected, "level {}", level);
    }
    assert_eq!(required_length_for_next_prestige(0), 1000);
    assert_eq!(required_length_for_next_prestige(1), 1120);
    assert_eq!(required_length_for_next_prestige(i64::MAX), 289002);
}

#[test]
fn prestige_growth_bonus_is_the_rounded_square_root() {
    for level in -3i64..=20000 {
        let expected = (level.max(0) as f64).sqrt().round() as i64;
        assert_eq!(calculate_prestige_growth_bonus(level), expected, "level {}", level);
    }
    assert_eq!(calculate_prestige_growth_bonus(i64::MAX), 3037000500);
}

#[test]
fn prestige_resets_length_for_points() {
    let mut m = member();
    m.length = 999;
    assert_eq!(m.prestige(), Err(PrestigeRefusal { required: 1000, current: 999 }));
    m.length = 1235;
    m.prestige_points = 7;
    let o = m.prestige().unwrap();
    assert_eq!(o.length_before, 1235);
    assert_eq!(o.new_level, 1);
    assert_eq!(o.bonus_points, 124);
    assert_eq!(o.new_points, 131);
    assert_eq!(o.growth_bonus, 1);
    assert_eq!(o.next_required, 1120);
    assert_eq!(m.length, 0);
    assert_eq!(m.prestige_level, 1);
    assert_eq!(m.prestige_points, 131);
    assert!(m.prestige_fits());
    for length in [1000i64, 1004, 1005, 1015, 1025, 123456] {
        let mut p = member();
        p.length = length;
        let o = p.prestige().unwrap();
        assert_eq!(o.bonus_points, (length as f64 * 0.1).round() as i64, "length {}", length);
    }
    assert_eq!(prestige_title(1), "🍆 FIRST PRESTIGE! 🍆");
    assert_eq!(prestige_title(5), "🏆 Prestige Complete! 🏆");
    assert_eq!(prestige_title(10), "🌟 LEGENDARY PRESTIGE! 🌟");
}

#[test]
fn grow_refused_on_cooldown_unless_skipped() {
    let mut m = member();
    m.last_grow = NOON;
    assert_eq!(m.grow_with_rolls(false, None, NOON + 600, rolls(5, 5)), Err(3000));
    assert_eq!(m.length, 0);
    m.daily_cooldown_skips = 1;
    let o = m.grow_with_rolls(false, None, NOON + 600, rolls(5, 9)).unwrap();
    assert!(o.cooldown_skip_used);
    assert_eq!(o.base_growth, 5);
    assert_eq!(m.daily_cooldown_skips, 0);
    assert_eq!(o.next_grow_at, NOON + 600 + 3600);
    // a new player is never on cooldown
    let mut fresh = Member::new(NOON);
    assert!(fresh.grow_with_rolls(true, None, NOON, rolls(3, 3)).is_ok());
}

#[test]
fn grow_applies_boosts_like_the_float_multiplier() {
    for base in 1i64..=10 {
        for viagra in [false, true] {
            for daily in [0i64, 50] {
                for event_bonus in [None, Some(25i64)] {
                    let mut m = member();
                    if viagra {
                        m.viagra_active_until = Some(NOON + 10);
                    }
                    m.daily_growth_boost_percent = daily;
                    let e = event_bonus.map(|b| event(EventKind::GrowthBonus, b));
                    let o = m.grow_with_rolls(false, e.as_ref(), NOON, rolls(base, 1)).unwrap();
                    let mut multiplier = 1.0f64;
                    if viagra {
                        multiplier += 0.20;
                    }
                    if daily > 0 {
                        multiplier += daily as f64 / 100.0;
                    }
                    if let Some(b) = event_bonus {
                        multiplier += (1.0 + b as f64 / 100.0) - 1.0;
                    }
                    let expected = if multiplier > 1.0 { (base as f64 * multiplier).round() as i64 } else { base };
                    assert_eq!(o.growth, expected, "base {} viagra {} daily {} event {:?}", base, viagra, daily, event_bonus);
                    assert_eq!(o.viagra_active, viagra);
                    assert_eq!(o.daily_boost_percent, if daily > 0 { Some(daily) } else { None });
                    assert_eq!(m.daily_growth_boost_percent, 0);
                }
            }
        }
    }
}

#[test]
fn grow_rolls_twice_with_lucky_roll_or_event() {
    let mut m = member();
    m.daily_lucky_rolls = 1;
    let o = m.grow_with_rolls(false, None, NOON, rolls(2, 9)).unwrap();
    assert!(o.lucky_roll_used);
    assert_eq!(o.base_growth, 9);
    assert_eq!(m.daily_lucky_rolls, 0);
    let mut m = member();
    let twice = event(EventKind::DoubleGrowthRoll, 2);
    let o = m.grow_with_rolls(false, Some(&twice), NOON, rolls(8, 3)).unwrap();
    assert!(o.event_double_roll);
    assert_eq!(o.base_growth, 8);
    let mut m = member();
    let o = m.grow_with_rolls(false, None, NOON, rolls(2, 9)).unwrap();
    assert_eq!(o.base_growth, 2);
}

#[test]
fn grow_adds_prestige_bonus_jackpot_and_streak() {
    let mut m = member();
    m.prestige_level = 4;
    m.length = 100;
    let jackpot = event(EventKind::JackpotGrowth, 25);
    let o = m
        .grow_with_rolls(false, Some(&jackpot), NOON, GrowRolls { first: 3, second: 3, jackpot_hit: true })
        .unwrap();
    assert_eq!(o.prestige_bonus, 2);
    assert_eq!(o.jackpot, Some(25));
    assert_eq!(o.growth, 3 + 2 + 25);
    assert_eq!(o.streak, Some(GrowthStreakUpdate { streak: 1, used_streak_saver: false }));
    assert_eq!(o.streak_reward, Some(1));
    assert_eq!(o.new_length, 100 + 30 + 1);
    assert_eq!(m.length, 131);
    assert_eq!(m.growth_count, 1);
    assert_eq!(m.last_grow, NOON);
    assert_eq!(m.streak_last_claimed, Some(NOON));
    // the same UTC day pays no second streak reward
    m.daily_cooldown_skips = 1;
    let o = m.grow_with_rolls(false, None, NOON + 60, rolls(4, 4)).unwrap();
    assert_eq!(o.streak, None);
    assert_eq!(o.streak_reward, None);
    assert_eq!(o.new_length, 131 + 4 + 2);
}

#[test]
fn grow_under_events_changes_range_cooldown_and_pot() {
    let compact = event(EventKind::CompactGrowth, 15);
    let pot = event(EventKind::CommunityPot, 1);
    let fast = event(EventKind::LowerCooldown, 30);
    let mut m = member();
    let o = m.grow_with_rolls(false, Some(&compact), NOON, rolls(5, 5)).unwrap();
    assert_eq!(o.next_grow_at, NOON + 15 * 60);
    assert_eq!(m.grow_with_rolls(false, Some(&fast), NOON + 60, rolls(1, 1)), Err(29 * 60));
    assert!(m.grow_with_rolls(false, Some(&compact), NOON + 15 * 60, rolls(1, 1)).is_ok());
    let o = m.grow_with_rolls(false, Some(&pot), NOON + 7200, rolls(2, 2)).unwrap();
    assert_eq!(o.community_pot, Some(1));
}

#[test]
fn grow_draws_rolls_in_range() {
    for _ in 0..100 {
        let mut m = member();
        let o = m.grow(false, None, NOON).unwrap();
        assert!((1..=10).contains(&o.base_growth));
        assert!(o.growth >= 1);
        assert!(m.grow_fits(None, NOON));
    }
    let compact = event(EventKind::CompactGrowth, 15);
    for _ in 0..100 {
        let mut m = member();
        let o = m.grow(false, Some(&compact), NOON).unwrap();
        assert!((1..=5).contains(&o.base_growth));
    }
    let mut huge = member();
    huge.length = i64::MAX - 3;
    assert!(!huge.grow_fits(None, NOON));
}

#[test]
fn growth_tiers() {
    assert_eq!(growth_tier(11), GrowthTier::Incredible);
    assert_eq!(growth_tier(10), GrowthTier::Impressive);
    assert_eq!(growth_tier(8), GrowthTier::Impressive);
    assert_eq!(growth_tier(7), GrowthTier::Solid);
    assert_eq!(growth_tier(4), GrowthTier::Solid);
    assert_eq!(growth_tier(3), GrowthTier::Modest);
    assert_eq!(GrowthTier::Incredible.title(), "🚀 INCREDIBLE GROWTH!");
    assert_eq!(GrowthTier::Modest.color(), 0x99FF99);
}
