use dick_grower::board::{
    get_fun_title_by_rank, growth_status, guild_display_name, leader_remark, leaderboard_emoji,
    leaderboard_medal, length_comment, pick_global_champion_remark, GrowthStatus, GuildNames,
    LeaderRemark, GLOBAL_CHAMPION_REMARKS,
};
use dick_grower::commands::{route_command, BotCommand};
use dick_grower::dotd::{award_dotd, award_dotd_with, classic_dotd_title, dotd_wait, DotdAward};
use dick_grower::gift::{check_gift, gift_comment, gift_length, GiftDone, GiftRefusal};
use dick_grower::member::Member;
use dick_grower::pvp::{
    bet_comment, bet_description, is_pvp_accept, pvp_accept_challenger, pvp_accept_custom_id,
    roll_battle, settle_battle, streak_flair, taunt_tier, tie_comment, AcceptCheck, BattleResult,
    PvpBoard, PvpChallenge, PvpRefusal, StakeCheck, StreakFlair, TauntTier, PVP_CHALLENGE_TTL_SECONDS,
};
use dick_grower::text::escape_markdown;

const NOON: i64 = 1710072000; // 2024-03-10 12:00:00 UTC

fn player(length: i64) -> Member {
    let mut m = Member::new(NOON - 86400);
    m.length = length;
    m
}

#[test]
fn a_challenge_needs_a_positive_bet_the_challenger_can_cover() {
    let mut board = PvpBoard::new();
    assert_eq!(board.post_challenge(1, 9, 0, 50, 1000), Err(PvpRefusal::InvalidBet));
    assert_eq!(board.post_challenge(1, 9, -3, 50, 1000), Err(PvpRefusal::InvalidBet));
    assert_eq!(board.post_challenge(1, 9, 60, 50, 1000), Err(PvpRefusal::InsufficientLength { has: 50 }));
    assert!(board.challenges.is_empty());
    assert_eq!(board.post_challenge(1, 9, 50, 50, 1000), Ok(()));
    assert_eq!(board.challenges.get(&1), Some(&PvpChallenge { bet: 50, created_at: 1000, guild_id: 9 }));
    // A new challenge replaces the old one.
    assert_eq!(board.post_challenge(1, 7, 10, 50, 2000), Ok(()));
    assert_eq!(board.challenges.len(), 1);
    assert_eq!(board.challenges.get(&1), Some(&PvpChallenge { bet: 10, created_at: 2000, guild_id: 7 }));
}

#[test]
fn accepting_checks_self_missing_and_expired_challenges() {
    let mut board = PvpBoard::new();
    board.post_challenge(1, 9, 5, 20, 1000).unwrap();
    assert_eq!(board.accept_challenge(1, 1, 1000), AcceptCheck::SelfChallenge);
    assert_eq!(board.accept_challenge(3, 2, 1000), AcceptCheck::NoChallenge);
    assert_eq!(board.accept_challenge(1, 2, 1000 + PVP_CHALLENGE_TTL_SECONDS), AcceptCheck::Open { bet: 5, guild_id: 9 });
    assert_eq!(board.challenges.len(), 1);
    assert_eq!(board.accept_challenge(1, 2, 1001 + PVP_CHALLENGE_TTL_SECONDS), AcceptCheck::Expired);
    assert!(board.challenges.is_empty());
    assert_eq!(board.accept_challenge(1, 2, 1001), AcceptCheck::NoChallenge);
}

#[test]
fn a_challenge_from_the_future_counts_as_expired() {
    // Elapsed time is counted as unsigned seconds, so a clock that went back wraps around.
    let mut board = PvpBoard::new();
    board.post_challenge(1, 9, 5, 20, 5000).unwrap();
    assert_eq!(board.accept_challenge(1, 2, 4000), AcceptCheck::Expired);
}

#[test]
fn stakes_are_checked_for_both_players() {
    let mut board = PvpBoard::new();
    board.post_challenge(1, 9, 10, 20, 1000).unwrap();
    assert_eq!(board.check_stakes(1, 10, 20, 9), StakeCheck::ChallengedShort { has: 9 });
    assert_eq!(board.challenges.len(), 1);
    assert_eq!(board.check_stakes(1, 10, 20, 10), StakeCheck::Fight);
    assert!(board.challenges.is_empty());
    board.post_challenge(1, 9, 10, 20, 1000).unwrap();
    assert_eq!(board.check_stakes(1, 10, 9, 100), StakeCheck::ChallengerShort { has: 9 });
    assert!(board.challenges.is_empty());
}

#[test]
fn the_higher_roll_takes_the_bet() {
    let mut a = player(30);
    let mut b = player(20);
    b.pvp_current_streak = 4;
    b.pvp_max_streak = 4;
    assert_eq!(settle_battle(&mut a, &mut b, 10, 80, 20), BattleResult::ChallengerWon);
    assert_eq!((a.length, b.length), (40, 10));
    assert_eq!((a.pvp_wins, a.pvp_current_streak, a.pvp_max_streak, a.cm_won), (1, 1, 1, 10));
    assert_eq!((b.pvp_losses, b.pvp_current_streak, b.pvp_max_streak, b.cm_lost), (1, 0, 4, 10));
    assert_eq!(a.length + b.length, 50);

    assert_eq!(settle_battle(&mut a, &mut b, 5, 3, 99), BattleResult::ChallengedWon);
    assert_eq!((a.length, b.length), (35, 15));
    assert_eq!((a.pvp_losses, a.pvp_current_streak), (1, 0));
    assert_eq!((b.pvp_wins, b.pvp_current_streak, b.pvp_max_streak), (1, 1, 4));
}

#[test]
fn a_tie_changes_nothing() {
    let mut a = player(30);
    let mut b = player(20);
    let (a0, b0) = (a, b);
    assert_eq!(settle_battle(&mut a, &mut b, 10, 50, 50), BattleResult::Tie);
    assert_eq!(a, a0);
    assert_eq!(b, b0);
}

#[test]
fn battle_rolls_stay_in_range() {
    for _ in 0..200 {
        let (x, y) = roll_battle();
        assert!((1..=100).contains(&x));
        assert!((1..=100).contains(&y));
    }
}

#[test]
fn accept_button_ids_round_trip() {
    assert_eq!(pvp_accept_custom_id(0), "pvp_accept:0");
    assert_eq!(pvp_accept_custom_id(123456789012345678), "pvp_accept:123456789012345678");
    for id in [0u64, 7, 42, 1000, u64::MAX] {
        let s = pvp_accept_custom_id(id);
        assert!(is_pvp_accept(&s));
        assert_eq!(pvp_accept_challenger(&s), id);
    }
}

#[test]
fn accept_ids_are_parsed_like_the_button_handler() {
    assert!(!is_pvp_accept("pvp_accept"));
    assert!(!is_pvp_accept("grow:12"));
    assert!(is_pvp_accept("pvp_accept:"));
    assert_eq!(pvp_accept_challenger("pvp_accept:+12"), 12);
    assert_eq!(pvp_accept_challenger("pvp_accept:"), 0);
    assert_eq!(pvp_accept_challenger("pvp_accept:12:34"), 12);
    assert_eq!(pvp_accept_challenger("pvp_accept:abc"), 0);
    assert_eq!(pvp_accept_challenger("pvp_accept:-5"), 0);
    assert_eq!(pvp_accept_challenger("pvp_accept:18446744073709551616"), 0);
    assert_eq!(pvp_accept_challenger("pvp_accept:18446744073709551615"), u64::MAX);
    assert_eq!(pvp_accept_challenger("no colon"), 0);
}

#[test]
fn battle_texts_follow_the_bet() {
    assert_eq!(bet_description(50), "**HOLY MOLY!** This is a high-stakes dick measuring contest!");
    assert_eq!(bet_description(25), "That's quite a sizeable wager! Someone's feeling confident!");
    assert_eq!(bet_description(10), "A decent bet! More than a day's growth on the line.");
    assert_eq!(bet_description(5), "A reasonable bet for a friendly competition.");
    assert_eq!(bet_description(4), "A cautious bet. Not everyone's ready to risk their precious centimeters!");
    assert_eq!(tie_comment(30), "A 30 cm bet and it ends in a tie?! The dick gods must be laughing!");
    assert_eq!(tie_comment(15), "Insanity! Neither dick emerged victorious today!");
    assert_eq!(tie_comment(14), "What are the odds?! Both measuring exactly the same!");
    assert_eq!(bet_comment(50), "\n\n💰 **MASSIVE BET!** 50 cm is roughly a week's worth of growth! Talk about high stakes!");
    assert_eq!(bet_comment(30), "\n\n💰 A **huge 30 cm bet**! That's several days of growth on the line!");
    assert_eq!(bet_comment(15), "\n\n💰 A solid **15 cm bet** - more than a day's worth of growth!");
    assert_eq!(bet_comment(10), "\n\n💰 A respectable wager, putting a full day's growth at stake!");
    assert_eq!(bet_comment(9), "");
}

#[test]
fn taunts_follow_margin_and_bet() {
    assert_eq!(taunt_tier(100, 49, 30), TauntTier::HistoricBeatdown);
    assert_eq!(taunt_tier(100, 49, 29), TauntTier::Massacre);
    assert_eq!(taunt_tier(100, 50, 20), TauntTier::OutclassedForBet);
    assert_eq!(taunt_tier(71, 50, 19), TauntTier::Outclassed);
    assert_eq!(taunt_tier(70, 50, 15), TauntTier::CloseForBet);
    assert_eq!(taunt_tier(56, 50, 14), TauntTier::Close);
    assert_eq!(taunt_tier(55, 50, 25), TauntTier::NailBiter);
    assert_eq!(taunt_tier(51, 50, 24), TauntTier::Hairline);
    assert_eq!(streak_flair(5), StreakFlair::Dominating);
    assert_eq!(streak_flair(3), StreakFlair::OnFire);
    assert_eq!(streak_flair(2), StreakFlair::Plain);
}

#[test]
fn gifts_are_checked_in_order() {
    assert_eq!(check_gift(1, 1, 0, 10), Err(GiftRefusal::InvalidAmount));
    assert_eq!(check_gift(1, 1, 5, 10), Err(GiftRefusal::SelfGift));
    assert_eq!(check_gift(1, 2, 11, 10), Err(GiftRefusal::InsufficientLength { has: 10 }));
    assert_eq!(check_gift(1, 2, 10, 10), Ok(()));
}

#[test]
fn a_gift_moves_length_between_players() {
    let mut giver = player(30);
    let mut recipient = player(-4);
    assert_eq!(gift_length(1, 2, 12, &mut giver, &mut recipient), Ok(GiftDone { giver_length: 18, recipient_length: 8 }));
    assert_eq!(giver.length + recipient.length, 26);
    let (g0, r0) = (giver, recipient);
    assert_eq!(gift_length(1, 2, 19, &mut giver, &mut recipient), Err(GiftRefusal::InsufficientLength { has: 18 }));
    assert_eq!(gift_length(1, 1, 1, &mut giver, &mut recipient), Err(GiftRefusal::SelfGift));
    assert_eq!((giver, recipient), (g0, r0));
    assert_eq!(gift_comment(50), "What an incredibly generous donation! This kind of philanthropy will go down in history!");
    assert_eq!(gift_comment(25), "That's a substantial gift! Your generosity knows no bounds!");
    assert_eq!(gift_comment(10), "A respectable gift! The recipient will surely appreciate your kindness.");
    assert_eq!(gift_comment(5), "A modest but thoughtful gift. Every centimeter counts!");
    assert_eq!(gift_comment(1), "A small token of appreciation. It's the thought that counts... right?");
}

#[test]
fn leaderboard_titles_medals_and_emoji() {
    assert_eq!(get_fun_title_by_rank(1), "GOD OF SCHLONGS");
    assert_eq!(get_fun_title_by_rank(2), "Legendary Organ");
    assert_eq!(get_fun_title_by_rank(3), "Impressive Member");
    assert_eq!(get_fun_title_by_rank(4), "Rising Star");
    assert_eq!(get_fun_title_by_rank(10), "Rising Star");
    assert_eq!(get_fun_title_by_rank(11), "Tiny but Mighty");
    assert_eq!(get_fun_title_by_rank(0), "Tiny but Mighty");
    assert_eq!(leaderboard_medal(0), "🥇");
    assert_eq!(leaderboard_medal(1), "🥈");
    assert_eq!(leaderboard_medal(2), "🥉");
    assert_eq!(leaderboard_medal(3), "🔹");
    assert_eq!(leaderboard_emoji(0, -5), "🍆 ");
    assert_eq!(leaderboard_emoji(1, 0), "🥜 ");
    assert_eq!(leaderboard_emoji(1, 31), "🌵 ");
    assert_eq!(leaderboard_emoji(1, 30), "");
    assert_eq!(leader_remark(51), LeaderRemark::ZipCode);
    assert_eq!(leader_remark(31), LeaderRemark::LethalWeapon);
    assert_eq!(leader_remark(16), LeaderRemark::MostImpressive);
    assert_eq!(leader_remark(1), LeaderRemark::GoldStar);
    assert_eq!(leader_remark(0), LeaderRemark::Microscope);
    for _ in 0..50 {
        assert!(pick_global_champion_remark() < GLOBAL_CHAMPION_REMARKS);
    }
}

#[test]
fn server_names_are_escaped_and_cached_for_half_a_day() {
    assert_eq!(escape_markdown("a_b*c`d~e|f\\g"), "a\\_b\\*c\\`d\\~e\\|f\\\\g");
    assert_eq!(guild_display_name(true, "The *Best* Server"), "The \\*Best\\* Server");
    assert_eq!(guild_display_name(false, "Secret"), "private server");
    let mut names = GuildNames::new();
    assert_eq!(names.fresh_name(5, 1000), None);
    names.remember(5, "Five".to_string(), 1000);
    assert_eq!(names.fresh_name(5, 1000 + 43199), Some("Five".to_string()));
    assert_eq!(names.fresh_name(5, 1000 + 43200), None);
    assert_eq!(names.fresh_name(6, 1000), None);
    names.remember(5, "Renamed".to_string(), 50000);
    assert_eq!(names.fresh_name(5, 50001), Some("Renamed".to_string()));
}

#[test]
fn stats_cards_show_the_grow_cooldown() {
    assert_eq!(growth_status(true, NOON, NOON + 3600), GrowthStatus::CanGrowNow);
    assert_eq!(growth_status(true, NOON, NOON + 600), GrowthStatus::NextGrowthAt(NOON + 3600));
    assert_eq!(growth_status(false, NOON, NOON + 3601), GrowthStatus::OtherCanGrow);
    assert_eq!(growth_status(false, NOON, NOON + 1), GrowthStatus::OtherAlreadyGrew);
    assert_eq!(length_comment(0, true), "Your dick is practically an innie at this point. Keep trying!");
    assert_eq!(length_comment(-3, false), "Their dick is practically an innie at this point. Tragic!");
    assert_eq!(length_comment(49, true), "It's... cute? At least that's what they'll say to be nice.");
    assert_eq!(length_comment(99, true), "Not bad! In the average zone. But who wants to be average?");
    assert_eq!(length_comment(149, true), "Impressive length! That's some serious heat down there.");
    assert_eq!(length_comment(199, true), "WOW! That's a third leg, not a dick! Special pants required?");
    assert_eq!(length_comment(200, false), "LEGENDARY! Scientists want to study this mutation. BEWARE!");
}

#[test]
fn dick_of_the_day_waits_a_full_day() {
    // Last award at noon: wait until noon the next day.
    assert_eq!(dotd_wait("2024-03-10 12:00:00", NOON), 24 * 3600);
    assert_eq!(dotd_wait("2024-03-10 12:00:00", NOON + 12 * 3600), 12 * 3600);
    assert_eq!(dotd_wait("2024-03-10 12:00:00", NOON + 24 * 3600 - 1), 1);
    assert_eq!(dotd_wait("2024-03-10 12:00:00", NOON + 24 * 3600), 0);
    // An award late in the evening still holds the next morning.
    assert_eq!(dotd_wait("1970-01-01 23:00:00", 90000), 22 * 3600);
    assert_eq!(dotd_wait("2024-03-09 11:59:59", NOON), 0);
    // Unreadable text counts as the Unix epoch, long past.
    assert_eq!(dotd_wait("yesterday", NOON), 0);
}

#[test]
fn dick_of_the_day_needs_two_candidates() {
    assert_eq!(award_dotd_with(&vec![5], 0, 10), None);
    assert_eq!(award_dotd_with(&vec![5, 7, 9], 1, 12), Some(DotdAward { winner_index: 1, bonus: 12, new_length: 19 }));
    assert_eq!(award_dotd(&vec![], 10, 25), None);
    for _ in 0..100 {
        let lengths = vec![3, -2, 40];
        let a = award_dotd(&lengths, 10, 25).unwrap();
        assert!(a.winner_index < 3);
        assert!((10..=25).contains(&a.bonus));
        assert_eq!(a.new_length, lengths[a.winner_index] + a.bonus);
    }
    assert_eq!(classic_dotd_title(10), "Tiny but Mighty");
    assert_eq!(classic_dotd_title(20), "Rising Star");
    assert_eq!(classic_dotd_title(40), "Impressive Member");
    assert_eq!(classic_dotd_title(60), "Legendary Organ");
    assert_eq!(classic_dotd_title(61), "GOD OF SCHLONGS");
}

#[test]
fn slash_commands_are_routed_by_name() {
    assert_eq!(route_command("grow"), BotCommand::Grow);
    assert_eq!(route_command("top"), BotCommand::Top);
    assert_eq!(route_command("global"), BotCommand::Global);
    assert_eq!(route_command("pvp"), BotCommand::Pvp);
    assert_eq!(route_command("stats"), BotCommand::Stats);
    assert_eq!(route_command("dickoftheday"), BotCommand::DickOfTheDay);
    assert_eq!(route_command("help"), BotCommand::Help);
    assert_eq!(route_command("gift"), BotCommand::Gift);
    assert_eq!(route_command("viagra"), BotCommand::Viagra);
    assert_eq!(route_command("Grow"), BotCommand::NotImplemented);
    assert_eq!(route_command("prestige"), BotCommand::Prestige);
    assert_eq!(route_command("daily"), BotCommand::NotImplemented);
    assert_eq!(route_command("streak"), BotCommand::NotImplemented);
    assert_eq!(route_command("event"), BotCommand::NotImplemented);
    assert_eq!(route_command("settings"), BotCommand::NotImplemented);
}
