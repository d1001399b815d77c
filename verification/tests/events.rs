use dick_grower::events::{
    active_event_from_row, global_event_for_roll, presence_text, resolve_community_pot,
    resolve_community_pot_with, roll_global_event, start_event_decision, try_start_new_event,
    EventKind, GlobalEvent, PotResolution, EVENT_DURATION_HOURS,
};

const ALL_KINDS: [EventKind; 7] = [
    EventKind::GrowthBonus,
    EventKind::LowerCooldown,
    EventKind::LongerViagra,
    EventKind::DoubleGrowthRoll,
    EventKind::CompactGrowth,
    EventKind::JackpotGrowth,
    EventKind::CommunityPot,
];

fn event(kind: EventKind, bonus_value: i64) -> GlobalEvent {
    GlobalEvent {
        id: 9,
        kind,
        name: "Test".to_string(),
        description: "Testing".to_string(),
        bonus_value,
        ends_at: 1710072000,
    }
}

#[test]
fn event_kinds_round_trip_through_their_names() {
    for kind in ALL_KINDS {
        assert_eq!(EventKind::from_str(kind.as_str()), Some(kind));
    }
    assert_eq!(EventKind::GrowthBonus.as_str(), "growth_bonus");
    assert_eq!(EventKind::CommunityPot.as_str(), "community_pot");
    assert_eq!(EventKind::from_str("double_growth_roll"), Some(EventKind::DoubleGrowthRoll));
    assert_eq!(EventKind::from_str("growth bonus"), None);
    assert_eq!(EventKind::from_str(""), None);
}

#[test]
fn rolled_events_match_their_descriptions() {
    let expected = [
        (EventKind::GrowthBonus, "Growth Surge", format!("All /grow results get **+{}% growth** during this bonus window.", 25), 25),
        (EventKind::LowerCooldown, "Fast Hands", format!("The /grow cooldown is lowered to **{} minutes** while this event is active.", 30), 30),
        (EventKind::LongerViagra, "Extended Pharmacy Hours", format!("New /viagra activations last **{} hours** during this event.", 12), 12),
        (EventKind::DoubleGrowthRoll, "Double Trouble", "Every /grow rolls twice and keeps the better result.".to_string(), 2),
        (EventKind::CompactGrowth, "Quick Sprouts", format!("/grow becomes smaller but faster: **{}-{} cm** every **{} minutes**.", 1, 5, 15), 15),
        (EventKind::JackpotGrowth, "Jackpot Window", format!("Every /grow has a **{}/{}** chance to hit an extra **+{} cm** jackpot.", 1, 10, 25), 25),
        (EventKind::CommunityPot, "Community Pump", format!("Every /grow adds **+{} cm** to a global pot. The pot is automatically awarded to a random participant after the event ends.", 1), 1),
    ];
    for (roll, (kind, name, description, bonus)) in expected.into_iter().enumerate() {
        let e = global_event_for_roll(roll as u32, 42);
        assert_eq!(e.kind, kind);
        assert_eq!(e.name, name);
        assert_eq!(e.description, description);
        assert_eq!(e.bonus_value, bonus);
        assert_eq!(e.id, 0);
        assert_eq!(e.ends_at, 42);
    }
}

#[test]
fn random_event_is_one_of_the_kinds() {
    for _ in 0..50 {
        let e = roll_global_event();
        let again = global_event_for_roll(ALL_KINDS.iter().position(|k| *k == e.kind).unwrap() as u32, e.ends_at);
        assert_eq!(e.name, again.name);
        assert_eq!(e.description, again.description);
        assert_eq!(e.bonus_value, again.bonus_value);
    }
}

#[test]
fn event_effects_by_kind() {
    assert_eq!(event(EventKind::GrowthBonus, 25).growth_bonus_percent(), Some(25));
    assert_eq!(event(EventKind::LowerCooldown, 25).growth_bonus_percent(), None);
    assert_eq!(event(EventKind::LowerCooldown, 30).grow_cooldown_minutes(), Some(30));
    assert_eq!(event(EventKind::CompactGrowth, 99).grow_cooldown_minutes(), Some(15));
    assert_eq!(event(EventKind::GrowthBonus, 30).grow_cooldown_minutes(), None);
    assert_eq!(event(EventKind::LongerViagra, 12).viagra_duration_hours(), Some(12));
    assert_eq!(event(EventKind::JackpotGrowth, 12).viagra_duration_hours(), None);
    assert_eq!(event(EventKind::CompactGrowth, 15).growth_range(), Some((1, 5)));
    assert_eq!(event(EventKind::GrowthBonus, 15).growth_range(), None);
    assert!(event(EventKind::DoubleGrowthRoll, 2).rolls_growth_twice());
    assert!(!event(EventKind::CommunityPot, 2).rolls_growth_twice());
    assert_eq!(event(EventKind::CommunityPot, 1).community_pot_cm_per_grow(), Some(1));
    assert_eq!(event(EventKind::JackpotGrowth, 1).community_pot_cm_per_grow(), None);
    assert_eq!(event(EventKind::JackpotGrowth, 25).jackpot_extra_cm_with(true), Some(25));
    assert_eq!(event(EventKind::JackpotGrowth, 25).jackpot_extra_cm_with(false), None);
    assert_eq!(event(EventKind::GrowthBonus, 25).jackpot_extra_cm_with(true), None);
    assert_eq!(event(EventKind::GrowthBonus, 25).jackpot_extra_cm(), None);
    assert_eq!(event(EventKind::GrowthBonus, 1).ends_discord_timestamp(), "<t:1710072000:R>");
}

#[test]
fn jackpot_draw_pays_the_jackpot_or_nothing() {
    let e = event(EventKind::JackpotGrowth, 25);
    let mut hits = 0;
    for _ in 0..2000 {
        match e.jackpot_extra_cm() {
            Some(x) => {
                assert_eq!(x, 25);
                hits += 1;
            }
            None => {}
        }
    }
    assert!(hits > 100 && hits < 350, "about one in ten: {}", hits);
}

#[test]
fn event_limits() {
    assert!(event(EventKind::LowerCooldown, 30).within_limits());
    assert!(!event(EventKind::LowerCooldown, i64::MAX).within_limits());
    assert!(!event(EventKind::LowerCooldown, i64::MIN).within_limits());
}

#[test]
fn new_events_start_only_when_none_is_active() {
    assert!(start_event_decision(true, true, 0, 1000).is_none());
    assert!(start_event_decision(false, false, 0, 1000).is_none());
    let e = start_event_decision(false, true, 3, 1000).unwrap();
    assert_eq!(e.kind, EventKind::DoubleGrowthRoll);
    assert_eq!(e.ends_at, 1000 + EVENT_DURATION_HOURS * 3600);
    assert!(try_start_new_event(true).is_none());
    let mut started = 0;
    for _ in 0..200 {
        let before = std::time::SystemTime::now().duration_since(std::time::UNIX_EPOCH).unwrap().as_secs() as i64;
        if let Some(e) = try_start_new_event(false) {
            let after = std::time::SystemTime::now().duration_since(std::time::UNIX_EPOCH).unwrap().as_secs() as i64;
            let started_at = e.ends_at - EVENT_DURATION_HOURS * 3600;
            assert!(before <= started_at && started_at <= after);
            started += 1;
        }
    }
    assert!(started > 50 && started < 150, "about half: {}", started);
}

#[test]
fn stored_event_rows_are_read_back() {
    let now = 1710072000;
    let e = active_event_from_row(
        4,
        "lower_cooldown",
        "Fast Hands".to_string(),
        "desc".to_string(),
        30,
        "2024-03-10 14:00:00",
        now,
    )
    .unwrap();
    assert_eq!(e.id, 4);
    assert_eq!(e.kind, EventKind::LowerCooldown);
    assert_eq!(e.ends_at, now + 2 * 3600);
    assert_eq!(e.bonus_value, 30);
    assert!(active_event_from_row(4, "lower_cooldown", String::new(), String::new(), 30, "2024-03-10 12:00:00", now).is_none());
    assert!(active_event_from_row(4, "mystery", String::new(), String::new(), 30, "2024-03-10 14:00:00", now).is_none());
    assert!(active_event_from_row(4, "lower_cooldown", String::new(), String::new(), 30, "tomorrow", now).is_none());
}

#[test]
fn community_pot_resolution() {
    let lengths = vec![10, 20, 30];
    assert_eq!(resolve_community_pot_with(0, &lengths, 1), PotResolution::NothingInPot);
    assert_eq!(resolve_community_pot_with(-3, &lengths, 1), PotResolution::NothingInPot);
    assert_eq!(resolve_community_pot_with(5, &vec![], 0), PotResolution::NoEligibleGrowers);
    assert_eq!(
        resolve_community_pot_with(5, &lengths, 1),
        PotResolution::Awarded { winner_index: 1, new_length: 25 }
    );
    match resolve_community_pot(7, &lengths) {
        PotResolution::Awarded { winner_index, new_length } => {
            assert!(winner_index < 3);
            assert_eq!(new_length, lengths[winner_index] + 7);
        }
        other => panic!("unexpected {:?}", other),
    }
}

#[test]
fn presence_follows_the_event() {
    let e = event(EventKind::GrowthBonus, 25);
    assert_eq!(presence_text(Some(&e)), "Event: Test");
    assert_eq!(presence_text(None), "No event active");
}
