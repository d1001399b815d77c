use dick_grower::dotd::choose_sotd_winner;
use dick_grower::grow::{roll_growth, BASE_GROWTH_MAX_CM, BASE_GROWTH_MIN_CM};
use dick_grower::streak::streak_reward_cm;
use rand::rngs::StdRng;
use rand::SeedableRng;

#[test]
fn test_streak_reward_curve() {
    let cases = [(1, 1), (3, 2), (7, 3), (14, 3), (30, 4), (60, 4), (100, 5)];
    for (streak, expected) in cases {
        let reward = streak_reward_cm(streak);
        assert_eq!(reward, expected, "streak {} expected {} got {}", streak, expected, reward);
    }
}

#[test]
fn test_growth_distribution() {
    const ITERATIONS: usize = 10000;

    let mut values = Vec::new();
    for _ in 0..ITERATIONS {
        let growth = roll_growth(BASE_GROWTH_MIN_CM, BASE_GROWTH_MAX_CM);
        values.push(growth);
    }

    let avg = values.iter().sum::<i64>() as f64 / ITERATIONS as f64;
    let min = values.iter().min().unwrap();
    let max = values.iter().max().unwrap();

    assert_eq!(*min, BASE_GROWTH_MIN_CM);
    assert_eq!(*max, BASE_GROWTH_MAX_CM);
    assert!((avg - 5.5).abs() < 0.3, "Average should be around 5.5");
}

#[test]
fn test_choose_dotd_winner_distribution() {
    let mut counts = [0; 3];
    let mut rng = StdRng::seed_from_u64(42);
    let runs = 1000;
    for _ in 0..runs {
        let idx = choose_sotd_winner(&mut rng, 3);
        counts[idx] += 1;
    }
    for (i, &count) in counts.iter().enumerate() {
        let percent = count as f64 / runs as f64;
        println!("User {}: {} times ({:.1}%)", i, count, percent * 100.0);
        assert!(percent > 0.3, "User {} was chosen less than 30% of the time", i);
    }
}

#[test]
fn streak_reward_matches_the_logarithmic_curve() {
    for streak in -5i64..=2000 {
        let curve = (1.0 + (streak as f64).ln() * 0.8).round() as i64;
        assert_eq!(streak_reward_cm(streak), curve.clamp(1, 5), "streak {}", streak);
    }
}
