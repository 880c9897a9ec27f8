use lottery_store::defaults::{cycle_id, default_state_at};
use lottery_store::{
    create_default_prizes, create_default_state, validate_lottery_state, LotteryConfig, LotteryCycle,
    LotteryResult, LotteryState, PrizeColor, RemainingDraws,
};

fn result(n: u32) -> LotteryResult {
    LotteryResult {
        prize_id: "prize_red_1".to_string(),
        timestamp: 1_700_000_000_000 + n as i64,
        cycle_id: "cycle_1".to_string(),
        draw_number: n,
    }
}

fn state_with(draws: RemainingDraws, results: usize, config: LotteryConfig) -> LotteryState {
    let mut s = create_default_state();
    s.current_cycle.remaining_draws = draws;
    s.current_cycle.results = (0..results as u32).map(result).collect();
    s.config = config;
    s
}

fn config(per_cycle: u32, per_color: u32) -> LotteryConfig {
    LotteryConfig {
        draws_per_cycle: per_cycle,
        draws_per_color: per_color,
        enable_animations: true,
        animation_duration: 2000,
    }
}

#[test]
fn default_prizes_are_two_per_color() {
    let p = create_default_prizes();
    let ids: Vec<&str> = p.iter().map(|x| x.id.as_str()).collect();
    assert_eq!(
        ids,
        vec!["prize_red_1", "prize_red_2", "prize_yellow_1", "prize_yellow_2", "prize_blue_1", "prize_blue_2"]
    );
    let colors: Vec<PrizeColor> = p.iter().map(|x| x.color).collect();
    assert_eq!(
        colors,
        vec![
            PrizeColor::Red,
            PrizeColor::Red,
            PrizeColor::Yellow,
            PrizeColor::Yellow,
            PrizeColor::Blue,
            PrizeColor::Blue
        ]
    );
    assert_eq!(p[0].name, "红色大奖");
    assert_eq!(p[5].description.as_deref(), Some("精美的蓝色礼品"));
    assert!(p.iter().all(|x| x.description.is_some() && x.icon.is_none()));
}

#[test]
fn default_state_is_valid() {
    let s = create_default_state();
    assert_eq!(validate_lottery_state(&s), Ok(true));
    assert_eq!(s.config, config(6, 2));
    assert_eq!(s.current_cycle.remaining_draws, RemainingDraws { red: 2, yellow: 2, blue: 2 });
    assert!(s.current_cycle.results.is_empty());
    assert!(!s.current_cycle.completed);
    assert_eq!(s.current_cycle.end_time, None);
    assert!(s.history.is_empty());
    assert_eq!(s.available_prizes.len(), 6);
}

#[test]
fn default_cycle_id_holds_time_and_token() {
    let s = create_default_state();
    let prefix = format!("cycle_{}_", s.current_cycle.start_time);
    assert!(s.current_cycle.id.starts_with(&prefix));
    let token = &s.current_cycle.id[prefix.len()..];
    assert_eq!(token.len(), 32);
    assert!(token.chars().all(|c| c.is_ascii_digit() || ('a'..='f').contains(&c)));
    assert!(s.current_cycle.start_time > 1_600_000_000_000);
    let other = create_default_state();
    assert_ne!(s.current_cycle.id, other.current_cycle.id);
}

#[test]
fn cycle_id_formats_decimal() {
    assert_eq!(cycle_id(0, "ab"), "cycle_0_ab");
    assert_eq!(cycle_id(1_700_000_000_123, "f00d"), "cycle_1700000000123_f00d");
    assert_eq!(cycle_id(-105, "x"), "cycle_-105_x");
    assert_eq!(cycle_id(i64::MIN, ""), "cycle_-9223372036854775808_");
    assert_eq!(cycle_id(i64::MAX, "z"), "cycle_9223372036854775807_z");
}

#[test]
fn default_state_at_fixes_id_and_start() {
    let s = default_state_at(42, "0123456789abcdef0123456789abcdef");
    assert_eq!(s.current_cycle.id, "cycle_42_0123456789abcdef0123456789abcdef");
    assert_eq!(s.current_cycle.start_time, 42);
    assert_eq!(validate_lottery_state(&s), Ok(true));
}

#[test]
fn validate_accepts_partly_drawn_cycle() {
    let s = state_with(RemainingDraws { red: 1, yellow: 2, blue: 1 }, 2, config(6, 2));
    assert_eq!(validate_lottery_state(&s), Ok(true));
    let s = state_with(RemainingDraws { red: 0, yellow: 0, blue: 0 }, 9, config(9, 3));
    assert_eq!(validate_lottery_state(&s), Ok(true));
}

#[test]
fn validate_rejects_unaccounted_draws() {
    let s = state_with(RemainingDraws { red: 2, yellow: 2, blue: 2 }, 1, config(6, 2));
    assert_eq!(validate_lottery_state(&s), Ok(false));
    let s = state_with(RemainingDraws { red: 1, yellow: 1, blue: 1 }, 0, config(6, 2));
    assert_eq!(validate_lottery_state(&s), Ok(false));
}

#[test]
fn validate_rejects_bad_ratio_and_zero_counts() {
    let draws = RemainingDraws { red: 2, yellow: 2, blue: 3 };
    assert_eq!(validate_lottery_state(&state_with(draws, 0, config(7, 2))), Ok(false));
    let none = RemainingDraws { red: 0, yellow: 0, blue: 0 };
    assert_eq!(validate_lottery_state(&state_with(none, 0, config(0, 0))), Ok(false));
    assert_eq!(validate_lottery_state(&state_with(none, 0, config(0, 2))), Ok(false));
    assert_eq!(validate_lottery_state(&state_with(none, 0, config(3, 0))), Ok(false));
}

#[test]
fn validate_rejects_empty_catalog() {
    let mut s = create_default_state();
    s.available_prizes.clear();
    assert_eq!(validate_lottery_state(&s), Ok(false));
}

#[test]
fn validate_handles_largest_counts() {
    let max = RemainingDraws { red: u32::MAX, yellow: u32::MAX, blue: u32::MAX };
    assert_eq!(validate_lottery_state(&state_with(max, 0, config(u32::MAX, 1_431_655_765))), Ok(false));
    let big = RemainingDraws { red: 1_431_655_765, yellow: 1_431_655_765, blue: 1_431_655_765 };
    assert_eq!(validate_lottery_state(&state_with(big, 0, config(u32::MAX, 1_431_655_765))), Ok(true));
}

#[test]
fn validate_is_repeatable_and_leaves_state_alone() {
    let s = state_with(RemainingDraws { red: 1, yellow: 2, blue: 1 }, 2, config(6, 2));
    let before = format!("{:?}", s);
    let first = validate_lottery_state(&s);
    let second = validate_lottery_state(&s);
    assert_eq!(first, second);
    assert_eq!(format!("{:?}", s), before);
}

#[test]
fn cycle_struct_literal_is_accepted() {
    let c = LotteryCycle {
        id: "c".to_string(),
        start_time: 5,
        end_time: Some(9),
        results: vec![result(1), result(2)],
        completed: true,
        remaining_draws: RemainingDraws { red: 0, yellow: 0, blue: 0 },
    };
    let mut s = create_default_state();
    s.current_cycle = c;
    s.config = config(6, 2);
    assert_eq!(validate_lottery_state(&s), Ok(false));
    s.current_cycle.results = (1..=6).map(result).collect();
    assert_eq!(validate_lottery_state(&s), Ok(true));
}
