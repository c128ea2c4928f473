use occupancy_timer::counter::{
    decrement_value, exceeds_ceiling, extend_value, CountdownCounter, CEILING_MS,
    HOUR_INCREMENT_IN_MS,
};
use occupancy_timer::status::{empty_message, format_status};
use occupancy_timer::timer::{add_timer, decay_tick, timer, TICK_AMOUNT_MS};

const EMPTY: &str = "There is no one in HackManhattan 😴";

#[test]
fn extend_adds_within_ceiling() {
    assert_eq!(extend_value(0, HOUR_INCREMENT_IN_MS), 3600000);
    assert_eq!(extend_value(3600000, 7200000), 10800000);
    assert_eq!(extend_value(CEILING_MS - 1, 1), CEILING_MS);
}

#[test]
fn extend_past_ceiling_resets() {
    assert_eq!(extend_value(CEILING_MS, 1), 0);
    assert_eq!(extend_value(18000000, 7200000), 0);
    assert_eq!(extend_value(u64::MAX, u64::MAX), 0);
    assert!(exceeds_ceiling(CEILING_MS, HOUR_INCREMENT_IN_MS));
    assert!(!exceeds_ceiling(5 * HOUR_INCREMENT_IN_MS, HOUR_INCREMENT_IN_MS));
}

#[test]
fn tick_at_zero_stays_zero() {
    assert_eq!(decrement_value(0, TICK_AMOUNT_MS), 0);
    let mut c = CountdownCounter::new();
    assert_eq!(c.tick_decrement(TICK_AMOUNT_MS), 0);
    assert_eq!(c.load(), 0);
}

#[test]
fn tick_takes_off_or_stops_at_zero() {
    assert_eq!(decrement_value(3600000, 10000), 3590000);
    assert_eq!(decrement_value(10000, 10000), 0);
    assert_eq!(decrement_value(4000, 10000), 0);
}

#[test]
fn format_nobody_present() {
    assert_eq!(format_status(0), EMPTY);
    assert_eq!(empty_message(), EMPTY);
    assert_eq!(format_status(59999), EMPTY);
}

#[test]
fn format_hours_and_minutes() {
    assert_eq!(
        format_status(90 * 60000),
        "HackManhattan will have people in it for the next 1 hours and 30 minutes 🤠"
    );
    assert_eq!(
        format_status(6 * 3600000),
        "HackManhattan will have people in it for the next 6 hours and 0 minutes 🤠"
    );
}

#[test]
fn format_minutes_only() {
    assert_eq!(
        format_status(45 * 60000),
        "HackManhattan will have people in it for the next 45 minutes 🤠"
    );
    assert_eq!(
        format_status(60000 + 59999),
        "HackManhattan will have people in it for the next 1 minutes 🤠"
    );
}

#[test]
fn read_does_not_change_the_countdown() {
    let mut c = CountdownCounter::new();
    assert_eq!(timer(&c), "0");
    assert_eq!(add_timer(&mut c), "3600000");
    assert_eq!(timer(&c), "3600000");
    assert_eq!(timer(&c), "3600000");
    assert_eq!(c.load(), 3600000);
    assert_eq!(c.load(), 3600000);
}

#[test]
fn scenario_post_get_and_decay() {
    let mut c = CountdownCounter::new();
    assert_eq!(timer(&c), "0");
    assert_eq!(add_timer(&mut c), "3600000");
    assert_eq!(timer(&c), "3600000");
    assert_eq!(
        decay_tick(&mut c),
        "HackManhattan will have people in it for the next 59 minutes 🤠"
    );
    assert_eq!(timer(&c), "3590000");
}

#[test]
fn scenario_ceiling_reached_then_crossed() {
    let mut c = CountdownCounter::new();
    assert_eq!(add_timer(&mut c), "3600000");
    for _ in 0..3 {
        add_timer(&mut c);
    }
    assert_eq!(add_timer(&mut c), "18000000");
    assert_eq!(add_timer(&mut c), "21600000");
    assert_eq!(timer(&c), "21600000");
    assert_eq!(add_timer(&mut c), "0");
    assert_eq!(timer(&c), "0");
}

#[test]
fn model_scenario_tick_after_reset() {
    let mut c = CountdownCounter::new();
    for _ in 0..6 {
        c.extend(HOUR_INCREMENT_IN_MS);
    }
    assert_eq!(c.load(), CEILING_MS);
    assert_eq!(c.extend(HOUR_INCREMENT_IN_MS), 0);
    c.extend(HOUR_INCREMENT_IN_MS);
    assert_eq!(c.tick_decrement(TICK_AMOUNT_MS), 3590000);
}

#[test]
fn extensions_from_zero_accumulate() {
    let mut c = CountdownCounter::new();
    for n in 1..=6u64 {
        add_timer(&mut c);
        assert_eq!(c.load(), n * HOUR_INCREMENT_IN_MS);
    }
}

#[test]
fn extensions_and_ticks_add_up() {
    let mut c = CountdownCounter::new();
    add_timer(&mut c);
    decay_tick(&mut c);
    add_timer(&mut c);
    decay_tick(&mut c);
    decay_tick(&mut c);
    add_timer(&mut c);
    assert_eq!(c.load(), 3 * HOUR_INCREMENT_IN_MS - 3 * TICK_AMOUNT_MS);
}

#[test]
fn decay_tick_at_zero() {
    let mut c = CountdownCounter::new();
    assert_eq!(decay_tick(&mut c), EMPTY);
    assert_eq!(c.load(), 0);
}

#[test]
fn decay_tick_publishes_status() {
    let mut c = CountdownCounter::new();
    add_timer(&mut c);
    add_timer(&mut c);
    assert_eq!(
        decay_tick(&mut c),
        "HackManhattan will have people in it for the next 1 hours and 59 minutes 🤠"
    );
    assert_eq!(c.load(), 7190000);
}
