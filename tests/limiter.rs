use online_limiter::activity::{activity_present, any_watched, matching_tabs, title_matches, watch_list};
use online_limiter::budget::{BudgetConfig, ConfigError, DEFAULT_ALLOWED_SECS, DEFAULT_TICK_SECS};
use online_limiter::controller::{
    next_run_state, ClockReading, Controller, LoopEvent, RunState, TickInput,
};
use online_limiter::rotation::{first_free_slot, rotation_outcome, RotationOutcome};
use online_limiter::slot::{encode_secs, load_budget, parse_secs, LoadOutcome};

fn controller(allowed: u64, tick: u64) -> Controller {
    let config = BudgetConfig::new(allowed, tick).unwrap();
    let loaded = LoadOutcome { remaining_secs: allowed, day_reset: false };
    Controller::new(config, loaded, 10)
}

fn at(day: u64, hour: u8, minute: u8, active: bool) -> TickInput {
    TickInput { now: ClockReading { day, hour, minute }, active }
}

fn strings(items: &[&str]) -> Vec<String> {
    items.iter().map(|s| s.to_string()).collect()
}

#[test]
fn two_hours_run_out_after_240_active_ticks() {
    let mut c = controller(7200, 30);
    for t in 1..=239u64 {
        let a = c.tick(at(10, 12, 0, true));
        assert_eq!(c.remaining_secs, 7200 - 30 * t);
        assert!(!a.enforce);
    }
    let a = c.tick(at(10, 12, 0, true));
    assert_eq!(c.remaining_secs, 0);
    assert!(a.enforce);
    assert_eq!(a.save_secs, Some(0));
    for _ in 0..5 {
        let a = c.tick(at(10, 13, 0, true));
        assert_eq!(c.remaining_secs, 0);
        assert!(a.enforce);
        assert_eq!(a.save_secs, None);
    }
}

#[test]
fn countdown_holds_when_activity_stops() {
    let mut c = controller(7200, 30);
    for _ in 0..60 {
        c.tick(at(10, 9, 30, true));
    }
    assert_eq!(c.remaining_secs, 5400);
    for _ in 0..100 {
        let a = c.tick(at(10, 9, 45, false));
        assert_eq!(c.remaining_secs, 5400);
        assert_eq!(a.save_secs, None);
        assert!(!a.enforce);
    }
}

#[test]
fn countdown_matches_formula() {
    let mut c = controller(120, 30);
    let expected = [90u64, 60, 30, 0, 0, 0];
    for e in expected {
        c.tick(at(3, 7, 0, true));
        assert_eq!(c.remaining_secs, e);
    }
}

#[test]
fn exhausted_budget_refills_only_at_midnight() {
    let mut c = controller(60, 30);
    c.tick(at(1, 22, 0, true));
    c.tick(at(1, 22, 1, true));
    assert_eq!(c.remaining_secs, 0);
    c.tick(at(1, 23, 59, false));
    assert_eq!(c.remaining_secs, 0);
    let a = c.tick(at(2, 0, 0, false));
    assert!(a.rotate_log);
    assert_eq!(c.remaining_secs, 60);
    assert_eq!(a.save_secs, Some(60));
}

#[test]
fn midnight_reset_happens_once_per_day() {
    let mut c = controller(7200, 30);
    let first = c.tick(at(4, 0, 0, true));
    assert!(first.rotate_log);
    assert_eq!(c.remaining_secs, 7170);
    let second = c.tick(at(4, 0, 0, true));
    assert!(!second.rotate_log);
    assert_eq!(c.remaining_secs, 7140);
    let next_day = c.tick(at(5, 0, 0, false));
    assert!(next_day.rotate_log);
    assert_eq!(c.remaining_secs, 7200);
}

#[test]
fn startup_reset_counts_as_the_days_reset() {
    let config = BudgetConfig::standard();
    let loaded = LoadOutcome { remaining_secs: DEFAULT_ALLOWED_SECS, day_reset: true };
    let mut c = Controller::new(config, loaded, 8);
    let a = c.tick(at(8, 0, 0, true));
    assert!(!a.rotate_log);
    assert_eq!(c.remaining_secs, DEFAULT_ALLOWED_SECS - DEFAULT_TICK_SECS);
}

#[test]
fn low_budget_warning_is_given_once() {
    let mut c = controller(360, 30);
    let a = c.tick(at(6, 15, 0, true));
    assert!(!a.warn_low);
    let a = c.tick(at(6, 15, 1, true));
    assert_eq!(c.remaining_secs, 300);
    assert!(a.warn_low);
    let a = c.tick(at(6, 15, 2, false));
    assert_eq!(c.remaining_secs, 300);
    assert!(!a.warn_low);
}

#[test]
fn config_must_be_a_multiple_of_the_tick() {
    assert_eq!(BudgetConfig::new(7200, 0), Err(ConfigError::ZeroTick));
    assert_eq!(BudgetConfig::new(100, 30), Err(ConfigError::NotMultipleOfTick));
    let ok = BudgetConfig::new(7200, 30).unwrap();
    assert_eq!(ok.allowed_secs, 7200);
    assert_eq!(ok.tick_secs, 30);
    let std_config = BudgetConfig::standard();
    assert_eq!(std_config.allowed_secs, 14400);
    assert_eq!(std_config.tick_secs, 30);
}

#[test]
fn spend_saturates_at_zero() {
    let c = BudgetConfig::standard();
    assert_eq!(c.spend(90), 60);
    assert_eq!(c.spend(30), 0);
    assert_eq!(c.spend(10), 0);
    assert_eq!(c.spend(0), 0);
}

#[test]
fn slot_text_round_trips() {
    for n in [0u64, 7, 10, 5400, 14400, u64::MAX] {
        let text = encode_secs(n);
        assert_eq!(String::from_utf8(text.clone()).unwrap(), n.to_string());
        assert_eq!(parse_secs(&text), Some(n));
    }
}

#[test]
fn slot_text_parsing_follows_unsigned_decimal() {
    assert_eq!(parse_secs(b"+42"), Some(42));
    assert_eq!(parse_secs(b"18446744073709551615"), Some(u64::MAX));
    assert_eq!(parse_secs(b"18446744073709551616"), None);
    assert_eq!(parse_secs(b""), None);
    assert_eq!(parse_secs(b"+"), None);
    assert_eq!(parse_secs(b"-5"), None);
    assert_eq!(parse_secs(b"12 "), None);
    assert_eq!(parse_secs(b"1a"), None);
}

#[test]
fn saved_value_loads_back_the_same_day() {
    let c = BudgetConfig::standard();
    let text = encode_secs(5400);
    let r = load_budget(&c, &text, 1_000, 500);
    assert_eq!(r, LoadOutcome { remaining_secs: 5400, day_reset: false });
}

#[test]
fn stale_slot_loads_full_allowance() {
    let c = BudgetConfig::standard();
    let text = encode_secs(30);
    let r = load_budget(&c, &text, 499, 500);
    assert_eq!(r, LoadOutcome { remaining_secs: 14400, day_reset: true });
}

#[test]
fn empty_or_corrupt_slot_loads_full_allowance() {
    let c = BudgetConfig::standard();
    assert_eq!(load_budget(&c, b"", 0, 500), LoadOutcome { remaining_secs: 14400, day_reset: false });
    assert_eq!(load_budget(&c, b"abc", 900, 500), LoadOutcome { remaining_secs: 14400, day_reset: false });
    assert_eq!(load_budget(&c, b"99999", 900, 500), LoadOutcome { remaining_secs: 14400, day_reset: false });
}

#[test]
fn game_query_failure_does_not_hide_tabs() {
    let sites = watch_list();
    let tabs = strings(&["Inbox", "Netflix - Watch TV Shows"]);
    assert!(activity_present(&None, &Some(tabs), &sites));
}

#[test]
fn activity_from_either_source() {
    let sites = watch_list();
    assert!(activity_present(&Some("1086940".to_string()), &None, &sites));
    assert!(!activity_present(&Some(String::new()), &None, &sites));
    assert!(!activity_present(&None, &None, &sites));
    let quiet = strings(&["Docs", "youtube lowercase"]);
    assert!(!activity_present(&Some(String::new()), &Some(quiet), &sites));
}

#[test]
fn titles_match_case_sensitively() {
    let sites = watch_list();
    assert_eq!(sites, strings(&["YouTube", "Twitch", "Disney+", "Netflix", "Prime Video"]));
    assert!(title_matches("Music - YouTube", &sites));
    assert!(title_matches("Prime Video: Home", &sites));
    assert!(!title_matches("youtube", &sites));
    assert!(!title_matches("Prime", &sites));
    let titles = strings(&["a", "Twitch", "b", "Disney+ Hub"]);
    assert_eq!(matching_tabs(&titles, &sites), strings(&["Twitch", "Disney+ Hub"]));
    assert!(any_watched(&titles, &sites));
    assert!(!any_watched(&strings(&["a", "b"]), &sites));
}

#[test]
fn rotation_picks_first_free_slot() {
    assert_eq!(first_free_slot(&vec![]), Some(1));
    assert_eq!(first_free_slot(&vec![true, true, false, true]), Some(3));
    assert_eq!(first_free_slot(&vec![true; 5]), Some(6));
    assert_eq!(first_free_slot(&vec![true; 99]), None);
    let mut most = vec![true; 99];
    most[98] = false;
    assert_eq!(first_free_slot(&most), Some(99));
}

#[test]
fn rotation_keeps_current_log_when_copy_fails() {
    assert_eq!(rotation_outcome(Some(2), true), RotationOutcome::Rotated);
    assert_eq!(rotation_outcome(Some(2), false), RotationOutcome::CopyNotFlushed);
    assert_eq!(rotation_outcome(None, true), RotationOutcome::NoFreeSlot);
}

#[test]
fn service_stops_cooperatively() {
    assert_eq!(next_run_state(RunState::Running, LoopEvent::WaitTimedOut), RunState::Running);
    assert_eq!(next_run_state(RunState::Running, LoopEvent::StopRequested), RunState::Stopping);
    assert_eq!(next_run_state(RunState::Running, LoopEvent::ChannelClosed), RunState::Stopping);
    assert_eq!(next_run_state(RunState::Running, LoopEvent::NotificationFailed), RunState::Stopping);
    assert_eq!(next_run_state(RunState::Stopping, LoopEvent::TickFinished), RunState::Stopped);
    assert_eq!(next_run_state(RunState::Stopped, LoopEvent::WaitTimedOut), RunState::Stopped);
}
