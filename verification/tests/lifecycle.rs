use omnichat::service::config::ServiceConfig;
use omnichat::service::lifecycle::{next_state, parse_i64, parse_u64, poll_step, threshold_secs, tick_interval_ms, LifecycleManager, PollStep, DEFAULT_FREEZE_SECS, DEFAULT_HIBERNATE_SECS};
use omnichat::service::manager::ServiceManager;
use omnichat::service::state::ServiceLifecycleState as S;

#[test]
fn backgrounded_freezes_then_hibernates() {
    assert_eq!(next_state(S::Backgrounded, 299_999, 300, 900), None);
    assert_eq!(next_state(S::Backgrounded, 300_000, 300, 900), Some(S::Frozen));
    assert_eq!(next_state(S::Backgrounded, 900_000, 300, 900), Some(S::Hibernated));
    assert_eq!(next_state(S::Frozen, 899_999, 300, 900), None);
    assert_eq!(next_state(S::Frozen, 900_000, 300, 900), Some(S::Hibernated));
}

#[test]
fn active_and_hibernated_never_move() {
    assert_eq!(next_state(S::Active, u128::MAX, 0, 0), None);
    assert_eq!(next_state(S::Hibernated, u128::MAX, 0, 0), None);
}

#[test]
fn plan_skips_active_disabled_and_non_sleeping_services() {
    let mut a = ServiceConfig::new("a".into(), "r".into(), "A".into());
    let b = ServiceConfig::new("b".into(), "r".into(), "B".into());
    let mut c = ServiceConfig::new("c".into(), "r".into(), "C".into());
    let mut d = ServiceConfig::new("d".into(), "r".into(), "D".into());
    a.is_hibernation_enabled = true;
    c.is_enabled = false;
    d.is_hibernation_enabled = false;
    let mut m = ServiceManager::new(vec![a, b, c, d]);
    for id in ["a", "b", "c", "d"] {
        m.set_lifecycle_state(id, S::Backgrounded);
    }
    let later = std::time::Instant::now() + std::time::Duration::from_secs(3600);
    let plan = LifecycleManager::plan(&m, Some("b"), later, 300, 900);
    assert_eq!(plan.len(), 1);
    assert_eq!(plan[0].service_id, "a");
    assert_eq!(plan[0].state, S::Hibernated);
    let now = std::time::Instant::now();
    assert!(LifecycleManager::plan(&m, None, now, 300, 900).is_empty());
}

#[test]
fn decide_follows_each_services_idle_time() {
    let ids = ["a", "b", "c", "d", "e"];
    let configs: Vec<ServiceConfig> =
        ids.iter().map(|id| ServiceConfig::new(id.to_string(), "r".into(), id.to_uppercase())).collect();
    let mut m = ServiceManager::new(configs);
    m.set_lifecycle_state("a", S::Backgrounded);
    m.set_lifecycle_state("b", S::Backgrounded);
    m.set_lifecycle_state("c", S::Frozen);
    m.set_lifecycle_state("d", S::Backgrounded);
    // "e" stays active: active pages never move.
    let idle: Vec<u128> = vec![300_000, 900_000, 900_000, 10, 5_000_000];
    let plan = LifecycleManager::decide(&m, None, &idle, 300, 900);
    let got: Vec<(&str, S)> = plan.iter().map(|t| (t.service_id.as_str(), t.state)).collect();
    assert_eq!(got, vec![("a", S::Frozen), ("b", S::Hibernated), ("c", S::Hibernated)]);
    // The active service is skipped whatever its idle time.
    let plan = LifecycleManager::decide(&m, Some("b"), &idle, 300, 900);
    let got: Vec<&str> = plan.iter().map(|t| t.service_id.as_str()).collect();
    assert_eq!(got, vec!["a", "c"]);
}

#[test]
fn poll_cadence_follows_lifecycle() {
    let mut rt = omnichat::service::state::ServiceRuntimeState::new();
    assert_eq!(poll_step(true, Some(&rt)), PollStep::PollAndReschedule(2000));
    rt.lifecycle = S::Backgrounded;
    assert_eq!(poll_step(true, Some(&rt)), PollStep::PollAndReschedule(5000));
    rt.lifecycle = S::Frozen;
    assert_eq!(poll_step(true, Some(&rt)), PollStep::Reschedule(10000));
    rt.lifecycle = S::Hibernated;
    assert_eq!(poll_step(true, Some(&rt)), PollStep::Stop);
    assert_eq!(poll_step(false, None), PollStep::Stop);
    assert_eq!(poll_step(true, None), PollStep::Stop);
}

#[test]
fn integer_settings_parse_like_std() {
    for s in ["0", "42", "+7", "18446744073709551615", "18446744073709551616", "", "+", "-1", " 5", "1_0", "007"] {
        assert_eq!(parse_u64(s), s.parse::<u64>().ok(), "u64 {s:?}");
    }
    for s in ["0", "-0", "-9223372036854775808", "9223372036854775807", "9223372036854775808", "-9223372036854775809", "-", "+-1", "12a"] {
        assert_eq!(parse_i64(s), s.parse::<i64>().ok(), "i64 {s:?}");
    }
}

#[test]
fn thresholds_fall_back_to_defaults() {
    assert_eq!(threshold_secs(None, DEFAULT_FREEZE_SECS), 300);
    assert_eq!(threshold_secs(Some("5"), DEFAULT_HIBERNATE_SECS), 5);
    assert_eq!(threshold_secs(Some("soon"), DEFAULT_HIBERNATE_SECS), 900);
    assert_eq!(tick_interval_ms(None), 30000);
    assert_eq!(tick_interval_ms(Some("-5")), -5);
    assert_eq!(tick_interval_ms(Some("x")), 30000);
}
