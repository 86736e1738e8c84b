use omnichat::service::config::ServiceConfig;
use omnichat::service::manager::ServiceManager;
use omnichat::service::state::{ServiceLifecycleState, ServiceRuntimeState};

fn cfg(id: &str, order: i32) -> ServiceConfig {
    let mut c = ServiceConfig::new(id.into(), "slack".into(), format!("Svc {id}"));
    c.sort_order = order;
    c
}

#[test]
fn new_manager_has_fresh_runtime_for_each_service() {
    let m = ServiceManager::new(vec![cfg("a", 0), cfg("b", 1)]);
    assert_eq!(m.services().len(), 2);
    for id in ["a", "b"] {
        let rt = m.get_runtime(id).unwrap();
        assert_eq!(rt.lifecycle, ServiceLifecycleState::Active);
        assert_eq!(rt.total_unread(), 0);
        assert!(rt.dialog_title.is_none());
    }
    assert!(m.get_runtime("c").is_none());
    assert_eq!(m.total_unread(), 0);
}

#[test]
fn badge_updates_change_totals() {
    let mut m = ServiceManager::new(vec![cfg("a", 0), cfg("b", 1)]);
    m.update_badge("a", 3, 1);
    m.update_badge("b", 2, 0);
    assert_eq!(m.total_direct_count(), 5);
    assert_eq!(m.total_indirect_count(), 1);
    assert_eq!(m.total_unread(), 6);
    m.update_badge("a", 0, 0);
    assert_eq!(m.total_unread(), 2);
    m.update_badge("missing", 9, 9);
    assert_eq!(m.total_unread(), 2);
}

#[test]
fn badge_fit_check_detects_overflow() {
    let mut m = ServiceManager::new(vec![cfg("a", 0), cfg("b", 1)]);
    m.update_badge("a", u32::MAX, 0);
    assert!(!m.badge_update_fits("b", 1, 0));
    assert!(m.badge_update_fits("a", 0, 0));
    assert!(m.badge_update_fits("b", 0, 0));
}

#[test]
fn add_and_remove_services() {
    let mut m = ServiceManager::new(vec![cfg("a", 0)]);
    m.update_badge("a", 4, 0);
    m.add_service(cfg("b", 1));
    assert_eq!(m.services().len(), 2);
    assert!(m.get_runtime("b").is_some());
    m.remove_service("a");
    assert_eq!(m.services().len(), 1);
    assert!(m.get_config("a").is_none());
    assert!(m.get_runtime("a").is_none());
    assert_eq!(m.total_unread(), 0);
}

#[test]
fn adding_a_known_id_resets_its_runtime() {
    let mut m = ServiceManager::new(vec![cfg("a", 0)]);
    m.update_badge("a", 4, 2);
    m.add_service(cfg("a", 5));
    assert_eq!(m.services().len(), 2);
    assert_eq!(m.get_runtime("a").unwrap().total_unread(), 0);
    assert_eq!(m.get_config("a").unwrap().sort_order, 0);
    m.remove_service("a");
    assert!(m.services().is_empty());
}

#[test]
fn config_and_runtime_mutation() {
    let mut m = ServiceManager::new(vec![cfg("a", 0)]);
    m.get_config_mut("a").unwrap().name = "Renamed".into();
    assert_eq!(m.get_config("a").unwrap().name, "Renamed");
    assert!(m.get_config_mut("zzz").is_none());
    m.get_runtime_mut("a").unwrap().direct_count = 7;
    assert_eq!(m.total_direct_count(), 7);
    m.set_dialog_title("a", Some("Inbox (2)".into()));
    assert_eq!(m.get_runtime("a").unwrap().dialog_title.as_deref(), Some("Inbox (2)"));
    m.set_lifecycle_state("a", ServiceLifecycleState::Frozen);
    assert_eq!(m.get_runtime("a").unwrap().lifecycle, ServiceLifecycleState::Frozen);
}

#[test]
fn sorted_services_is_stable_by_sort_order() {
    let m = ServiceManager::new(vec![cfg("c", 2), cfg("a", 0), cfg("b", 2), cfg("d", 1)]);
    let ids: Vec<&str> = m.sorted_services().iter().map(|c| c.id.as_str()).collect();
    assert_eq!(ids, vec!["a", "d", "c", "b"]);
}

#[test]
fn runtime_state_touch_keeps_counts() {
    let mut rt = ServiceRuntimeState::new();
    rt.direct_count = 2;
    rt.indirect_count = 3;
    rt.touch();
    assert_eq!(rt.total_unread(), 5);
    assert_eq!(rt.lifecycle, ServiceLifecycleState::Active);
    assert_eq!(ServiceLifecycleState::default(), ServiceLifecycleState::Active);
}
