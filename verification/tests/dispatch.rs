use omnichat::app::{classify_sender, AppState, IpcRole};
use omnichat::ipc::handler::{check_sender, IpcEffect, IpcOutcome, IpcRejection};
use omnichat::ipc::message::IpcMessage;
use omnichat::service::config::ServiceConfig;
use omnichat::service::state::ServiceLifecycleState;
use omnichat::settings::AppSettings;

fn state() -> AppState {
    let a = ServiceConfig::new("a".into(), "slack".into(), "Work".into());
    let b = ServiceConfig::new("b".into(), "whatsapp".into(), "Home".into());
    AppState::new(AppSettings::default(), Vec::new(), vec![a, b])
}

fn effects(o: IpcOutcome) -> Vec<IpcEffect> {
    match o {
        IpcOutcome::Handled(e) => e,
        IpcOutcome::Rejected(r) => panic!("rejected: {r:?}"),
    }
}

#[test]
fn classify_sender_by_identifier() {
    let browsers = vec![("a".to_string(), 11), ("__overlay__".to_string(), 12), ("b".to_string(), 13)];
    assert_eq!(classify_sender(Some(10), &browsers, Some(10)), IpcRole::Sidebar);
    assert_eq!(classify_sender(Some(10), &browsers, Some(12)), IpcRole::TrustedOverlay);
    assert_eq!(classify_sender(Some(10), &browsers, Some(13)), IpcRole::Service("b".into()));
    assert_eq!(classify_sender(Some(10), &browsers, Some(99)), IpcRole::Unknown);
    assert_eq!(classify_sender(Some(10), &browsers, None), IpcRole::Unknown);
    assert_eq!(classify_sender(None, &browsers, Some(11)), IpcRole::Service("a".into()));
}

#[test]
fn service_pages_cannot_run_privileged_commands() {
    let mut s = state();
    let msg = IpcMessage::RemoveService { service_id: "a".into() };
    match s.dispatch(msg, &IpcRole::Service("b".into())) {
        IpcOutcome::Rejected(r) => assert_eq!(r, IpcRejection::Untrusted),
        _ => panic!("should be rejected"),
    }
    assert_eq!(s.service_manager.services().len(), 2);
    let msg = IpcMessage::OpenSettings {};
    assert!(matches!(s.dispatch(msg, &IpcRole::Unknown), IpcOutcome::Rejected(IpcRejection::Untrusted)));
}

#[test]
fn service_pages_cannot_spoof_other_services() {
    let mut s = state();
    let msg = IpcMessage::Badge { service_id: "a".into(), direct: 5, indirect: 0 };
    assert_eq!(check_sender(&IpcRole::Service("b".into()), &msg), Some(IpcRejection::Spoofed));
    assert!(matches!(s.dispatch(msg, &IpcRole::Service("b".into())), IpcOutcome::Rejected(IpcRejection::Spoofed)));
    assert_eq!(s.service_manager.total_unread(), 0);
    let own = IpcMessage::Badge { service_id: "b".into(), direct: 5, indirect: 1 };
    let e = effects(s.dispatch(own, &IpcRole::Service("b".into())));
    assert!(matches!(e[0], IpcEffect::RefreshSidebar));
    assert!(matches!(e[1], IpcEffect::UpdateTrayBadge(6)));
    let unnamed = IpcMessage::DialogTitle { service_id: String::new(), title: "x".into() };
    assert_eq!(check_sender(&IpcRole::Service("b".into()), &unnamed), None);
}

#[test]
fn trusted_pages_are_never_refused() {
    let msg = IpcMessage::Badge { service_id: "a".into(), direct: 1, indirect: 0 };
    assert_eq!(check_sender(&IpcRole::Sidebar, &msg), None);
    assert_eq!(check_sender(&IpcRole::TrustedOverlay, &IpcMessage::OpenPicker {}), None);
}

#[test]
fn notifications_respect_mute_and_dnd() {
    let mut s = state();
    let n = |sid: &str| IpcMessage::Notification {
        service_id: sid.into(),
        title: "Hi".into(),
        body: "there".into(),
        icon: String::new(),
        tag: String::new(),
        silent: false,
    };
    let e = effects(s.dispatch(n("a"), &IpcRole::Service("a".into())));
    match &e[0] {
        IpcEffect::ShowNotification { service_id, service_name, title, body } => {
            assert_eq!(
                (service_id.as_str(), service_name.as_str(), title.as_str(), body.as_str()),
                ("a", "Work", "Hi", "there")
            );
        }
        _ => panic!("expected a notification"),
    }
    s.service_manager.get_config_mut("a").unwrap().is_muted = true;
    assert!(effects(s.dispatch(n("a"), &IpcRole::Service("a".into()))).is_empty());
    s.settings.enable_dnd = true;
    assert!(effects(s.dispatch(n("b"), &IpcRole::Service("b".into()))).is_empty());
}

#[test]
fn unnamed_notification_uses_active_service() {
    let mut s = state();
    s.active_service_id = Some("b".into());
    let msg = IpcMessage::Notification {
        service_id: String::new(),
        title: "T".into(),
        body: String::new(),
        icon: String::new(),
        tag: String::new(),
        silent: false,
    };
    match &effects(s.dispatch(msg, &IpcRole::Unknown))[0] {
        IpcEffect::ShowNotification { service_id, service_name, .. } => {
            assert_eq!(service_id, "b");
            assert_eq!(service_name, "Home");
        }
        _ => panic!("expected a notification"),
    }
}

#[test]
fn unnamed_notification_from_a_service_page_is_its_own() {
    let mut s = state();
    s.active_service_id = Some("b".into());
    let msg = IpcMessage::Notification {
        service_id: String::new(),
        title: "T".into(),
        body: String::new(),
        icon: String::new(),
        tag: String::new(),
        silent: false,
    };
    match &effects(s.dispatch(msg, &IpcRole::Service("a".into())))[0] {
        IpcEffect::ShowNotification { service_id, service_name, .. } => {
            assert_eq!(service_id, "a");
            assert_eq!(service_name, "Work");
        }
        _ => panic!("expected a notification"),
    }
    // Gated by the sender's own flags, not the active service's.
    s.service_manager.get_config_mut("a").unwrap().is_muted = true;
    let msg = IpcMessage::Notification {
        service_id: String::new(),
        title: "T".into(),
        body: String::new(),
        icon: String::new(),
        tag: String::new(),
        silent: false,
    };
    assert!(effects(s.dispatch(msg, &IpcRole::Service("a".into()))).is_empty());
}

#[test]
fn open_url_only_for_allowed_schemes() {
    let mut s = state();
    let e = effects(s.dispatch(IpcMessage::OpenUrl { url: "https://x.org".into() }, &IpcRole::Unknown));
    assert!(matches!(&e[0], IpcEffect::OpenExternal(u) if u == "https://x.org"));
    let e = effects(s.dispatch(IpcMessage::OpenUrl { url: "file:///etc/passwd".into() }, &IpcRole::Unknown));
    assert!(e.is_empty());
}

#[test]
fn activate_backgrounds_previous_service() {
    let mut s = state();
    s.active_service_id = Some("a".into());
    let e = effects(s.dispatch(IpcMessage::ActivateService { service_id: "b".into() }, &IpcRole::Sidebar));
    assert_eq!(s.service_manager.get_runtime("a").unwrap().lifecycle, ServiceLifecycleState::Backgrounded);
    assert!(matches!(&e[0], IpcEffect::EnsureBrowserView(id) if id == "b"));
    assert!(matches!(&e[1], IpcEffect::SwapContentView(id) if id == "b"));
    assert!(matches!(e[2], IpcEffect::RefreshSidebar));
    s.complete_swap("b", true);
    assert_eq!(s.active_service_id.as_deref(), Some("b"));
    assert_eq!(s.displayed_service_id.as_deref(), Some("b"));
    assert_eq!(s.service_manager.get_runtime("b").unwrap().lifecycle, ServiceLifecycleState::Active);
}

#[test]
fn add_service_appends_with_random_id() {
    let mut s = state();
    let msg = IpcMessage::AddService {
        recipe_id: "slack".into(),
        name: "Work 2".into(),
        url: None,
        team: Some("acme".into()),
    };
    let e = effects(s.dispatch(msg, &IpcRole::TrustedOverlay));
    let added = s.service_manager.services().last().unwrap().clone();
    assert_eq!(added.id.len(), 36);
    assert_eq!(added.id.matches('-').count(), 4);
    assert_eq!(added.sort_order, 2);
    assert_eq!(added.team.as_deref(), Some("acme"));
    assert!(matches!(&e[0], IpcEffect::SaveService(c) if c.id == added.id));
    assert!(matches!(&e[1], IpcEffect::CreateBrowserView(id) if *id == added.id));
    assert!(matches!(&e[2], IpcEffect::SwapContentView(id) if *id == added.id));
    assert!(s.service_manager.get_runtime(&added.id).is_some());
}

#[test]
fn reorder_assigns_positions_and_saves_all() {
    let mut s = state();
    let ids = vec!["b".to_string(), "a".to_string(), "ghost".to_string()];
    let e = effects(s.dispatch(IpcMessage::ReorderServices { service_ids: ids }, &IpcRole::Sidebar));
    assert_eq!(s.service_manager.get_config("b").unwrap().sort_order, 0);
    assert_eq!(s.service_manager.get_config("a").unwrap().sort_order, 1);
    assert_eq!(e.len(), 3);
    let order: Vec<&str> = s.service_manager.sorted_services().iter().map(|c| c.id.as_str()).collect();
    assert_eq!(order, vec!["b", "a"]);
}

#[test]
fn set_flag_and_rename() {
    let mut s = state();
    let msg = IpcMessage::SetServiceFlag { service_id: "a".into(), flag: "darkMode".into(), value: true };
    assert_eq!(effects(s.dispatch(msg, &IpcRole::Sidebar)).len(), 2);
    assert!(s.service_manager.get_config("a").unwrap().is_dark_mode_enabled);
    let msg = IpcMessage::SetServiceFlag { service_id: "a".into(), flag: "bogus".into(), value: true };
    assert!(effects(s.dispatch(msg, &IpcRole::Sidebar)).is_empty());
    let msg = IpcMessage::SetServiceFlag { service_id: "a".into(), flag: "enabled".into(), value: false };
    effects(s.dispatch(msg, &IpcRole::Sidebar));
    assert!(!s.service_manager.get_config("a").unwrap().is_enabled);
    let msg = IpcMessage::RenameService { service_id: "b".into(), name: "Family".into() };
    assert_eq!(effects(s.dispatch(msg, &IpcRole::Sidebar)).len(), 2);
    assert_eq!(s.service_manager.get_config("b").unwrap().name, "Family");
    let msg = IpcMessage::RenameService { service_id: "zz".into(), name: "X".into() };
    assert!(effects(s.dispatch(msg, &IpcRole::Sidebar)).is_empty());
}

#[test]
fn remove_and_settings_and_titles() {
    let mut s = state();
    let e = effects(s.dispatch(IpcMessage::RemoveService { service_id: "a".into() }, &IpcRole::Sidebar));
    assert!(matches!(&e[0], IpcEffect::CloseBrowser(id) if id == "a"));
    assert!(matches!(&e[1], IpcEffect::DeleteService(id) if id == "a"));
    assert!(s.service_manager.get_config("a").is_none());
    let mut new_settings = AppSettings::default();
    new_settings.enable_dnd = true;
    let e = effects(s.dispatch(IpcMessage::UpdateSettings { settings: new_settings }, &IpcRole::TrustedOverlay));
    assert!(matches!(e[0], IpcEffect::SaveSettings));
    assert!(s.settings.enable_dnd);
    effects(s.dispatch(IpcMessage::DialogTitle { service_id: "b".into(), title: "Chat".into() }, &IpcRole::Sidebar));
    assert_eq!(s.service_manager.get_runtime("b").unwrap().dialog_title.as_deref(), Some("Chat"));
    effects(s.dispatch(IpcMessage::DialogTitle { service_id: "b".into(), title: String::new() }, &IpcRole::Sidebar));
    assert!(s.service_manager.get_runtime("b").unwrap().dialog_title.is_none());
    assert!(matches!(effects(s.dispatch(IpcMessage::OpenPicker {}, &IpcRole::Sidebar))[0], IpcEffect::ShowPicker));
    assert!(effects(s.dispatch(IpcMessage::Avatar { service_id: "b".into(), url: "u".into() }, &IpcRole::Sidebar)).is_empty());
}
