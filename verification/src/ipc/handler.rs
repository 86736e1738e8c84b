//! The IPC dispatcher: trust gating of every message, then the change it
//! makes to the application state and the effects the host must carry out
//! (persisting, opening views, notifying, refreshing the sidebar).

use vstd::prelude::*;
use super::message::IpcMessage;
use super::transport::{is_allowed_url, spec_is_allowed_url};
use crate::app::{AppState, IpcRole, SpecRole, opt_view};
use crate::service::config::ServiceConfig;
use crate::service::manager::{find_config, find_config_index};
use crate::service::state::ServiceRuntimeState;
use crate::settings::AppSettings;
use crate::text::{owned, str_equal};

verus! {

/// Something the host must do after a message has been applied.
#[derive(Debug)]
pub enum IpcEffect {
    /// Push the services, active id and badges to the sidebar.
    RefreshSidebar,
    /// Show this unread total on the tray icon.
    UpdateTrayBadge(u32),
    /// Show an OS notification; clicking it switches to `service_id`.
    ShowNotification { service_id: String, service_name: String, title: String, body: String },
    /// Open the URL with the system handler.
    OpenExternal(String),
    /// Close the service's browser and forget it.
    CloseBrowser(String),
    /// Write the service configuration to the database.
    SaveService(ServiceConfig),
    /// Delete the service from the database.
    DeleteService(String),
    /// Write the settings to the database.
    SaveSettings,
    /// Create a view for the service unless it already has one.
    EnsureBrowserView(String),
    /// Create a view for the service.
    CreateBrowserView(String),
    /// Show the service's view in the content area (see `complete_swap`).
    SwapContentView(String),
    /// Render the settings page in the trusted overlay.
    ShowSettings,
    /// Render the service picker in the trusted overlay.
    ShowPicker,
}

/// `IpcEffect` as a mathematical value.
pub enum EffectView {
    RefreshSidebar,
    UpdateTrayBadge(u32),
    ShowNotification(Seq<char>, Seq<char>, Seq<char>, Seq<char>),
    OpenExternal(Seq<char>),
    CloseBrowser(Seq<char>),
    SaveService(ServiceConfig),
    DeleteService(Seq<char>),
    SaveSettings,
    EnsureBrowserView(Seq<char>),
    CreateBrowserView(Seq<char>),
    SwapContentView(Seq<char>),
    ShowSettings,
    ShowPicker,
}

impl IpcEffect {
    pub open spec fn view(&self) -> EffectView {
        match self {
            IpcEffect::RefreshSidebar => EffectView::RefreshSidebar,
            IpcEffect::UpdateTrayBadge(n) => EffectView::UpdateTrayBadge(*n),
            IpcEffect::ShowNotification { service_id, service_name, title, body } => EffectView::ShowNotification(
                service_id@,
                service_name@,
                title@,
                body@,
            ),
            IpcEffect::OpenExternal(u) => EffectView::OpenExternal(u@),
            IpcEffect::CloseBrowser(s) => EffectView::CloseBrowser(s@),
            IpcEffect::SaveService(c) => EffectView::SaveService(*c),
            IpcEffect::DeleteService(s) => EffectView::DeleteService(s@),
            IpcEffect::SaveSettings => EffectView::SaveSettings,
            IpcEffect::EnsureBrowserView(s) => EffectView::EnsureBrowserView(s@),
            IpcEffect::CreateBrowserView(s) => EffectView::CreateBrowserView(s@),
            IpcEffect::SwapContentView(s) => EffectView::SwapContentView(s@),
            IpcEffect::ShowSettings => EffectView::ShowSettings,
            IpcEffect::ShowPicker => EffectView::ShowPicker,
        }
    }
}

pub open spec fn effects_view(e: Seq<IpcEffect>) -> Seq<EffectView> {
    e.map_values(|x: IpcEffect| x.view())
}

/// Why a message was refused.
#[derive(Debug, PartialEq, Eq, Structural)]
pub enum IpcRejection {
    /// A privileged command from a sender other than the app's own pages.
    Untrusted,
    /// A service page reporting for another service.
    Spoofed,
}

/// What dispatching a message came to.
#[derive(Debug)]
pub enum IpcOutcome {
    /// Refused; nothing changed.
    Rejected(IpcRejection),
    /// Applied; the host carries out these effects in order.
    Handled(Vec<IpcEffect>),
}

/// The app's own pages: the sidebar and the picker/settings overlay.
pub open spec fn spec_is_trusted(role: SpecRole) -> bool {
    role is Sidebar || role is TrustedOverlay
}

/// Why the message is refused, if it is: privileged commands only from
/// trusted pages; a service page may only report (badge, title, avatar,
/// notification) for its own service or for no named service.
pub open spec fn spec_rejection(role: SpecRole, msg: IpcMessage) -> Option<IpcRejection> {
    if msg.spec_is_privileged() && !spec_is_trusted(role) {
        Some(IpcRejection::Untrusted)
    } else {
        match role {
            SpecRole::Service(own) => match msg.spec_reported_service() {
                Some(c) => if c.len() > 0 && c != own {
                    Some(IpcRejection::Spoofed)
                } else {
                    None
                },
                None => None,
            },
            _ => None,
        }
    }
}

/// Applies the trust boundary to a message from `role`.
pub fn check_sender(role: &IpcRole, msg: &IpcMessage) -> (r: Option<IpcRejection>)
    ensures
        r == spec_rejection(role.spec(), *msg),
{
    let trusted = match role {
        IpcRole::Sidebar | IpcRole::TrustedOverlay => true,
        _ => false,
    };
    if msg.is_privileged() && !trusted {
        return Some(IpcRejection::Untrusted);
    }
    if let IpcRole::Service(own) = role {
        if let Some(c) = msg.reported_service() {
            if !c.is_empty() && !str_equal(c, own.as_str()) {
                return Some(IpcRejection::Spoofed);
            }
        }
    }
    None
}

/// Fields of the state other than the services that a message may not touch.
pub open spec fn same_frame(old: AppState, new: AppState) -> bool {
    &&& new.settings == old.settings
    &&& new.recipes == old.recipes
    &&& new.active_service_id == old.active_service_id
    &&& new.displayed_service_id == old.displayed_service_id
    &&& new.pending_service_ids == old.pending_service_ids
}

/// The state is as it was (runtime clocks included).
pub open spec fn unchanged(old: AppState, new: AppState) -> bool {
    &&& same_frame(old, new)
    &&& new.service_manager == old.service_manager
}

/// After a badge report: the counts of the service are replaced (if it is
/// known), nothing else about its runtime but the last-active time moves.
pub open spec fn spec_badge_post(old: AppState, new: AppState, id: Seq<char>, direct: u32, indirect: u32) -> bool {
    let (om, nm) = (old.service_manager, new.service_manager);
    &&& same_frame(old, new)
    &&& nm.wf()
    &&& nm.configs() == om.configs()
    &&& nm.runtimes().dom() == om.runtimes().dom()
    &&& om.runtimes().contains_key(id) ==> {
        &&& nm.runtimes()[id].direct_count == direct
        &&& nm.runtimes()[id].indirect_count == indirect
        &&& nm.runtimes()[id].lifecycle == om.runtimes()[id].lifecycle
        &&& nm.runtimes()[id].dialog_title == om.runtimes()[id].dialog_title
        &&& nm.runtimes().remove(id) == om.runtimes().remove(id)
    }
    &&& !om.runtimes().contains_key(id) ==> nm.runtimes() == om.runtimes()
    &&& nm.spec_total_unread() == if om.runtimes().contains_key(id) {
        om.spec_total_unread() - om.runtimes()[id].spec_total_unread() + direct + indirect
    } else {
        om.spec_total_unread()
    }
}

/// Whether the unread totals stay within `u32` after a badge report.
pub open spec fn spec_badge_fits(s: AppState, id: Seq<char>, direct: u32, indirect: u32) -> bool {
    let m = s.service_manager;
    if m.runtimes().contains_key(id) {
        m.spec_total_unread() - m.runtimes()[id].spec_total_unread() + direct + indirect <= u32::MAX
    } else {
        m.spec_total_unread() <= u32::MAX
    }
}

/// The service a notification is attributed to: the named one; when none
/// is named, the sending service page itself, or for the app's own pages
/// and unknown senders the active service.
pub open spec fn notification_service(s: AppState, named: Seq<char>, sender: SpecRole) -> Seq<char> {
    if named.len() > 0 {
        named
    } else {
        match sender {
            SpecRole::Service(own) => own,
            _ => match opt_view(s.active_service_id) {
                Some(a) => a,
                None => Seq::empty(),
            },
        }
    }
}

/// The notification to show, if any, with the service it is attributed to:
/// that service (if configured) must allow notifications and not be muted,
/// the message must not be silent, and Do Not Disturb must be off.
pub open spec fn spec_notification_effects(s: AppState, named: Seq<char>, sender: SpecRole, title: Seq<char>, body: Seq<char>,
    silent: bool) -> Seq<EffectView> {
    let cfg = find_config(s.service_manager.configs(), notification_service(s, named, sender));
    let enabled = match cfg { Some(c) => c.is_notification_enabled, None => true };
    let muted = match cfg { Some(c) => c.is_muted, None => false };
    let name = match cfg { Some(c) => c.name@, None => Seq::empty() };
    if enabled && !muted && !silent && !s.settings.enable_dnd {
        seq![EffectView::ShowNotification(notification_service(s, named, sender), name, title, body)]
    } else {
        Seq::empty()
    }
}

/// `cfg` with the flag named `flag` set to `value`, if `flag` names one of
/// the per-service toggles.
pub open spec fn spec_apply_flag(cfg: ServiceConfig, flag: Seq<char>, value: bool) -> Option<ServiceConfig> {
    if flag == "muted"@ {
        Some(ServiceConfig { is_muted: value, ..cfg })
    } else if flag == "notifications"@ {
        Some(ServiceConfig { is_notification_enabled: value, ..cfg })
    } else if flag == "badge"@ {
        Some(ServiceConfig { is_badge_enabled: value, ..cfg })
    } else if flag == "darkMode"@ {
        Some(ServiceConfig { is_dark_mode_enabled: value, ..cfg })
    } else if flag == "hibernation"@ {
        Some(ServiceConfig { is_hibernation_enabled: value, ..cfg })
    } else if flag == "enabled"@ {
        Some(ServiceConfig { is_enabled: value, ..cfg })
    } else {
        None
    }
}

/// Configurations after a reorder: for each position `i` of `ids` in turn,
/// the first configuration with that id gets `sort_order` `i`.
pub open spec fn spec_reorder(configs: Seq<ServiceConfig>, ids: Seq<Seq<char>>) -> Seq<ServiceConfig>
    decreases ids.len(),
{
    if ids.len() == 0 {
        configs
    } else {
        let prev = spec_reorder(configs, ids.drop_last());
        match find_config_index(prev, ids.last()) {
            Some(k) => prev.update(k, ServiceConfig { sort_order: (ids.len() - 1) as i32, ..prev[k] }),
            None => prev,
        }
    }
}

/// Each per-service toggle is named by one flag: setting flag `flag` to
/// `value` gives `value` to exactly the toggle it names (`muted`,
/// `notifications`, `badge`, `darkMode`, `hibernation`, `enabled`) and keeps
/// every other field; any other name changes nothing.
pub proof fn lemma_flag_sets_its_own_toggle(cfg: ServiceConfig, flag: Seq<char>, value: bool)
    ensures
        spec_apply_flag(cfg, flag, value) is Some <==> (flag == "muted"@ || flag == "notifications"@ || flag == "badge"@
            || flag == "darkMode"@ || flag == "hibernation"@ || flag == "enabled"@),
        spec_apply_flag(cfg, flag, value) matches Some(r) ==> {
            &&& r.is_muted == if flag == "muted"@ { value } else { cfg.is_muted }
            &&& r.is_notification_enabled == if flag == "notifications"@ { value } else { cfg.is_notification_enabled }
            &&& r.is_badge_enabled == if flag == "badge"@ { value } else { cfg.is_badge_enabled }
            &&& r.is_dark_mode_enabled == if flag == "darkMode"@ { value } else { cfg.is_dark_mode_enabled }
            &&& r.is_hibernation_enabled == if flag == "hibernation"@ { value } else { cfg.is_hibernation_enabled }
            &&& r.is_enabled == if flag == "enabled"@ { value } else { cfg.is_enabled }
            &&& r.id == cfg.id
            &&& r.recipe_id == cfg.recipe_id
            &&& r.name == cfg.name
            &&& r.team == cfg.team
            &&& r.custom_url == cfg.custom_url
            &&& r.sort_order == cfg.sort_order
            &&& r.proxy == cfg.proxy
        },
{
    reveal_strlit("muted");
    reveal_strlit("notifications");
    reveal_strlit("badge");
    reveal_strlit("darkMode");
    reveal_strlit("hibernation");
    reveal_strlit("enabled");
    assert("muted"@.len() == 5 && "notifications"@.len() == 13 && "badge"@.len() == 5);
    assert("darkMode"@.len() == 8 && "hibernation"@.len() == 11 && "enabled"@.len() == 7);
    assert("muted"@[0] != "badge"@[0]);
}

/// A notification is shown only when everything allows it: when the
/// service it is attributed to is configured with notifications off or
/// muted, or the message is silent, or Do Not Disturb is on, nothing is
/// shown; otherwise exactly one notification, for that service, with its
/// name (empty for an unknown service) and the message's title and body.
pub proof fn lemma_notification_gating(s: AppState, named: Seq<char>, sender: SpecRole, title: Seq<char>,
    body: Seq<char>, silent: bool)
    ensures
        ({
            let id = notification_service(s, named, sender);
            let e = spec_notification_effects(s, named, sender, title, body, silent);
            &&& (silent || s.settings.enable_dnd) ==> e.len() == 0
            &&& (find_config(s.service_manager.configs(), id) matches Some(c) && (!c.is_notification_enabled
                || c.is_muted)) ==> e.len() == 0
            &&& (!silent && !s.settings.enable_dnd && match find_config(s.service_manager.configs(), id) {
                Some(c) => c.is_notification_enabled && !c.is_muted,
                None => true,
            }) ==> e == seq![EffectView::ShowNotification(
                id,
                match find_config(s.service_manager.configs(), id) {
                    Some(c) => c.name@,
                    None => Seq::empty(),
                },
                title,
                body,
            )]
        }),
{
}

/// One `SaveService` per configuration, in order.
pub open spec fn save_all(configs: Seq<ServiceConfig>) -> Seq<EffectView> {
    configs.map_values(|c: ServiceConfig| EffectView::SaveService(c))
}

/// The service configuration that adding a service creates.
pub open spec fn spec_added_config(c: ServiceConfig, id: Seq<char>, recipe_id: Seq<char>, name: Seq<char>,
    url: Option<String>, team: Option<String>, count: nat) -> bool {
    &&& c.id@ == id
    &&& c.recipe_id@ == recipe_id
    &&& c.name@ == name
    &&& c.custom_url == url
    &&& c.team == team
    &&& c.sort_order == count as i32
    &&& c.is_enabled
    &&& c.is_notification_enabled
    &&& c.is_badge_enabled
    &&& !c.is_muted
    &&& !c.is_dark_mode_enabled
    &&& c.is_hibernation_enabled
    &&& c.proxy is None
}

/// After a dialog title report: the service's title is set (cleared when
/// empty); nothing else changes but that runtime entry.
pub open spec fn spec_dialog_post(old: AppState, new: AppState, id: Seq<char>, title: String) -> bool {
    let (om, nm) = (old.service_manager, new.service_manager);
    &&& same_frame(old, new)
    &&& nm.configs() == om.configs()
    &&& nm.spec_total_unread() == om.spec_total_unread()
    &&& om.runtimes().contains_key(id) ==> nm.runtimes() == om.runtimes().insert(
        id,
        (ServiceRuntimeState { dialog_title: if title@.len() == 0 { None } else { Some(title) }, ..om.runtimes()[id] }),
    )
    &&& !om.runtimes().contains_key(id) ==> nm.runtimes() == om.runtimes()
}

/// After a switch request: the previously active service (if another one)
/// is backgrounded; the host ensures a view, swaps it in, refreshes.
pub open spec fn spec_activate_post(old: AppState, new: AppState, id: Seq<char>, effects: Seq<EffectView>) -> bool {
    let (om, nm) = (old.service_manager, new.service_manager);
    &&& same_frame(old, new)
    &&& nm.configs() == om.configs()
    &&& nm.spec_total_unread() == om.spec_total_unread()
    &&& match opt_view(old.active_service_id) {
        Some(prev) => if prev != id && om.runtimes().contains_key(prev) {
            nm.runtimes() == om.runtimes().insert(
                prev,
                (ServiceRuntimeState {
                    lifecycle: crate::service::state::ServiceLifecycleState::Backgrounded,
                    ..om.runtimes()[prev]
                }),
            )
        } else {
            nm.runtimes() == om.runtimes()
        },
        None => nm.runtimes() == om.runtimes(),
    }
    &&& effects == seq![EffectView::EnsureBrowserView(id), EffectView::SwapContentView(id), EffectView::RefreshSidebar]
}

/// After adding the service `id`: it is appended (last in sort order) with a
/// fresh runtime state, saved, given a view, switched to; sidebar refreshed.
pub open spec fn spec_add_post(old: AppState, new: AppState, id: Seq<char>, recipe_id: Seq<char>, name: Seq<char>,
    url: Option<String>, team: Option<String>, effects: Seq<EffectView>) -> bool {
    let (om, nm) = (old.service_manager, new.service_manager);
    &&& same_frame(old, new)
    &&& nm.configs().len() == om.configs().len() + 1
    &&& nm.configs().drop_last() == om.configs()
    &&& spec_added_config(nm.configs().last(), id, recipe_id, name, url, team, om.configs().len())
    &&& nm.runtimes().dom() == om.runtimes().dom().insert(id)
    &&& nm.runtimes()[id].is_fresh()
    &&& nm.runtimes().remove(id) == om.runtimes().remove(id)
    &&& effects == seq![
        EffectView::SaveService(nm.configs().last()),
        EffectView::CreateBrowserView(id),
        EffectView::SwapContentView(id),
        EffectView::RefreshSidebar,
    ]
}

/// After removing `id`: its configurations and runtime state are gone; the
/// host closes its browser, deletes it from storage, refreshes.
pub open spec fn spec_remove_post(old: AppState, new: AppState, id: Seq<char>, effects: Seq<EffectView>) -> bool {
    let (om, nm) = (old.service_manager, new.service_manager);
    &&& same_frame(old, new)
    &&& nm.configs() == om.configs().filter(|c: ServiceConfig| c.id@ != id)
    &&& nm.runtimes() == om.runtimes().remove(id)
    &&& effects == seq![EffectView::CloseBrowser(id), EffectView::DeleteService(id), EffectView::RefreshSidebar]
}

/// After a reorder: sort orders follow the list; every service is saved.
pub open spec fn spec_reorder_post(old: AppState, new: AppState, ids: Seq<Seq<char>>, effects: Seq<EffectView>) -> bool {
    let (om, nm) = (old.service_manager, new.service_manager);
    &&& same_frame(old, new)
    &&& nm.configs() == spec_reorder(om.configs(), ids)
    &&& nm.runtimes() == om.runtimes()
    &&& nm.spec_total_unread() == om.spec_total_unread()
    &&& effects == save_all(nm.configs()).push(EffectView::RefreshSidebar)
}

/// After a flag change: the first service with `id` gets the flag, is saved
/// and the sidebar refreshed; an unknown service or flag changes nothing.
pub open spec fn spec_flag_post(old: AppState, new: AppState, id: Seq<char>, flag: Seq<char>, value: bool,
    effects: Seq<EffectView>) -> bool {
    let (om, nm) = (old.service_manager, new.service_manager);
    &&& same_frame(old, new)
    &&& nm.runtimes() == om.runtimes()
    &&& nm.spec_total_unread() == om.spec_total_unread()
    &&& match find_config_index(om.configs(), id) {
        Some(k) => match spec_apply_flag(om.configs()[k], flag, value) {
            Some(c) => nm.configs() == om.configs().update(k, c)
                && effects == seq![EffectView::SaveService(c), EffectView::RefreshSidebar],
            None => nm.configs() == om.configs() && effects.len() == 0,
        },
        None => nm.configs() == om.configs() && effects.len() == 0,
    }
}

/// After a rename: the first service with `id` gets the name, is saved and
/// the sidebar refreshed; an unknown service changes nothing.
pub open spec fn spec_rename_post(old: AppState, new: AppState, id: Seq<char>, name: String,
    effects: Seq<EffectView>) -> bool {
    let (om, nm) = (old.service_manager, new.service_manager);
    &&& same_frame(old, new)
    &&& nm.runtimes() == om.runtimes()
    &&& nm.spec_total_unread() == om.spec_total_unread()
    &&& match find_config_index(om.configs(), id) {
        Some(k) => {
            let c = ServiceConfig { name: name, ..om.configs()[k] };
            nm.configs() == om.configs().update(k, c)
                && effects == seq![EffectView::SaveService(c), EffectView::RefreshSidebar]
        },
        None => nm.configs() == om.configs() && effects.len() == 0,
    }
}

/// Pages other than the app's own (service pages and unrecognized senders)
/// can never run a privileged command.
pub proof fn lemma_untrusted_cannot_command(role: SpecRole, msg: IpcMessage)
    requires
        msg.spec_is_privileged(),
        !spec_is_trusted(role),
    ensures
        spec_rejection(role, msg) == Some(IpcRejection::Untrusted),
{
}

/// A service page cannot report a badge, title, avatar or notification for
/// another named service.
pub proof fn lemma_service_cannot_spoof(own: Seq<char>, msg: IpcMessage)
    requires
        msg.spec_reported_service() matches Some(c) && c.len() > 0 && c != own,
    ensures
        spec_rejection(SpecRole::Service(own), msg) is Some,
{
}

/// The app's own pages are never refused.
pub proof fn lemma_trusted_never_refused(role: SpecRole, msg: IpcMessage)
    requires
        spec_is_trusted(role),
    ensures
        spec_rejection(role, msg) is None,
{
}

/// A service page may report about itself (or without naming a service),
/// and may always send non-privileged messages.
pub proof fn lemma_service_may_report_itself(own: Seq<char>, msg: IpcMessage)
    requires
        !msg.spec_is_privileged(),
        msg.spec_reported_service() matches Some(c) ==> (c.len() == 0 || c == own),
    ensures
        spec_rejection(SpecRole::Service(own), msg) is None,
{
}

/// A notification that a service page may send is always attributed to
/// that page's own service, never to another (the active one included).
pub proof fn lemma_notification_stays_with_its_service(s: AppState, own: Seq<char>, msg: IpcMessage)
    requires
        spec_rejection(SpecRole::Service(own), msg) is None,
    ensures
        match msg {
            IpcMessage::Notification { service_id, .. } => notification_service(s, service_id@, SpecRole::Service(own))
                == own,
            _ => true,
        },
{
}

proof fn lemma_find_index_same_ids(a: Seq<ServiceConfig>, b: Seq<ServiceConfig>, id: Seq<char>)
    requires
        a.len() == b.len(),
        forall|i: int| 0 <= i < a.len() ==> #[trigger] a[i].id == b[i].id,
    ensures
        find_config_index(a, id) == find_config_index(b, id),
    decreases a.len(),
{
    if a.len() > 0 {
        assert(a[0].id == b[0].id);
        lemma_find_index_same_ids(a.drop_first(), b.drop_first(), id);
    }
}

proof fn lemma_reorder_keeps_ids(configs: Seq<ServiceConfig>, ids: Seq<Seq<char>>)
    ensures
        spec_reorder(configs, ids).len() == configs.len(),
        forall|i: int| 0 <= i < configs.len() ==> #[trigger] spec_reorder(configs, ids)[i].id == configs[i].id,
    decreases ids.len(),
{
    if ids.len() > 0 {
        lemma_reorder_keeps_ids(configs, ids.drop_last());
        let prev = spec_reorder(configs, ids.drop_last());
        crate::service::manager::lemma_find_config_index_valid(prev, ids.last());
    }
}

/// After a reorder, a listed service (listed once, and the first service
/// with its id) has its position in the list as sort order.
pub proof fn lemma_reorder_assigns_position(configs: Seq<ServiceConfig>, ids: Seq<Seq<char>>, k: int, p: int)
    requires
        0 <= k < ids.len(),
        forall|j: int| 0 <= j < ids.len() && j != k ==> #[trigger] ids[j] != ids[k],
        find_config_index(configs, ids[k]) == Some(p),
    ensures
        0 <= p < configs.len(),
        spec_reorder(configs, ids)[p].sort_order == k as i32,
    decreases ids.len(),
{
    crate::service::manager::lemma_find_config_index_valid(configs, ids[k]);
    let prev = spec_reorder(configs, ids.drop_last());
    lemma_reorder_keeps_ids(configs, ids.drop_last());
    lemma_find_index_same_ids(prev, configs, ids[k]);
    lemma_find_index_same_ids(prev, configs, ids.last());
    crate::service::manager::lemma_find_config_index_valid(prev, ids.last());
    if k == ids.len() - 1 {
    } else {
        assert forall|j: int| 0 <= j < ids.drop_last().len() && j != k implies #[trigger] ids.drop_last()[j]
            != ids.drop_last()[k] by {
            assert(ids.drop_last()[j] == ids[j]);
        }
        lemma_reorder_assigns_position(configs, ids.drop_last(), k, p);
        assert(ids.last() != ids[k]);
        match find_config_index(prev, ids.last()) {
            Some(q) => {
                assert(prev[q].id@ == ids.last());
                assert(prev[p].id@ == ids[k]);
                assert(q != p);
            },
            None => {},
        }
    }
}

/// A UUID in its hyphenated text form: 36 characters, `-` at positions 8,
/// 13, 18 and 23, lowercase hex digits elsewhere.
pub open spec fn is_hyphenated_uuid(id: Seq<char>) -> bool {
    &&& id.len() == 36
    &&& forall|i: int| 0 <= i < 36 ==> (#[trigger] id[i] == '-' <==> (i == 8 || i == 13 || i == 18 || i == 23))
    &&& forall|i: int| 0 <= i < 36 && i != 8 && i != 13 && i != 18 && i != 23 ==> ('0' <= #[trigger] id[i] <= '9'
        || 'a' <= id[i] <= 'f')
}

/// Makes a fresh service id: a random (version 4) UUID in its hyphenated
/// form (`uuid::Uuid::new_v4`, shown with `Display`). Which digits come out
/// is random and not stated.
#[verifier::external_body]
fn new_service_id() -> (id: String)
    ensures
        is_hyphenated_uuid(id@),
{
    uuid::Uuid::new_v4().to_string()
}

pub open spec fn ids_view(ids: Seq<String>) -> Seq<Seq<char>> {
    ids.map_values(|s: String| s@)
}

fn save_all_effects(configs: &Vec<ServiceConfig>, effects: &mut Vec<IpcEffect>)
    ensures
        effects_view(final(effects)@) == effects_view(old(effects)@) + save_all(configs@),
{
    let mut i: usize = 0;
    while i < configs.len()
        invariant
            i <= configs.len(),
            effects_view(effects@) == effects_view(old(effects)@) + save_all(configs@.take(i as int)),
        decreases configs.len() - i,
    {
        let ghost before = effects@;
        effects.push(IpcEffect::SaveService(configs[i].clone()));
        assert(effects_view(effects@) =~= effects_view(before).push(EffectView::SaveService(configs@[i as int])));
        assert(save_all(configs@.take(i + 1)) =~= save_all(configs@.take(i as int)).push(
            EffectView::SaveService(configs@[i as int]),
        ));
        assert(effects_view(effects@) =~= effects_view(old(effects)@) + save_all(configs@.take(i + 1)));
        i = i + 1;
    }
    assert(configs@.take(i as int) =~= configs@);
}

impl AppState {
    /// A badge report: store the counts, refresh the sidebar and the tray.
    pub fn on_badge(&mut self, service_id: &str, direct: u32, indirect: u32) -> (effects: Vec<IpcEffect>)
        requires
            old(self).wf(),
            spec_badge_fits(*old(self), service_id@, direct, indirect),
        ensures
            final(self).wf(),
            spec_badge_post(*old(self), *final(self), service_id@, direct, indirect),
            effects_view(effects@) == seq![
                EffectView::RefreshSidebar,
                EffectView::UpdateTrayBadge(final(self).service_manager.spec_total_unread() as u32),
            ],
    {
        self.service_manager.update_badge(service_id, direct, indirect);
        let total = self.service_manager.total_unread();
        let mut effects: Vec<IpcEffect> = Vec::new();
        effects.push(IpcEffect::RefreshSidebar);
        effects.push(IpcEffect::UpdateTrayBadge(total));
        assert(effects_view(effects@) =~= seq![
            EffectView::RefreshSidebar,
            EffectView::UpdateTrayBadge(self.service_manager.spec_total_unread() as u32),
        ]);
        effects
    }

    /// A notification from a page: shown only when allowed (see
    /// `spec_notification_effects`); the state does not change.
    pub fn on_notification(&self, service_id: &str, sender: &IpcRole, title: String, body: String, silent: bool)
        -> (effects: Vec<IpcEffect>)
        ensures
            effects_view(effects@) == spec_notification_effects(*self, service_id@, sender.spec(), title@, body@, silent),
    {
        let lookup: &str = if service_id.is_empty() {
            match sender {
                IpcRole::Service(own) => own.as_str(),
                _ => match &self.active_service_id {
                    Some(a) => a.as_str(),
                    None => "",
                },
            }
        } else {
            service_id
        };
        proof {
            reveal_strlit("");
            assert(""@ =~= Seq::<char>::empty());
        }
        let cfg = self.service_manager.get_config(lookup);
        let (enabled, muted, name) = match cfg {
            Some(c) => (c.is_notification_enabled, c.is_muted, c.name.clone()),
            None => (true, false, String::new()),
        };
        let mut effects: Vec<IpcEffect> = Vec::new();
        if enabled && !muted && !silent && !self.settings.enable_dnd {
            effects.push(IpcEffect::ShowNotification { service_id: owned(lookup), service_name: name, title, body });
        }
        assert(effects_view(effects@) =~= spec_notification_effects(*self, service_id@, sender.spec(), title@, body@, silent));
        effects
    }

    /// A dialog title report: an empty title clears it.
    pub fn on_dialog_title(&mut self, service_id: &str, title: String)
        requires
            old(self).wf(),
        ensures
            final(self).wf(),
            spec_dialog_post(*old(self), *final(self), service_id@, title),
    {
        let t = if title.as_str().is_empty() { None } else { Some(title) };
        self.service_manager.set_dialog_title(service_id, t);
    }

    /// A request to switch to `service_id`: the previously active service is
    /// backgrounded; the host then makes sure the service has a view, swaps
    /// it in and refreshes the sidebar.
    pub fn on_activate_service(&mut self, service_id: String) -> (effects: Vec<IpcEffect>)
        requires
            old(self).wf(),
        ensures
            final(self).wf(),
            spec_activate_post(*old(self), *final(self), service_id@, effects_view(effects@)),
    {
        self.background_previous(service_id.as_str());
        let mut effects: Vec<IpcEffect> = Vec::new();
        effects.push(IpcEffect::EnsureBrowserView(service_id.clone()));
        effects.push(IpcEffect::SwapContentView(service_id));
        effects.push(IpcEffect::RefreshSidebar);
        assert(effects_view(effects@) =~= seq![
            EffectView::EnsureBrowserView(service_id@),
            EffectView::SwapContentView(service_id@),
            EffectView::RefreshSidebar,
        ]);
        effects
    }

    /// Adds a service with the given id: it goes last in the sort order, is
    /// saved, gets a view, is switched to, and the sidebar is refreshed.
    pub fn on_add_service(&mut self, id: String, recipe_id: String, name: String, url: Option<String>,
        team: Option<String>) -> (effects: Vec<IpcEffect>)
        requires
            old(self).wf(),
        ensures
            final(self).wf(),
            spec_add_post(*old(self), *final(self), id@, recipe_id@, name@, url, team, effects_view(effects@)),
    {
        let mut config = ServiceConfig::new(id.clone(), recipe_id, name);
        config.custom_url = url;
        config.team = team;
        let count = self.service_manager.services().len();
        config.sort_order = count as i32;
        let saved = config.clone();
        self.service_manager.add_service(config);
        assert(self.service_manager.configs().drop_last() =~= old(self).service_manager.configs());
        let mut effects: Vec<IpcEffect> = Vec::new();
        effects.push(IpcEffect::SaveService(saved));
        effects.push(IpcEffect::CreateBrowserView(id.clone()));
        effects.push(IpcEffect::SwapContentView(id));
        effects.push(IpcEffect::RefreshSidebar);
        assert(effects_view(effects@) =~= seq![
            EffectView::SaveService(self.service_manager.configs().last()),
            EffectView::CreateBrowserView(id@),
            EffectView::SwapContentView(id@),
            EffectView::RefreshSidebar,
        ]);
        effects
    }

    /// Removes a service: its browser is closed, it is deleted from the
    /// database and the sidebar is refreshed.
    pub fn on_remove_service(&mut self, service_id: String) -> (effects: Vec<IpcEffect>)
        requires
            old(self).wf(),
        ensures
            final(self).wf(),
            spec_remove_post(*old(self), *final(self), service_id@, effects_view(effects@)),
    {
        self.service_manager.remove_service(service_id.as_str());
        let mut effects: Vec<IpcEffect> = Vec::new();
        effects.push(IpcEffect::CloseBrowser(service_id.clone()));
        effects.push(IpcEffect::DeleteService(service_id));
        effects.push(IpcEffect::RefreshSidebar);
        assert(effects_view(effects@) =~= seq![
            EffectView::CloseBrowser(service_id@),
            EffectView::DeleteService(service_id@),
            EffectView::RefreshSidebar,
        ]);
        effects
    }

    /// A new order for the services: each listed id gets its position as
    /// sort order; then every service is saved and the sidebar refreshed.
    pub fn on_reorder_services(&mut self, service_ids: &Vec<String>) -> (effects: Vec<IpcEffect>)
        requires
            old(self).wf(),
        ensures
            final(self).wf(),
            spec_reorder_post(*old(self), *final(self), ids_view(service_ids@), effects_view(effects@)),
    {
        let ghost ids = ids_view(service_ids@);
        let ghost orig = self.service_manager.configs();
        let mut i: usize = 0;
        assert(ids.take(0) =~= Seq::<Seq<char>>::empty());
        while i < service_ids.len()
            invariant
                i <= service_ids.len(),
                ids == ids_view(service_ids@),
                self.wf(),
                same_frame(*old(self), *self),
                self.service_manager.configs() == spec_reorder(orig, ids.take(i as int)),
                self.service_manager.runtimes() == old(self).service_manager.runtimes(),
                self.service_manager.spec_total_unread() == old(self).service_manager.spec_total_unread(),
            decreases service_ids.len() - i,
        {
            assert(ids.take(i + 1).drop_last() =~= ids.take(i as int));
            assert(ids.take(i + 1).last() == service_ids@[i as int]@);
            if let Some(cfg) = self.service_manager.get_config_mut(service_ids[i].as_str()) {
                cfg.sort_order = i as i32;
            }
            i = i + 1;
        }
        assert(ids.take(i as int) =~= ids);
        let mut effects: Vec<IpcEffect> = Vec::new();
        save_all_effects(self.service_manager.services(), &mut effects);
        effects.push(IpcEffect::RefreshSidebar);
        assert(effects_view(effects@) =~= save_all(self.service_manager.configs()).push(EffectView::RefreshSidebar));
        effects
    }

    /// New settings from the settings page; they are then saved.
    pub fn on_update_settings(&mut self, settings: AppSettings) -> (effects: Vec<IpcEffect>)
        ensures
            final(self).settings == settings,
            final(self).service_manager == old(self).service_manager,
            final(self).recipes == old(self).recipes,
            final(self).active_service_id == old(self).active_service_id,
            final(self).displayed_service_id == old(self).displayed_service_id,
            final(self).pending_service_ids == old(self).pending_service_ids,
            effects_view(effects@) == seq![EffectView::SaveSettings],
    {
        self.settings = settings;
        let mut effects: Vec<IpcEffect> = Vec::new();
        effects.push(IpcEffect::SaveSettings);
        assert(effects_view(effects@) =~= seq![EffectView::SaveSettings]);
        effects
    }

    /// Sets a per-service toggle; an unknown service or flag changes nothing.
    pub fn on_set_service_flag(&mut self, service_id: &str, flag: &str, value: bool) -> (effects: Vec<IpcEffect>)
        requires
            old(self).wf(),
        ensures
            final(self).wf(),
            spec_flag_post(*old(self), *final(self), service_id@, flag@, value, effects_view(effects@)),
    {
        let known = str_equal(flag, "muted") || str_equal(flag, "notifications") || str_equal(flag, "badge")
            || str_equal(flag, "darkMode") || str_equal(flag, "hibernation") || str_equal(flag, "enabled");
        let mut saved: Option<ServiceConfig> = None;
        if known {
            if let Some(cfg) = self.service_manager.get_config_mut(service_id) {
                if str_equal(flag, "muted") {
                    cfg.is_muted = value;
                } else if str_equal(flag, "notifications") {
                    cfg.is_notification_enabled = value;
                } else if str_equal(flag, "badge") {
                    cfg.is_badge_enabled = value;
                } else if str_equal(flag, "darkMode") {
                    cfg.is_dark_mode_enabled = value;
                } else if str_equal(flag, "hibernation") {
                    cfg.is_hibernation_enabled = value;
                } else {
                    cfg.is_enabled = value;
                }
                saved = Some(cfg.clone());
            }
        }
        let mut effects: Vec<IpcEffect> = Vec::new();
        if let Some(c) = saved {
            let ghost cv = c;
            effects.push(IpcEffect::SaveService(c));
            effects.push(IpcEffect::RefreshSidebar);
            assert(effects_view(effects@) =~= seq![EffectView::SaveService(cv), EffectView::RefreshSidebar]);
        }
        effects
    }

    /// Renames a service; an unknown service changes nothing.
    pub fn on_rename_service(&mut self, service_id: &str, name: String) -> (effects: Vec<IpcEffect>)
        requires
            old(self).wf(),
        ensures
            final(self).wf(),
            spec_rename_post(*old(self), *final(self), service_id@, name, effects_view(effects@)),
    {
        let mut saved: Option<ServiceConfig> = None;
        if let Some(cfg) = self.service_manager.get_config_mut(service_id) {
            cfg.name = name;
            saved = Some(cfg.clone());
        }
        let mut effects: Vec<IpcEffect> = Vec::new();
        if let Some(c) = saved {
            let ghost cv = c;
            effects.push(IpcEffect::SaveService(c));
            effects.push(IpcEffect::RefreshSidebar);
            assert(effects_view(effects@) =~= seq![EffectView::SaveService(cv), EffectView::RefreshSidebar]);
        }
        effects
    }
}

/// What applying an accepted message does to the state and which effects
/// it asks for.
pub open spec fn spec_dispatch_post(old: AppState, new: AppState, msg: IpcMessage, sender: SpecRole,
    effects: Seq<EffectView>) -> bool {
    match msg {
        IpcMessage::Badge { service_id, direct, indirect } => spec_badge_post(old, new, service_id@, direct, indirect)
            && effects == seq![
            EffectView::RefreshSidebar,
            EffectView::UpdateTrayBadge(new.service_manager.spec_total_unread() as u32),
        ],
        IpcMessage::Notification { service_id, title, body, silent, .. } => unchanged(old, new) && effects
            == spec_notification_effects(old, service_id@, sender, title@, body@, silent),
        IpcMessage::DialogTitle { service_id, title } => spec_dialog_post(old, new, service_id@, title)
            && effects.len() == 0,
        IpcMessage::Avatar { .. } => unchanged(old, new) && effects.len() == 0,
        IpcMessage::OpenUrl { url } => unchanged(old, new) && effects == if spec_is_allowed_url(url@) {
            seq![EffectView::OpenExternal(url@)]
        } else {
            Seq::empty()
        },
        IpcMessage::ActivateService { service_id } => spec_activate_post(old, new, service_id@, effects),
        IpcMessage::AddService { recipe_id, name, url, team } => exists|id: Seq<char>|
            is_hyphenated_uuid(id) && #[trigger] spec_add_post(old, new, id, recipe_id@, name@, url, team, effects),
        IpcMessage::RemoveService { service_id } => spec_remove_post(old, new, service_id@, effects),
        IpcMessage::ReorderServices { service_ids } => spec_reorder_post(old, new, ids_view(service_ids@), effects),
        IpcMessage::OpenPicker {} => unchanged(old, new) && effects == seq![EffectView::ShowPicker],
        IpcMessage::OpenSettings {} => unchanged(old, new) && effects == seq![EffectView::ShowSettings],
        IpcMessage::UpdateSettings { settings } => new == (AppState { settings: settings, ..old })
            && effects == seq![EffectView::SaveSettings],
        IpcMessage::SetServiceFlag { service_id, flag, value } => spec_flag_post(old, new, service_id@, flag@, value,
            effects),
        IpcMessage::RenameService { service_id, name } => spec_rename_post(old, new, service_id@, name, effects),
    }
}

fn no_effects() -> (v: Vec<IpcEffect>)
    ensures
        effects_view(v@) == Seq::<EffectView>::empty(),
{
    let v: Vec<IpcEffect> = Vec::new();
    assert(effects_view(v@) =~= Seq::<EffectView>::empty());
    v
}

fn single(e: IpcEffect) -> (v: Vec<IpcEffect>)
    ensures
        effects_view(v@) == seq![e.view()],
{
    let mut v: Vec<IpcEffect> = Vec::new();
    v.push(e);
    assert(effects_view(v@) =~= seq![e.view()]);
    v
}

impl AppState {
    /// Whether the unread totals still fit in a `u32` after a badge report.
    pub fn badge_fits(&self, service_id: &str, direct: u32, indirect: u32) -> (b: bool)
        requires
            self.wf(),
        ensures
            b == spec_badge_fits(*self, service_id@, direct, indirect),
    {
        self.service_manager.badge_update_fits(service_id, direct, indirect)
    }

    /// Handles one IPC message from the sender classified as `role`. A
    /// message that the trust boundary refuses changes nothing; any other is
    /// applied as `spec_dispatch_post` states.
    pub fn dispatch(&mut self, msg: IpcMessage, role: &IpcRole) -> (r: IpcOutcome)
        requires
            old(self).wf(),
            spec_rejection(role.spec(), msg) is None ==> (msg matches IpcMessage::Badge { service_id, direct, indirect }
                ==> spec_badge_fits(*old(self), service_id@, direct, indirect)),
        ensures
            final(self).wf(),
            match spec_rejection(role.spec(), msg) {
                Some(why) => r == IpcOutcome::Rejected(why) && unchanged(*old(self), *final(self)),
                None => match r {
                    IpcOutcome::Handled(effects) => spec_dispatch_post(*old(self), *final(self), msg, role.spec(),
                        effects_view(effects@)),
                    IpcOutcome::Rejected(_) => false,
                },
            },
    {
        if let Some(why) = check_sender(role, &msg) {
            return IpcOutcome::Rejected(why);
        }
        let effects = match msg {
            IpcMessage::Badge { service_id, direct, indirect } => self.on_badge(service_id.as_str(), direct, indirect),
            IpcMessage::Notification { service_id, title, body, icon: _, tag: _, silent } => self.on_notification(
                service_id.as_str(),
                role,
                title,
                body,
                silent,
            ),
            IpcMessage::DialogTitle { service_id, title } => {
                self.on_dialog_title(service_id.as_str(), title);
                no_effects()
            },
            IpcMessage::Avatar { .. } => no_effects(),
            IpcMessage::OpenUrl { url } => {
                if is_allowed_url(url.as_str()) {
                    single(IpcEffect::OpenExternal(url))
                } else {
                    no_effects()
                }
            },
            IpcMessage::ActivateService { service_id } => self.on_activate_service(service_id),
            IpcMessage::AddService { recipe_id, name, url, team } => {
                let id = new_service_id();
                self.on_add_service(id, recipe_id, name, url, team)
            },
            IpcMessage::RemoveService { service_id } => self.on_remove_service(service_id),
            IpcMessage::ReorderServices { service_ids } => self.on_reorder_services(&service_ids),
            IpcMessage::OpenPicker {} => single(IpcEffect::ShowPicker),
            IpcMessage::OpenSettings {} => single(IpcEffect::ShowSettings),
            IpcMessage::UpdateSettings { settings } => self.on_update_settings(settings),
            IpcMessage::SetServiceFlag { service_id, flag, value } => self.on_set_service_flag(
                service_id.as_str(),
                flag.as_str(),
                value,
            ),
            IpcMessage::RenameService { service_id, name } => self.on_rename_service(service_id.as_str(), name),
        };
        IpcOutcome::Handled(effects)
    }
}

} // verus!
