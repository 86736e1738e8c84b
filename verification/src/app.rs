//! Application state that the IPC dispatcher and the view handling read
//! and change, and the trust classification of IPC senders.

use vstd::prelude::*;
use crate::recipe::loader::{last_of_each_id, recipes_by_id};
use crate::recipe::model::Recipe;
use crate::service::config::ServiceConfig;
use crate::service::manager::{find_config, ServiceManager};
use crate::service::state::ServiceLifecycleState;
use crate::settings::AppSettings;
use crate::text::{contains_seq, contains_str, owned, push_char, replace_all, replace_str, str_equal};

verus! {

/// Reserved key for the transient trusted overlay (picker/settings) among
/// the browsers. Not a real service.
pub const OVERLAY_ID: &'static str = "__overlay__";

pub open spec fn overlay_id() -> Seq<char> {
    "__overlay__"@
}

/// Which surface an IPC message came from: the IPC trust boundary.
#[derive(Debug, PartialEq, Eq)]
pub enum IpcRole {
    /// The app's own sidebar browser (fully trusted).
    Sidebar,
    /// The transient picker/settings overlay (our own trusted UI).
    TrustedOverlay,
    /// A loaded third-party service webview (untrusted); may only send events
    /// about its own serviceId.
    Service(String),
    /// Unrecognized sender: treated as untrusted.
    Unknown,
}

/// The role of the sender with browser identifier `sender`, given the
/// sidebar's identifier and the `(key, identifier)` pairs of the other
/// browsers in the order they are consulted: the sidebar first, then the
/// overlay (the first browser keyed by the overlay id), then the first
/// service browser with that identifier.
pub open spec fn spec_classify(sidebar: Option<i32>, browsers: Seq<(Seq<char>, i32)>, sender: Option<i32>) -> SpecRole {
    match sender {
        None => SpecRole::Unknown,
        Some(id) => if sidebar == Some(id) {
            SpecRole::Sidebar
        } else if overlay_identifier(browsers) == Some(id) {
            SpecRole::TrustedOverlay
        } else {
            match first_service_with_identifier(browsers, id) {
                Some(k) => SpecRole::Service(k),
                None => SpecRole::Unknown,
            }
        },
    }
}

/// `IpcRole` as a mathematical value.
pub enum SpecRole {
    Sidebar,
    TrustedOverlay,
    Service(Seq<char>),
    Unknown,
}

impl IpcRole {
    pub open spec fn spec(&self) -> SpecRole {
        match self {
            IpcRole::Sidebar => SpecRole::Sidebar,
            IpcRole::TrustedOverlay => SpecRole::TrustedOverlay,
            IpcRole::Service(s) => SpecRole::Service(s@),
            IpcRole::Unknown => SpecRole::Unknown,
        }
    }
}

pub open spec fn overlay_identifier(browsers: Seq<(Seq<char>, i32)>) -> Option<i32>
    decreases browsers.len(),
{
    if browsers.len() == 0 {
        None
    } else if browsers[0].0 == overlay_id() {
        Some(browsers[0].1)
    } else {
        overlay_identifier(browsers.drop_first())
    }
}

pub open spec fn first_service_with_identifier(browsers: Seq<(Seq<char>, i32)>, id: i32) -> Option<Seq<char>>
    decreases browsers.len(),
{
    if browsers.len() == 0 {
        None
    } else if browsers[0].0 != overlay_id() && browsers[0].1 == id {
        Some(browsers[0].0)
    } else {
        first_service_with_identifier(browsers.drop_first(), id)
    }
}

pub open spec fn browsers_view(browsers: Seq<(String, i32)>) -> Seq<(Seq<char>, i32)> {
    browsers.map_values(|b: (String, i32)| (b.0@, b.1))
}

fn overlay_identifier_exec(browsers: &Vec<(String, i32)>) -> (r: Option<i32>)
    ensures
        r == overlay_identifier(browsers_view(browsers@)),
{
    let ghost bv = browsers_view(browsers@);
    proof {
        reveal_strlit("__overlay__");
    }
    let mut i: usize = 0;
    assert(bv.skip(0) =~= bv);
    while i < browsers.len()
        invariant
            i <= browsers.len(),
            bv == browsers_view(browsers@),
            overlay_identifier(bv) == overlay_identifier(bv.skip(i as int)),
        decreases browsers.len() - i,
    {
        assert(bv.skip(i as int).drop_first() =~= bv.skip(i + 1));
        assert(bv[i as int] == (browsers@[i as int].0@, browsers@[i as int].1));
        if str_equal(browsers[i].0.as_str(), OVERLAY_ID) {
            return Some(browsers[i].1);
        }
        i = i + 1;
    }
    assert(bv.skip(i as int) =~= Seq::<(Seq<char>, i32)>::empty());
    None
}

/// Classifies the browser that sent an IPC message by its identifier.
pub fn classify_sender(sidebar: Option<i32>, browsers: &Vec<(String, i32)>, sender: Option<i32>) -> (r: IpcRole)
    ensures
        r.spec() == spec_classify(sidebar, browsers_view(browsers@), sender),
{
    let ghost bv = browsers_view(browsers@);
    let id = match sender {
        None => return IpcRole::Unknown,
        Some(id) => id,
    };
    if let Some(sb) = sidebar {
        if sb == id {
            return IpcRole::Sidebar;
        }
    }
    proof {
        reveal_strlit("__overlay__");
    }
    let overlay = overlay_identifier_exec(browsers);
    if overlay == Some(id) {
        return IpcRole::TrustedOverlay;
    }
    let mut j: usize = 0;
    assert(bv.skip(0) =~= bv);
    while j < browsers.len()
        invariant
            j <= browsers.len(),
            bv == browsers_view(browsers@),
            first_service_with_identifier(bv, id) == first_service_with_identifier(bv.skip(j as int), id),
            sidebar != Some(id),
            sender == Some(id),
            overlay_identifier(bv) != Some(id),
        decreases browsers.len() - j,
    {
        assert(bv.skip(j as int).drop_first() =~= bv.skip(j + 1));
        assert(bv[j as int] == (browsers@[j as int].0@, browsers@[j as int].1));
        assert(bv.skip(j as int)[0] == bv[j as int]);
        if !str_equal(browsers[j].0.as_str(), OVERLAY_ID) && browsers[j].1 == id {
            return IpcRole::Service(browsers[j].0.clone());
        }
        j = j + 1;
    }
    assert(bv.skip(j as int) =~= Seq::<(Seq<char>, i32)>::empty());
    IpcRole::Unknown
}

/// The sentinel that app pages carry where the shared theme goes.
pub open spec fn theme_sentinel() -> Seq<char> {
    "/*__THEME__*/"@
}

/// Injects the shared theme into an app-owned HTML page at the
/// `/*__THEME__*/` sentinel. Pages without the sentinel are returned
/// unchanged.
pub fn with_theme(html: &str, theme_css: &str) -> (r: String)
    ensures
        r@ == replace_all(html@, theme_sentinel(), theme_css@),
{
    proof {
        reveal_strlit("/*__THEME__*/");
    }
    replace_str(html, "/*__THEME__*/", theme_css)
}

pub open spec fn profile_char(c: char) -> char {
    if ('a' <= c && c <= 'z') || ('A' <= c && c <= 'Z') || ('0' <= c && c <= '9') || c == '-' || c == '_' {
        c
    } else {
        '_'
    }
}

/// The directory name of a service's browser profile: `profile-` followed
/// by the service id with every character other than an ASCII letter, digit,
/// `-` or `_` replaced by `_`.
pub open spec fn spec_profile_dir_name(service_id: Seq<char>) -> Seq<char> {
    "profile-"@ + service_id.map_values(|c: char| profile_char(c))
}

pub fn profile_dir_name(service_id: &str) -> (r: String)
    ensures
        r@ == spec_profile_dir_name(service_id@),
{
    let mut r = owned("profile-");
    let ghost start = r@;
    let v = crate::text::chars_of(service_id);
    let mut i: usize = 0;
    while i < v.len()
        invariant
            i <= v.len(),
            v@ == service_id@,
            start == "profile-"@,
            r@ == start + v@.take(i as int).map_values(|c: char| profile_char(c)),
        decreases v.len() - i,
    {
        let c = v[i];
        let keep = ('a' <= c && c <= 'z') || ('A' <= c && c <= 'Z') || ('0' <= c && c <= '9') || c == '-'
            || c == '_';
        push_char(&mut r, if keep { c } else { '_' });
        assert(v@.take(i + 1).map_values(|c: char| profile_char(c)) =~= v@.take(i as int).map_values(
            |c: char| profile_char(c),
        ).push(profile_char(c)));
        i = i + 1;
    }
    assert(v@.take(i as int) =~= v@);
    r
}

/// Shared application state that the dispatcher reads and changes.
pub struct AppState {
    pub service_manager: ServiceManager,
    pub settings: AppSettings,
    /// The recipe catalog: one recipe per id.
    pub recipes: Vec<Recipe>,
    /// Currently active service ID (its view is, or is about to be, visible).
    pub active_service_id: Option<String>,
    /// The service ID whose content view is displayed (or the overlay id).
    pub displayed_service_id: Option<String>,
    /// IDs waiting for their browser to be created, in creation order.
    pub pending_service_ids: Vec<String>,
}

pub open spec fn opt_view(o: Option<String>) -> Option<Seq<char>> {
    match o {
        Some(s) => Some(s@),
        None => None,
    }
}

/// The first recipe in `s` with `id`.
pub open spec fn find_recipe(s: Seq<Recipe>, id: Seq<char>) -> Option<Recipe>
    decreases s.len(),
{
    if s.len() == 0 {
        None
    } else if s[0].id@ == id {
        Some(s[0])
    } else {
        find_recipe(s.drop_first(), id)
    }
}

impl AppState {
    pub open spec fn wf(&self) -> bool {
        self.service_manager.wf()
    }

    /// The URL that the service with `id` loads: its configuration resolved
    /// against its recipe's service URL (empty when the recipe is unknown).
    pub open spec fn spec_service_url(&self, id: Seq<char>) -> Option<Seq<char>> {
        match find_config(self.service_manager.configs(), id) {
            Some(c) => Some(c.spec_effective_url_with_recipe(
                match find_recipe(self.recipes@, c.recipe_id@) {
                    Some(r) => r.service_url@,
                    None => Seq::empty(),
                },
            )),
            None => None,
        }
    }

    pub fn new(settings: AppSettings, recipes: Vec<Recipe>, services: Vec<ServiceConfig>) -> (s: Self)
        ensures
            s.wf(),
            s.service_manager.configs() == services@,
            forall|k: Seq<char>| #[trigger] s.service_manager.runtimes().contains_key(k) <==> exists|i: int|
                0 <= i < services@.len() && #[trigger] services@[i].id@ == k,
            forall|k: Seq<char>| #[trigger] s.service_manager.runtimes().contains_key(k)
                ==> s.service_manager.runtimes()[k].is_fresh(),
            s.service_manager.total_direct() == 0,
            s.service_manager.total_indirect() == 0,
            s.settings == settings,
            s.recipes@ == last_of_each_id(recipes@),
            s.active_service_id is None,
            s.displayed_service_id is None,
            s.pending_service_ids@.len() == 0,
    {
        AppState {
            service_manager: ServiceManager::new(services),
            settings,
            recipes: recipes_by_id(recipes),
            active_service_id: None,
            displayed_service_id: None,
            pending_service_ids: Vec::new(),
        }
    }

    /// The catalog recipe with `id`.
    pub fn recipe(&self, id: &str) -> (r: Option<&Recipe>)
        ensures
            match r {
                Some(x) => find_recipe(self.recipes@, id@) == Some(*x),
                None => find_recipe(self.recipes@, id@) is None,
            },
    {
        let mut i: usize = 0;
        assert(self.recipes@.skip(0) =~= self.recipes@);
        while i < self.recipes.len()
            invariant
                i <= self.recipes.len(),
                find_recipe(self.recipes@, id@) == find_recipe(self.recipes@.skip(i as int), id@),
            decreases self.recipes.len() - i,
        {
            assert(self.recipes@.skip(i as int).drop_first() =~= self.recipes@.skip(i + 1));
            if str_equal(self.recipes[i].id.as_str(), id) {
                return Some(&self.recipes[i]);
            }
            i = i + 1;
        }
        assert(self.recipes@.skip(i as int) =~= Seq::<Recipe>::empty());
        None
    }

    /// The URL that the service with `id` loads, if it is configured.
    pub fn service_url(&self, id: &str) -> (r: Option<String>)
        ensures
            opt_view(r) == self.spec_service_url(id@),
    {
        let cfg = match self.service_manager.get_config(id) {
            Some(c) => c,
            None => return None,
        };
        let recipe_url: &str = match self.recipe(cfg.recipe_id.as_str()) {
            Some(r) => r.service_url.as_str(),
            None => "",
        };
        proof {
            reveal_strlit("");
            assert(""@ =~= Seq::<char>::empty());
        }
        Some(cfg.effective_url_with_recipe(recipe_url))
    }

    /// Before switching to `target`: the previously active service, if it is
    /// another one, becomes backgrounded.
    pub fn background_previous(&mut self, target: &str)
        requires
            old(self).wf(),
        ensures
            final(self).wf(),
            final(self).settings == old(self).settings,
            final(self).recipes == old(self).recipes,
            final(self).active_service_id == old(self).active_service_id,
            final(self).displayed_service_id == old(self).displayed_service_id,
            final(self).pending_service_ids == old(self).pending_service_ids,
            final(self).service_manager.configs() == old(self).service_manager.configs(),
            final(self).service_manager.total_direct() == old(self).service_manager.total_direct(),
            final(self).service_manager.total_indirect() == old(self).service_manager.total_indirect(),
            match old(self).active_service_id {
                Some(prev) => if prev@ != target@ && old(self).service_manager.runtimes().contains_key(prev@) {
                    final(self).service_manager.runtimes() == old(self).service_manager.runtimes().insert(
                        prev@,
                        (crate::service::state::ServiceRuntimeState {
                            lifecycle: ServiceLifecycleState::Backgrounded,
                            ..old(self).service_manager.runtimes()[prev@]
                        }),
                    )
                } else {
                    final(self).service_manager.runtimes() == old(self).service_manager.runtimes()
                },
                None => final(self).service_manager.runtimes() == old(self).service_manager.runtimes(),
            },
    {
        if let Some(prev) = &self.active_service_id {
            if !str_equal(prev.as_str(), target) {
                let p = prev.clone();
                self.service_manager.set_lifecycle_state(p.as_str(), ServiceLifecycleState::Backgrounded);
            }
        }
    }

    /// After the content view for `target` has been put in place (`has_view`
    /// says whether that service had a view to show): `target` becomes the
    /// active service, is displayed if it had a view, turns `Active` and is
    /// marked as just used.
    pub fn complete_swap(&mut self, target: &str, has_view: bool)
        requires
            old(self).wf(),
        ensures
            final(self).wf(),
            final(self).settings == old(self).settings,
            final(self).recipes == old(self).recipes,
            opt_view(final(self).active_service_id) == Some(target@),
            opt_view(final(self).displayed_service_id) == if has_view {
                Some(target@)
            } else {
                opt_view(old(self).displayed_service_id)
            },
            final(self).pending_service_ids == old(self).pending_service_ids,
            final(self).service_manager.configs() == old(self).service_manager.configs(),
            final(self).service_manager.runtimes().dom() == old(self).service_manager.runtimes().dom(),
            final(self).service_manager.runtimes().remove(target@) == old(self).service_manager.runtimes().remove(target@),
            final(self).service_manager.runtimes().contains_key(target@) ==> {
                let (o, n) = (old(self).service_manager.runtimes()[target@], final(self).service_manager.runtimes()[target@]);
                &&& n.lifecycle == ServiceLifecycleState::Active
                &&& n.direct_count == o.direct_count
                &&& n.indirect_count == o.indirect_count
                &&& n.dialog_title == o.dialog_title
            },
            final(self).service_manager.total_direct() == old(self).service_manager.total_direct(),
            final(self).service_manager.total_indirect() == old(self).service_manager.total_indirect(),
    {
        if has_view {
            self.displayed_service_id = Some(owned(target));
        }
        self.active_service_id = Some(owned(target));
        self.service_manager.set_lifecycle_state(target, ServiceLifecycleState::Active);
        let ghost mid = self.service_manager.runtimes();
        if let Some(rt) = self.service_manager.get_runtime_mut(target) {
            rt.touch();
        }
        assert(self.service_manager.runtimes().remove(target@) =~= old(self).service_manager.runtimes().remove(target@));
        assert(self.service_manager.runtimes().dom() =~= old(self).service_manager.runtimes().dom());
    }

    /// Whether the overlay is what the content area shows.
    pub fn overlay_displayed(&self) -> (b: bool)
        ensures
            b == (opt_view(self.displayed_service_id) == Some(overlay_id())),
    {
        proof {
            reveal_strlit("__overlay__");
        }
        match &self.displayed_service_id {
            Some(d) => str_equal(d.as_str(), OVERLAY_ID),
            None => false,
        }
    }

    /// Records that the overlay now fills the content area.
    pub fn display_overlay(&mut self)
        ensures
            opt_view(final(self).displayed_service_id) == Some(overlay_id()),
            final(self).active_service_id == old(self).active_service_id,
            final(self).service_manager == old(self).service_manager,
            final(self).settings == old(self).settings,
            final(self).recipes == old(self).recipes,
            final(self).pending_service_ids == old(self).pending_service_ids,
    {
        proof {
            reveal_strlit("__overlay__");
        }
        self.displayed_service_id = Some(owned(OVERLAY_ID));
    }

    /// The id that the next created browser belongs to: the oldest pending
    /// one, which is removed from the queue.
    pub fn take_pending_id(&mut self) -> (r: Option<String>)
        ensures
            old(self).pending_service_ids@.len() == 0 ==> r is None && final(self).pending_service_ids
                == old(self).pending_service_ids,
            old(self).pending_service_ids@.len() > 0 ==> r == Some(old(self).pending_service_ids@[0])
                && final(self).pending_service_ids@ == old(self).pending_service_ids@.drop_first(),
            final(self).service_manager == old(self).service_manager,
            final(self).settings == old(self).settings,
            final(self).recipes == old(self).recipes,
            final(self).active_service_id == old(self).active_service_id,
            final(self).displayed_service_id == old(self).displayed_service_id,
    {
        if self.pending_service_ids.len() > 0 {
            let id = self.pending_service_ids.remove(0);
            assert(self.pending_service_ids@ =~= old(self).pending_service_ids@.drop_first());
            Some(id)
        } else {
            None
        }
    }

    /// Queues `id` as the owner of the next browser to be created.
    pub fn push_pending_id(&mut self, id: &str)
        ensures
            final(self).pending_service_ids@.len() == old(self).pending_service_ids@.len() + 1,
            final(self).pending_service_ids@.drop_last() == old(self).pending_service_ids@,
            final(self).pending_service_ids@.last()@ == id@,
            final(self).service_manager == old(self).service_manager,
            final(self).settings == old(self).settings,
            final(self).recipes == old(self).recipes,
            final(self).active_service_id == old(self).active_service_id,
            final(self).displayed_service_id == old(self).displayed_service_id,
    {
        self.pending_service_ids.push(owned(id));
        assert(self.pending_service_ids@.drop_last() =~= old(self).pending_service_ids@);
    }
}

/// The page shown in place of a service page that failed to load.
pub open spec fn spec_load_error_page(failed_url: Seq<char>) -> Seq<char> {
    LOAD_ERROR_HEAD@ + failed_url + LOAD_ERROR_TAIL@
}

pub fn load_error_page(failed_url: &str) -> (html: String)
    ensures
        html@ == spec_load_error_page(failed_url@),
{
    let mut html = owned(LOAD_ERROR_HEAD);
    html.append(failed_url);
    html.append(LOAD_ERROR_TAIL);
    html
}

pub const LOAD_ERROR_HEAD: &'static str = r#"<html><body style="font-family:system-ui;padding:40px;background:#1a1a2e;color:#eee">
                        <h2>Failed to load</h2><p>"#;

pub const LOAD_ERROR_TAIL: &'static str = r#"</p>
                        <p>Check your network connection and try again.</p>
                        </body></html>"#;

/// The page shown in the content area when no service is configured.
pub const WELCOME_PAGE: &'static str = r#"<html><head><title>OmniChat</title></head>
                    <body style="font-family:system-ui;display:flex;align-items:center;justify-content:center;height:100vh;margin:0;background:#1a1a2e;color:#eee">
                    <div style="text-align:center"><h1>Welcome to OmniChat</h1><p>Add a service to get started.</p></div>
                    </body></html>"#;

/// The first enabled service, if any, in configuration order.
pub open spec fn first_enabled(s: Seq<ServiceConfig>) -> Option<ServiceConfig>
    decreases s.len(),
{
    if s.len() == 0 {
        None
    } else if s[0].is_enabled {
        Some(s[0])
    } else {
        first_enabled(s.drop_first())
    }
}

/// The service that claims a browser created without a known owner: the
/// first configured service that has no browser yet and whose generic URL
/// and the browser's URL contain one another.
pub open spec fn spec_url_owner(s: Seq<ServiceConfig>, url: Seq<char>, known: Seq<Seq<char>>) -> Option<Seq<char>>
    decreases s.len(),
{
    if s.len() == 0 {
        None
    } else if !known.contains(s[0].id@) && (contains_seq(url, s[0].spec_effective_url()) || contains_seq(
        s[0].spec_effective_url(),
        url,
    )) {
        Some(s[0].id@)
    } else {
        spec_url_owner(s.drop_first(), url, known)
    }
}

fn first_enabled_index(services: &Vec<ServiceConfig>) -> (r: Option<usize>)
    ensures
        match r {
            Some(i) => i < services@.len() && first_enabled(services@) == Some(services@[i as int]),
            None => first_enabled(services@) is None,
        },
{
    let mut i: usize = 0;
    assert(services@.skip(0) =~= services@);
    while i < services.len()
        invariant
            i <= services.len(),
            first_enabled(services@) == first_enabled(services@.skip(i as int)),
        decreases services.len() - i,
    {
        assert(services@.skip(i as int).drop_first() =~= services@.skip(i + 1));
        assert(services@.skip(i as int)[0] == services@[i as int]);
        if services[i].is_enabled {
            return Some(i);
        }
        i = i + 1;
    }
    assert(services@.skip(i as int) =~= Seq::<ServiceConfig>::empty());
    None
}

fn url_owner(services: &Vec<ServiceConfig>, url: &str, known: &Vec<String>) -> (r: Option<String>)
    ensures
        opt_view(r) == spec_url_owner(services@, url@, known@.map_values(|k: String| k@)),
{
        let ghost kv = known@.map_values(|k: String| k@);
        let mut i: usize = 0;
        assert(services@.skip(0) =~= services@);
        while i < services.len()
            invariant
                i <= services.len(),
                kv == known@.map_values(|k: String| k@),
                spec_url_owner(services@, url@, kv) == spec_url_owner(services@.skip(i as int), url@, kv),
            decreases services.len() - i,
        {
            assert(services@.skip(i as int).drop_first() =~= services@.skip(i + 1));
            assert(services@.skip(i as int)[0] == services@[i as int]);
            let svc_url = services[i].effective_url();
            let mut taken = false;
            let mut j: usize = 0;
            while j < known.len()
                invariant
                    j <= known.len(),
                    i < services.len(),
                    kv == known@.map_values(|k: String| k@),
                    taken == exists|t: int| 0 <= t < j && kv[t] == services@[i as int].id@,
                decreases known.len() - j,
            {
                assert(kv[j as int] == known@[j as int]@);
                if str_equal(known[j].as_str(), services[i].id.as_str()) {
                    taken = true;
                }
                j = j + 1;
            }
            assert(taken == kv.contains(services@[i as int].id@));
            if !taken && (contains_str(url, svc_url.as_str()) || contains_str(svc_url.as_str(), url)) {
                return Some(services[i].id.clone());
            }
            i = i + 1;
        }
        assert(services@.skip(i as int) =~= Seq::<ServiceConfig>::empty());
        None
    }

impl AppState {
    /// Startup: the first enabled service becomes active and the only
    /// pending browser owner; returns its id and the URL its view loads.
    /// With no enabled service nothing changes and the welcome page is shown.
    pub fn begin_startup(&mut self) -> (r: Option<(String, String)>)
        requires
            old(self).wf(),
        ensures
            final(self).wf(),
            final(self).service_manager == old(self).service_manager,
            final(self).settings == old(self).settings,
            final(self).recipes == old(self).recipes,
            final(self).displayed_service_id == old(self).displayed_service_id,
            match first_enabled(old(self).service_manager.configs()) {
                Some(c) => r matches Some((id, url)) && id@ == c.id@
                    && Some(url@) == old(self).spec_service_url(c.id@)
                    && opt_view(final(self).active_service_id) == Some(c.id@)
                    && final(self).pending_service_ids@.len() == 1
                    && final(self).pending_service_ids@[0]@ == c.id@,
                None => r is None && final(self).active_service_id == old(self).active_service_id
                    && final(self).pending_service_ids@.len() == 0,
            },
    {
        match first_enabled_index(self.service_manager.services()) {
            Some(i) => {
                let id = self.service_manager.services()[i].id.clone();
                proof {
                    crate::service::manager::lemma_find_first_exists(self.service_manager.configs(), i as int);
                }
                let url = match self.service_url(id.as_str()) {
                    Some(u) => u,
                    None => String::new(),
                };
                self.pending_service_ids = Vec::new();
                self.pending_service_ids.push(id.clone());
                self.active_service_id = Some(id.clone());
                Some((id, url))
            },
            None => {
                self.pending_service_ids = Vec::new();
                None
            },
        }
    }

    /// Records that the content view of `id` is what the window shows.
    pub fn set_displayed(&mut self, id: &str)
        ensures
            opt_view(final(self).displayed_service_id) == Some(id@),
            final(self).service_manager == old(self).service_manager,
            final(self).settings == old(self).settings,
            final(self).recipes == old(self).recipes,
            final(self).active_service_id == old(self).active_service_id,
            final(self).pending_service_ids == old(self).pending_service_ids,
    {
        self.displayed_service_id = Some(owned(id));
    }

    /// The service a newly created browser belongs to: the oldest pending
    /// id (taken from the queue), or else the service that its URL matches
    /// (see `spec_url_owner`) among those not in `known`.
    pub fn claim_browser(&mut self, url: &str, known: &Vec<String>) -> (r: Option<String>)
        ensures
            final(self).service_manager == old(self).service_manager,
            final(self).settings == old(self).settings,
            final(self).recipes == old(self).recipes,
            final(self).active_service_id == old(self).active_service_id,
            final(self).displayed_service_id == old(self).displayed_service_id,
            old(self).pending_service_ids@.len() > 0 ==> r == Some(old(self).pending_service_ids@[0])
                && final(self).pending_service_ids@ == old(self).pending_service_ids@.drop_first(),
            old(self).pending_service_ids@.len() == 0 ==> opt_view(r) == spec_url_owner(
                old(self).service_manager.configs(),
                url@,
                known@.map_values(|k: String| k@),
            ) && final(self).pending_service_ids == old(self).pending_service_ids,
    {
        if let Some(id) = self.take_pending_id() {
            return Some(id);
        }
        url_owner(self.service_manager.services(), url, known)
    }
}

} // verus!
