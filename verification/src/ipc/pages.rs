//! The app's own pages (settings and service picker) and the scripts that
//! refresh the sidebar.

use vstd::prelude::*;
use crate::app::{theme_sentinel, with_theme};
use crate::json::{decimal, decimal_string, json_bool, json_bool_literal, json_quote, json_string_literal};
use crate::recipe::model::Recipe;
use crate::text::{chars_of, matches_at, matches_at_exec, owned, replace_all, replace_str};

verus! {

/// The number of non-overlapping occurrences of `p` in `s`, scanning left
/// to right (`str::matches(..).count()`).
pub open spec fn count_matches(s: Seq<char>, p: Seq<char>) -> nat
    decreases s.len(),
{
    if p.len() == 0 || s.len() < p.len() {
        0
    } else if s.take(p.len() as int) == p {
        1 + count_matches(s.skip(p.len() as int), p)
    } else {
        count_matches(s.skip(1), p)
    }
}

proof fn lemma_count_step(v: Seq<char>, i: int, p: Seq<char>)
    requires
        0 <= i < v.len(),
        p.len() > 0,
    ensures
        matches_at(v, i, p) ==> count_matches(v.skip(i), p) == 1 + count_matches(v.skip(i + p.len()), p),
        !matches_at(v, i, p) ==> count_matches(v.skip(i), p) == count_matches(v.skip(i + 1), p),
{
    let t = v.skip(i);
    if t.len() >= p.len() {
        assert(t.take(p.len() as int) =~= v.subrange(i, i + p.len()));
        assert(t.skip(p.len() as int) =~= v.skip(i + p.len()));
    }
    assert(t.skip(1) =~= v.skip(i + 1));
}

/// How many times `pat` occurs in `s` (non-overlapping).
pub fn count_occurrences(s: &str, pat: &str) -> (n: usize)
    requires
        pat@.len() > 0,
    ensures
        n == count_matches(s@, pat@),
{
    let v = chars_of(s);
    let p = chars_of(pat);
    let mut n: usize = 0;
    let mut i: usize = 0;
    assert(v@.skip(0) =~= v@);
    while i < v.len()
        invariant
            i <= v.len(),
            v@ == s@,
            p@ == pat@,
            p@.len() > 0,
            n <= i,
            n + count_matches(v@.skip(i as int), p@) == count_matches(v@, p@),
        decreases v.len() - i,
    {
        proof {
            lemma_count_step(v@, i as int, p@);
        }
        if matches_at_exec(&v, i, &p) {
            n = n + 1;
            i = i + p.len();
        } else {
            i = i + 1;
        }
    }
    assert(v@.skip(i as int) =~= Seq::<char>::empty());
    n
}

/// A template with its `{{`/`}}` escapes collapsed to single braces.
pub open spec fn collapse_braces(t: Seq<char>) -> Seq<char> {
    replace_all(replace_all(t, "{{"@, "{"@), "}}"@, "}"@)
}

fn collapse_braces_exec(t: &str) -> (r: String)
    ensures
        r@ == collapse_braces(t@),
{
    proof {
        reveal_strlit("{{");
        reveal_strlit("}}");
    }
    let a = replace_str(t, "{{", "{");
    replace_str(a.as_str(), "}}", "}")
}

/// The settings page: the template with braces collapsed, the services and
/// settings JSON filled in, then the shared theme injected.
pub open spec fn spec_settings_html(services_json: Seq<char>, settings_json: Seq<char>, theme: Seq<char>) -> Seq<char> {
    replace_all(
        replace_all(
            replace_all(collapse_braces(SETTINGS_TEMPLATE@), "{services}"@, services_json),
            "{settings}"@,
            settings_json,
        ),
        theme_sentinel(),
        theme,
    )
}

/// Builds the settings HTML page.
pub fn build_settings_html(services_json: &str, settings_json: &str, theme_css: &str) -> (html: String)
    ensures
        html@ == spec_settings_html(services_json@, settings_json@, theme_css@),
{
    proof {
        reveal_strlit("{services}");
        reveal_strlit("{settings}");
    }
    let t = collapse_braces_exec(SETTINGS_TEMPLATE);
    let a = replace_str(t.as_str(), "{services}", services_json);
    let b = replace_str(a.as_str(), "{settings}", settings_json);
    with_theme(b.as_str(), theme_css)
}

/// The service picker page: the template with braces collapsed, the recipe
/// catalog filled in, the number of `"id"` keys in it as the count, then
/// the shared theme injected.
pub open spec fn spec_picker_html(recipes_json: Seq<char>, theme: Seq<char>) -> Seq<char> {
    let count = count_matches(recipes_json, "\"id\""@);
    replace_all(
        replace_all(
            replace_all(collapse_braces(PICKER_TEMPLATE@), "{recipes}"@, recipes_json),
            "{count}"@,
            decimal(count),
        ),
        theme_sentinel(),
        theme,
    )
}

/// Builds the service picker HTML page.
pub fn build_picker_html(recipes_json: &str, theme_css: &str) -> (html: String)
    ensures
        html@ == spec_picker_html(recipes_json@, theme_css@),
{
    proof {
        reveal_strlit("{recipes}");
        reveal_strlit("{count}");
        reveal_strlit("\"id\"");
    }
    let count = count_occurrences(recipes_json, "\"id\"");
    let t = collapse_braces_exec(PICKER_TEMPLATE);
    let a = replace_str(t.as_str(), "{recipes}", recipes_json);
    let b = replace_str(a.as_str(), "{count}", decimal_string(count as u64).as_str());
    with_theme(b.as_str(), theme_css)
}

/// One recipe as the picker and the sidebar list it.
pub open spec fn spec_catalog_entry(r: Recipe) -> Seq<char> {
    "{\"hasTeamId\":"@ + json_bool_literal(r.has_team_id) + ",\"id\":"@ + json_string_literal(r.id@)
        + ",\"name\":"@ + json_string_literal(r.name@) + ",\"url\":"@ + json_string_literal(r.service_url@) + "}"@
}

pub open spec fn catalog_items(rs: Seq<Recipe>) -> Seq<char>
    decreases rs.len(),
{
    if rs.len() == 0 {
        Seq::empty()
    } else if rs.len() == 1 {
        spec_catalog_entry(rs[0])
    } else {
        catalog_items(rs.drop_last()) + ","@ + spec_catalog_entry(rs.last())
    }
}

/// The recipe catalog as a JSON array, in the given order.
pub open spec fn spec_catalog_json(rs: Seq<Recipe>) -> Seq<char> {
    "["@ + catalog_items(rs) + "]"@
}

fn catalog_entry(r: &Recipe) -> (s: String)
    ensures
        s@ == spec_catalog_entry(*r),
{
    let mut s = owned("{\"hasTeamId\":");
    s.append(json_bool(r.has_team_id).as_str());
    s.append(",\"id\":");
    s.append(json_quote(r.id.as_str()).as_str());
    s.append(",\"name\":");
    s.append(json_quote(r.name.as_str()).as_str());
    s.append(",\"url\":");
    s.append(json_quote(r.service_url.as_str()).as_str());
    s.append("}");
    s
}

/// The recipe catalog JSON that the picker and the sidebar receive.
pub fn recipe_catalog_json(recipes: &Vec<Recipe>) -> (s: String)
    ensures
        s@ == spec_catalog_json(recipes@),
{
    let mut items = String::new();
    let mut i: usize = 0;
    while i < recipes.len()
        invariant
            i <= recipes.len(),
            items@ == catalog_items(recipes@.take(i as int)),
        decreases recipes.len() - i,
    {
        assert(recipes@.take(i + 1).drop_last() =~= recipes@.take(i as int));
        if i > 0 {
            items.append(",");
        }
        let e = catalog_entry(&recipes[i]);
        items.append(e.as_str());
        proof {
            if i == 0 {
                assert(items@ =~= spec_catalog_entry(recipes@[0]));
            }
        }
        i = i + 1;
    }
    assert(recipes@.take(i as int) =~= recipes@);
    let mut s = owned("[");
    s.append(items.as_str());
    s.append("]");
    s
}

/// The active service as the sidebar scripts pass it: the id in double
/// quotes (written as is), or `null`.
pub open spec fn spec_active_json(active: Option<Seq<char>>) -> Seq<char> {
    match active {
        Some(id) => "\""@ + id + "\""@,
        None => "null"@,
    }
}

fn active_json(active: Option<&str>) -> (s: String)
    ensures
        s@ == spec_active_json(match active { Some(a) => Some(a@), None => None }),
{
    match active {
        Some(id) => {
            let mut s = owned("\"");
            s.append(id);
            s.append("\"");
            s
        },
        None => owned("null"),
    }
}

/// The script that refreshes the sidebar's services, active id and badges.
pub open spec fn spec_sidebar_update_js(services_json: Seq<char>, active: Option<Seq<char>>, badges_json: Seq<char>) -> Seq<char> {
    "if(window.__omnichat_sidebar) { window.__omnichat_sidebar.updateServices("@ + services_json + ", "@
        + spec_active_json(active) + ", "@ + badges_json + "); }"@
}

pub fn sidebar_update_js(services_json: &str, active: Option<&str>, badges_json: &str) -> (js: String)
    ensures
        js@ == spec_sidebar_update_js(
            services_json@,
            match active { Some(a) => Some(a@), None => None },
            badges_json@,
        ),
{
    let mut js = owned("if(window.__omnichat_sidebar) { window.__omnichat_sidebar.updateServices(");
    js.append(services_json);
    js.append(", ");
    js.append(active_json(active).as_str());
    js.append(", ");
    js.append(badges_json);
    js.append("); }");
    js
}

/// The script that gives a freshly loaded sidebar its services, active id
/// and recipe catalog.
pub open spec fn spec_sidebar_init_js(services_json: Seq<char>, active: Option<Seq<char>>, recipes_json: Seq<char>) -> Seq<char> {
    "if(window.__omnichat_sidebar) { window.__omnichat_sidebar.updateServices("@ + services_json + ", "@
        + spec_active_json(active) + "); window.__omnichat_sidebar.setRecipes("@ + recipes_json + "); }"@
}

pub fn sidebar_init_js(services_json: &str, active: Option<&str>, recipes_json: &str) -> (js: String)
    ensures
        js@ == spec_sidebar_init_js(
            services_json@,
            match active { Some(a) => Some(a@), None => None },
            recipes_json@,
        ),
{
    let mut js = owned("if(window.__omnichat_sidebar) { window.__omnichat_sidebar.updateServices(");
    js.append(services_json);
    js.append(", ");
    js.append(active_json(active).as_str());
    js.append("); window.__omnichat_sidebar.setRecipes(");
    js.append(recipes_json);
    js.append("); }");
    js
}

/// The settings page template (`{{`/`}}` stand for literal braces).
pub const SETTINGS_TEMPLATE: &'static str = r#"<!DOCTYPE html>
<html data-theme="dark"><head><meta charset="UTF-8">
<style>
/*__THEME__*/
:root {{ --bg:var(--surface-base); --sf:var(--surface-raised); --hv:var(--surface-hover); --ac:var(--accent); --tx:var(--text-strong); --dm:var(--text-muted); --rd:var(--danger); }}
body {{ font-family:var(--font); background:var(--bg); color:var(--tx); padding:36px 40px; max-width:760px; margin:0 auto; -webkit-font-smoothing:antialiased; }}
h1 {{ font-size:24px; font-weight:700; margin-bottom:4px; letter-spacing:-.01em; }}
.sub {{ color:var(--dm); font-size:13px; margin-bottom:28px; }}
h2 {{ font-size:12px; font-weight:700; color:var(--dm); text-transform:uppercase; letter-spacing:.06em; margin:26px 0 10px; }}
.svc-row {{ display:flex; align-items:center; padding:12px 14px; background:var(--sf); border:1px solid var(--border-subtle); border-radius:var(--r-md); margin-bottom:7px; gap:12px; }}
.svc-ico {{ width:30px; height:30px; border-radius:8px; background:var(--hv); display:flex; align-items:center; justify-content:center; font-size:13px; font-weight:700; color:var(--ac); flex-shrink:0; }}
.svc-name {{ flex:1; font-size:14px; font-weight:600; }}
.svc-recipe {{ color:var(--dm); font-size:11px; }}
.rm-btn {{ background:none; border:1px solid var(--border-strong); color:var(--dm); border-radius:var(--r-sm); padding:5px 12px; font-size:12px; font-weight:600; cursor:pointer; transition:all .12s; }}
.rm-btn:hover {{ border-color:var(--rd); color:var(--rd); }}
.rm-btn.armed {{ background:var(--rd); border-color:var(--rd); color:#fff; }}
.setting {{ display:flex; align-items:center; justify-content:space-between; padding:12px 14px; background:var(--sf); border:1px solid var(--border-subtle); border-radius:var(--r-md); margin-bottom:7px; }}
.setting-label {{ font-size:14px; font-weight:500; }}
.toggle {{ width:42px; height:24px; background:var(--hv); border-radius:var(--r-pill); cursor:pointer; position:relative; transition:background .2s; flex-shrink:0; }}
.toggle.on {{ background:var(--ac); }}
.toggle::after {{ content:''; width:18px; height:18px; background:#fff; border-radius:50%; position:absolute; top:3px; left:3px; transition:transform .2s; }}
.toggle.on::after {{ transform:translateX(18px); }}
.empty {{ color:var(--dm); font-size:13px; padding:8px 2px; }}
</style></head>
<body>
<h1>Settings</h1>
<p class="sub">Manage your services and preferences</p>
<h2>Services</h2>
<div id="svcs"></div>
<h2>General</h2>
<div id="settings"></div>
<script>
var services = {services};
var settings = {settings};
function sendIPC(msg) {{ window.location.href = 'omnichat-ipc://' + encodeURIComponent(JSON.stringify(msg)); }}
function renderServices() {{
    var el = document.getElementById('svcs');
    while(el.firstChild) el.removeChild(el.firstChild);
    if (!services.length) {{
        var e = document.createElement('div'); e.className = 'empty';
        e.textContent = 'No services yet. Click + in the sidebar to add one.';
        el.appendChild(e); return;
    }}
    services.forEach(function(s) {{
        var row = document.createElement('div'); row.className = 'svc-row';
        var ico = document.createElement('div'); ico.className = 'svc-ico';
        ico.textContent = (s.name || '?').charAt(0).toUpperCase();
        var name = document.createElement('span'); name.className = 'svc-name'; name.textContent = s.name;
        var recipe = document.createElement('span'); recipe.className = 'svc-recipe'; recipe.textContent = s.recipe_id;
        var btn = document.createElement('button'); btn.className = 'rm-btn'; btn.textContent = 'Remove';
        var armed = false;
        btn.addEventListener('click', function() {{
            if (!armed) {{
                armed = true; btn.textContent = 'Confirm?'; btn.classList.add('armed');
                setTimeout(function() {{ armed = false; btn.textContent = 'Remove'; btn.classList.remove('armed'); }}, 3000);
                return;
            }}
            sendIPC({{ type:'remove_service', serviceId:s.id }});
            services = services.filter(function(x){{ return x.id!==s.id; }}); renderServices();
        }});
        row.appendChild(ico); row.appendChild(name); row.appendChild(recipe); row.appendChild(btn);
        el.appendChild(row);
    }});
}}
function renderSettings() {{
    var el = document.getElementById('settings');
    var items = [
        ['Do Not Disturb', 'enable_dnd', settings.enable_dnd],
        ['Enable Hibernation', 'global_hibernation_enabled', settings.global_hibernation_enabled],
        ['Show Tray Icon', 'show_tray_icon', settings.show_tray_icon],
    ];
    items.forEach(function(item) {{
        var row = document.createElement('div'); row.className = 'setting';
        var label = document.createElement('span'); label.className = 'setting-label'; label.textContent = item[0];
        var toggle = document.createElement('div'); toggle.className = 'toggle' + (item[2] ? ' on' : '');
        toggle.addEventListener('click', function() {{
            toggle.classList.toggle('on');
            settings[item[1]] = toggle.classList.contains('on');
            sendIPC({{ type: 'update_settings', settings: settings }});
        }});
        row.appendChild(label); row.appendChild(toggle);
        el.appendChild(row);
    }});
}}
renderServices(); renderSettings();
</script></body></html>"#;

/// The service picker template (`{{`/`}}` stand for literal braces).
pub const PICKER_TEMPLATE: &'static str = r#"<!DOCTYPE html>
<html data-theme="dark"><head><meta charset="UTF-8">
<style>
/*__THEME__*/
:root {{ --bg:var(--surface-base); --sf:var(--surface-raised); --hv:var(--surface-hover); --ac:var(--accent); --tx:var(--text-strong); --dm:var(--text-muted); --rd:var(--danger); --gn:var(--success); }}
body {{ font-family:var(--font); background:var(--bg); color:var(--tx); height:100vh; display:flex; flex-direction:column; -webkit-font-smoothing:antialiased; }}
.hdr {{ padding:32px 40px 16px; flex-shrink:0; }}
h1 {{ font-size:24px; font-weight:700; margin-bottom:4px; letter-spacing:-.01em; }}
.sub {{ color:var(--dm); font-size:13px; margin-bottom:16px; }}
.search {{ width:100%; max-width:480px; padding:11px 16px; border:1px solid var(--border-strong); border-radius:var(--r-md); background:var(--surface-sunken); color:var(--tx); font-size:14px; outline:none; transition:border-color .12s; }}
.search:focus {{ border-color:var(--ac); }}
.search::placeholder {{ color:var(--dm); }}
.grid {{ flex:1; overflow-y:auto; padding:8px 40px 40px; align-content:start; }}
.section-title {{ font-size:12px; font-weight:700; color:var(--dm); text-transform:uppercase; letter-spacing:.5px; padding:14px 0 6px; }}
.cards {{ display:grid; grid-template-columns:repeat(auto-fill,minmax(220px,1fr)); gap:6px; margin-bottom:8px; }}
.card {{ display:flex; align-items:center; gap:12px; padding:11px 12px; border-radius:var(--r-md); cursor:pointer; transition:background .1s; border:1px solid transparent; }}
.card:hover {{ background:var(--sf); border-color:var(--border-subtle); }}
.card-icon {{ width:38px; height:38px; border-radius:var(--r-md); background:var(--accent-soft); color:var(--ac); display:flex; align-items:center; justify-content:center; font-size:16px; font-weight:700; flex-shrink:0; }}
.card-name {{ font-size:13px; font-weight:600; }}
.card-url {{ font-size:11px; color:var(--dm); white-space:nowrap; overflow:hidden; text-overflow:ellipsis; max-width:140px; }}
.team-modal {{ display:none; position:fixed; inset:0; background:rgba(0,0,0,.6); z-index:10; align-items:center; justify-content:center; }}
.team-modal.open {{ display:flex; }}
.team-box {{ background:var(--sf); padding:24px; border-radius:12px; width:340px; }}
.team-box h3 {{ font-size:15px; margin-bottom:12px; }}
.team-box input {{ width:100%; padding:8px 12px; border:1px solid var(--hv); border-radius:8px; background:var(--bg); color:var(--tx); font-size:13px; outline:none; margin-bottom:12px; }}
.team-box input:focus {{ border-color:var(--ac); }}
.btn-row {{ display:flex; gap:8px; }}
.btn {{ flex:1; padding:8px; border:none; border-radius:8px; cursor:pointer; font-size:13px; font-weight:600; }}
.btn-primary {{ background:var(--ac); color:var(--bg); }}
.btn-cancel {{ background:var(--hv); color:var(--tx); }}
</style></head>
<body>
<div class="hdr">
<h1>Add a service</h1>
<p class="sub">Choose from {count} available services</p>
<input class="search" id="q" placeholder="Search services..." autofocus>
</div>
<div class="grid" id="grid"></div>
<div class="team-modal" id="modal">
<div class="team-box">
<h3 id="modalTitle">Workspace name</h3>
<input id="modalInput" placeholder="e.g. mycompany">
<div class="btn-row">
<button class="btn btn-cancel" id="modalCancel">Cancel</button>
<button class="btn btn-primary" id="modalAdd">Add</button>
</div>
</div>
</div>
<script>
var recipes = {recipes};
var pending = null;
var POPULAR = ['whatsapp','slack','telegram','discord','messenger','gmail','instagram',
    'linkedin','skype','microsoft-teams','google-chat','signal','element','mattermost',
    'zoom','notion','github','chatgpt','twitter','reddit','twitch'];
function sendIPC(msg) {{
    window.location.href = 'omnichat-ipc://' + encodeURIComponent(JSON.stringify(msg));
}}
function makeCard(r) {{
        var c = document.createElement('div');
        c.className = 'card';
        var ic = document.createElement('div');
        ic.className = 'card-icon';
        ic.textContent = r.name.charAt(0).toUpperCase();
        c.appendChild(ic);
        var info = document.createElement('div');
        var n = document.createElement('div');
        n.className = 'card-name';
        n.textContent = r.name;
        info.appendChild(n);
        if (r.url) {{
            var u = document.createElement('div');
            u.className = 'card-url';
            u.textContent = r.url.replace('https://','').replace('http://','');
            info.appendChild(u);
        }}
        c.appendChild(info);
        c.addEventListener('click', function() {{
            if (r.hasTeamId) {{
                pending = r;
                document.getElementById('modalTitle').textContent = r.name + ' — workspace name';
                document.getElementById('modalInput').value = '';
                document.getElementById('modal').classList.add('open');
                document.getElementById('modalInput').focus();
            }} else {{
                sendIPC({{ type:'add_service', recipeId:r.id, name:r.name }});
            }}
        }});
        return c;
}}
function render(q) {{
    var g = document.getElementById('grid');
    while(g.firstChild) g.removeChild(g.firstChild);
    var all = recipes.filter(function(r) {{
        return !q || r.name.toLowerCase().indexOf(q)>-1 || r.id.toLowerCase().indexOf(q)>-1;
    }}).sort(function(a,b){{ return a.name.localeCompare(b.name); }});

    if (!q) {{
        // Show popular section first
        var pop = POPULAR.map(function(pid){{ return recipes.find(function(r){{return r.id===pid}}); }}).filter(Boolean);
        if (pop.length) {{
            var title = document.createElement('div'); title.className='section-title'; title.textContent='Popular'; g.appendChild(title);
            var cards = document.createElement('div'); cards.className='cards';
            pop.forEach(function(r){{ cards.appendChild(makeCard(r)); }});
            g.appendChild(cards);
        }}
        var title2 = document.createElement('div'); title2.className='section-title'; title2.textContent='All services'; g.appendChild(title2);
        var cards2 = document.createElement('div'); cards2.className='cards';
        all.slice(0,100).forEach(function(r){{ cards2.appendChild(makeCard(r)); }});
        g.appendChild(cards2);
    }} else {{
        var cards = document.createElement('div'); cards.className='cards';
        all.slice(0,80).forEach(function(r){{ cards.appendChild(makeCard(r)); }});
        g.appendChild(cards);
    }}
}}
document.getElementById('q').addEventListener('input', function() {{ render(this.value.toLowerCase()); }});
document.getElementById('modalCancel').addEventListener('click', function() {{ document.getElementById('modal').classList.remove('open'); }});
document.getElementById('modalAdd').addEventListener('click', function() {{
    if(pending) sendIPC({{ type:'add_service', recipeId:pending.id, name:pending.name, team:document.getElementById('modalInput').value.trim()||undefined }});
    document.getElementById('modal').classList.remove('open');
}});
document.getElementById('modalInput').addEventListener('keydown', function(e) {{ if(e.key==='Enter') document.getElementById('modalAdd').click(); }});
render('');
</script></body></html>"#;

} // verus!
