//! The JavaScript injected into a service page when it loads: the Ferdium
//! API shim, the notification patch, the recipe's styles and its
//! `webview.js` wrapped as a CommonJS module.

use vstd::prelude::*;
use super::model::Recipe;
use crate::json::{json_bool, json_bool_literal, json_opt, json_opt_literal, json_quote, json_string_literal};
use crate::service::config::ServiceConfig;
use crate::text::{chars_of, owned, push_char, replace_all, replace_str};

verus! {

/// One character of a string as it is written inside a single- or
/// double-quoted JavaScript literal: backslash, quotes and newline escaped,
/// carriage return dropped.
pub open spec fn js_escape_char(c: char) -> Seq<char> {
    if c == '\\' {
        seq!['\\', '\\']
    } else if c == '\'' {
        seq!['\\', '\'']
    } else if c == '"' {
        seq!['\\', '"']
    } else if c == '\n' {
        seq!['\\', 'n']
    } else if c == '\r' {
        Seq::empty()
    } else {
        seq![c]
    }
}

/// One character of CSS text as it is written inside a single-quoted
/// JavaScript literal: backslash, single quote and newline escaped, carriage
/// return dropped.
pub open spec fn css_escape_char(c: char) -> Seq<char> {
    if c == '"' {
        seq!['"']
    } else {
        js_escape_char(c)
    }
}

pub open spec fn spec_js_escape(s: Seq<char>) -> Seq<char>
    decreases s.len(),
{
    if s.len() == 0 {
        Seq::empty()
    } else {
        spec_js_escape(s.drop_last()) + js_escape_char(s.last())
    }
}

pub open spec fn spec_css_escape(s: Seq<char>) -> Seq<char>
    decreases s.len(),
{
    if s.len() == 0 {
        Seq::empty()
    } else {
        spec_css_escape(s.drop_last()) + css_escape_char(s.last())
    }
}

fn push_escaped(out: &mut String, c: char, keep_double_quote: bool)
    ensures
        final(out)@ == old(out)@ + if keep_double_quote { css_escape_char(c) } else { js_escape_char(c) },
{
    if c == '\\' {
        push_char(out, '\\');
        push_char(out, '\\');
    } else if c == '\'' {
        push_char(out, '\\');
        push_char(out, '\'');
    } else if c == '"' {
        if !keep_double_quote {
            push_char(out, '\\');
        }
        push_char(out, '"');
    } else if c == '\n' {
        push_char(out, '\\');
        push_char(out, 'n');
    } else if c == '\r' {
    } else {
        push_char(out, c);
    }
    assert(final(out)@ =~= old(out)@ + if keep_double_quote { css_escape_char(c) } else { js_escape_char(c) });
}

fn escape_with(s: &str, keep_double_quote: bool) -> (r: String)
    ensures
        r@ == if keep_double_quote { spec_css_escape(s@) } else { spec_js_escape(s@) },
{
    let v = chars_of(s);
    let mut r = String::new();
    let mut i: usize = 0;
    while i < v.len()
        invariant
            i <= v.len(),
            v@ == s@,
            r@ == if keep_double_quote { spec_css_escape(v@.take(i as int)) } else { spec_js_escape(v@.take(i as int)) },
        decreases v.len() - i,
    {
        assert(v@.take(i + 1).drop_last() =~= v@.take(i as int));
        push_escaped(&mut r, v[i], keep_double_quote);
        i = i + 1;
    }
    assert(v@.take(i as int) =~= v@);
    r
}

/// Escaped text never contains a raw line break, so it cannot end the
/// JavaScript line it is embedded in.
pub proof fn lemma_js_escape_single_line(s: Seq<char>)
    ensures
        forall|i: int| 0 <= i < spec_js_escape(s).len() ==> #[trigger] spec_js_escape(s)[i] != '\n'
            && spec_js_escape(s)[i] != '\r',
        forall|i: int| 0 <= i < spec_css_escape(s).len() ==> #[trigger] spec_css_escape(s)[i] != '\n'
            && spec_css_escape(s)[i] != '\r',
    decreases s.len(),
{
    if s.len() > 0 {
        lemma_js_escape_single_line(s.drop_last());
        let a = spec_js_escape(s.drop_last());
        let b = js_escape_char(s.last());
        assert forall|i: int| 0 <= i < spec_js_escape(s).len() implies #[trigger] spec_js_escape(s)[i] != '\n'
            && spec_js_escape(s)[i] != '\r' by {
            if i >= a.len() {
                assert(spec_js_escape(s)[i] == b[i - a.len()]);
            } else {
                assert(spec_js_escape(s)[i] == a[i]);
            }
        }
        let c = spec_css_escape(s.drop_last());
        let d = css_escape_char(s.last());
        assert forall|i: int| 0 <= i < spec_css_escape(s).len() implies #[trigger] spec_css_escape(s)[i] != '\n'
            && spec_css_escape(s)[i] != '\r' by {
            if i >= c.len() {
                assert(spec_css_escape(s)[i] == d[i - c.len()]);
            } else {
                assert(spec_css_escape(s)[i] == c[i]);
            }
        }
    }
}

/// Escapes a string for a JavaScript string literal.
pub fn js_escape(s: &str) -> (r: String)
    ensures
        r@ == spec_js_escape(s@),
{
    escape_with(s, false)
}

pub open spec fn spec_css_injection(css: Seq<char>) -> Seq<char> {
    "(function(){var s=document.createElement('style');s.textContent='"@ + spec_css_escape(css)
        + "';(document.head||document.documentElement).appendChild(s);})();\n"@
}

/// A script that appends `css` to the page in a `<style>` element.
pub fn css_injection(css: &str) -> (r: String)
    ensures
        r@ == spec_css_injection(css@),
{
    let mut r = owned("(function(){var s=document.createElement('style');s.textContent='");
    let e = escape_with(css, true);
    r.append(e.as_str());
    r.append("';(document.head||document.documentElement).appendChild(s);})();\n");
    r
}

pub open spec fn spec_notification_patch() -> Seq<char> {
    NOTIFICATION_PATCH_RAW@
}

/// A script that replaces `window.Notification` (and service-worker
/// notifications) with one that forwards notifications to the app, tagged
/// with the page's service id.
pub fn notification_patch() -> (r: String)
    ensures
        r@ == spec_notification_patch(),
{
    owned(NOTIFICATION_PATCH_RAW)
}

/// The files of a recipe directory that the injected script may need,
/// as read from disk (absent when missing or unreadable).
pub struct RecipeFiles {
    pub service_css: Option<String>,
    pub darkmode_css: Option<String>,
    pub webview_unsafe_js: Option<String>,
    pub user_css: Option<String>,
    pub user_js: Option<String>,
}

pub open spec fn cache_entry(name: Seq<char>, content: Option<String>, first: bool) -> (Seq<char>, bool) {
    match content {
        Some(c) => ((if first { Seq::empty() } else { ","@ }) + json_string_literal(name) + ":"@
            + json_string_literal(c@), false),
        None => (Seq::empty(), first),
    }
}

/// The file cache as a JSON object from file name to contents, with the
/// present files in key order.
pub open spec fn spec_file_cache_json(f: RecipeFiles) -> Seq<char> {
    let (a, f1) = cache_entry("darkmode.css"@, f.darkmode_css, true);
    let (b, f2) = cache_entry("service.css"@, f.service_css, f1);
    let (c, f3) = cache_entry("user.css"@, f.user_css, f2);
    let (d, f4) = cache_entry("user.js"@, f.user_js, f3);
    let (e, f5) = cache_entry("webview-unsafe.js"@, f.webview_unsafe_js, f4);
    "{"@ + a + b + c + d + e + "}"@
}

fn push_cache_entry(out: &mut String, name: &str, content: &Option<String>, first: bool) -> (still_first: bool)
    ensures
        final(out)@ == old(out)@ + cache_entry(name@, *content, first).0,
        still_first == cache_entry(name@, *content, first).1,
{
    match content {
        Some(c) => {
            if !first {
                out.append(",");
            }
            let k = json_quote(name);
            out.append(k.as_str());
            out.append(":");
            let v = json_quote(c.as_str());
            out.append(v.as_str());
            proof {
                reveal_strlit("");
            }
            assert(final(out)@ =~= old(out)@ + cache_entry(name@, *content, first).0);
            false
        },
        None => {
            assert(old(out)@ + Seq::<char>::empty() =~= old(out)@);
            first
        },
    }
}

/// The recipe's cached files as a JSON object (see `spec_file_cache_json`).
pub fn file_cache_json(files: &RecipeFiles) -> (r: String)
    ensures
        r@ == spec_file_cache_json(*files),
{
    let mut r = owned("{");
    let f1 = push_cache_entry(&mut r, "darkmode.css", &files.darkmode_css, true);
    let f2 = push_cache_entry(&mut r, "service.css", &files.service_css, f1);
    let f3 = push_cache_entry(&mut r, "user.css", &files.user_css, f2);
    let f4 = push_cache_entry(&mut r, "user.js", &files.user_js, f3);
    let _f5 = push_cache_entry(&mut r, "webview-unsafe.js", &files.webview_unsafe_js, f4);
    r.append("}");
    r
}

/// The configuration object passed to the recipe's entry function.
pub open spec fn spec_recipe_config_json(service_id: Seq<char>, service: ServiceConfig, recipe: Recipe) -> Seq<char> {
    "{\"customUrl\":"@ + json_opt_literal(service.custom_url)
        + ",\"id\":"@ + json_string_literal(service_id)
        + ",\"isDarkModeEnabled\":"@ + json_bool_literal(service.is_dark_mode_enabled)
        + ",\"isMuted\":"@ + json_bool_literal(service.is_muted)
        + ",\"isNotificationEnabled\":"@ + json_bool_literal(service.is_notification_enabled)
        + ",\"name\":"@ + json_string_literal(service.name@)
        + ",\"recipe\":{\"id\":"@ + json_string_literal(recipe.id@)
        + ",\"name\":"@ + json_string_literal(recipe.name@)
        + ",\"path\":"@ + json_string_literal(recipe.path@)
        + ",\"version\":"@ + json_string_literal(recipe.version@)
        + "},\"team\":"@ + json_opt_literal(service.team)
        + "}"@
}

pub fn recipe_config_json(service_id: &str, service: &ServiceConfig, recipe: &Recipe) -> (r: String)
    ensures
        r@ == spec_recipe_config_json(service_id@, *service, *recipe),
{
    let mut r = owned("{\"customUrl\":");
    r.append(json_opt(&service.custom_url).as_str());
    r.append(",\"id\":");
    r.append(json_quote(service_id).as_str());
    r.append(",\"isDarkModeEnabled\":");
    r.append(json_bool(service.is_dark_mode_enabled).as_str());
    r.append(",\"isMuted\":");
    r.append(json_bool(service.is_muted).as_str());
    r.append(",\"isNotificationEnabled\":");
    r.append(json_bool(service.is_notification_enabled).as_str());
    r.append(",\"name\":");
    r.append(json_quote(service.name.as_str()).as_str());
    r.append(",\"recipe\":{\"id\":");
    r.append(json_quote(recipe.id.as_str()).as_str());
    r.append(",\"name\":");
    r.append(json_quote(recipe.name.as_str()).as_str());
    r.append(",\"path\":");
    r.append(json_quote(recipe.path.as_str()).as_str());
    r.append(",\"version\":");
    r.append(json_quote(recipe.version.as_str()).as_str());
    r.append("},\"team\":");
    r.append(json_opt(&service.team).as_str());
    r.append("}");
    r
}

/// What `injectCSS` does with a path that is not in the file cache.
pub open spec fn css_fallback(css_pre_injected: bool) -> Seq<char> {
    if css_pre_injected {
        "/* already injected */"@
    } else {
        "console.warn('[OmniChat] CSS not cached:', fn_)"@
    }
}

/// The recipe's `webview.js` wrapped as a CommonJS module with `path`/`fs`
/// polyfills over the file cache, then called with the Ferdium API and the
/// service configuration.
pub open spec fn spec_recipe_module(webview_js: Seq<char>, service_id: Seq<char>, service: ServiceConfig,
    recipe: Recipe, files: RecipeFiles, css_pre_injected: bool) -> Seq<char> {
    let dirname = spec_js_escape(recipe.path@);
    let config = spec_recipe_config_json(service_id, service, recipe);
    "(function() {\n"@
        + "var module = { exports: {} };\n"@
        + "var exports = module.exports;\n"@
        + "var __dirname = '"@ + dirname + "';\n"@
        + "var __filename = '"@ + dirname + "/webview.js';\n"@
        + "function _interopRequireDefault(o) { return o && o.__esModule ? o : { default: o }; }\n"@
        + "var _fc = "@ + spec_file_cache_json(files) + ";\n"@
        + MODULE_PRELUDE_RAW@
        + "            } else { "@ + css_fallback(css_pre_injected) + " }\n"@
        + MODULE_BRIDGE_RAW@
        + webview_js
        + "\nvar rf = module.exports;\n"@
        + "if (typeof rf === 'function') rf(window.__omnichat_ferdium, "@ + config + ");\n"@
        + "else if (rf && typeof rf.default === 'function') rf.default(window.__omnichat_ferdium, "@ + config + ");\n"@
        + "} catch(e) { console.error('[OmniChat] Recipe error:', e); }\n"@
        + "})();\n"@
}

pub fn recipe_module(webview_js: &str, service_id: &str, service: &ServiceConfig, recipe: &Recipe,
    files: &RecipeFiles, css_pre_injected: bool) -> (r: String)
    ensures
        r@ == spec_recipe_module(webview_js@, service_id@, *service, *recipe, *files, css_pre_injected),
{
    let dirname = js_escape(recipe.path.as_str());
    let file_cache = file_cache_json(files);
    let config = recipe_config_json(service_id, service, recipe);
    let css_fb = if css_pre_injected {
        "/* already injected */"
    } else {
        "console.warn('[OmniChat] CSS not cached:', fn_)"
    };
    let mut js = owned("(function() {\n");
    js.append("var module = { exports: {} };\n");
    js.append("var exports = module.exports;\n");
    js.append("var __dirname = '");
    js.append(dirname.as_str());
    js.append("';\n");
    js.append("var __filename = '");
    js.append(dirname.as_str());
    js.append("/webview.js';\n");
    js.append("function _interopRequireDefault(o) { return o && o.__esModule ? o : { default: o }; }\n");
    js.append("var _fc = ");
    js.append(file_cache.as_str());
    js.append(";\n");
    js.append(MODULE_PRELUDE_RAW);
    js.append("            } else { ");
    js.append(css_fb);
    js.append(" }\n");
    js.append(MODULE_BRIDGE_RAW);
    js.append(webview_js);
    js.append("\nvar rf = module.exports;\n");
    js.append("if (typeof rf === 'function') rf(window.__omnichat_ferdium, ");
    js.append(config.as_str());
    js.append(");\n");
    js.append("else if (rf && typeof rf.default === 'function') rf.default(window.__omnichat_ferdium, ");
    js.append(config.as_str());
    js.append(");\n");
    js.append("} catch(e) { console.error('[OmniChat] Recipe error:', e); }\n");
    js.append("})();\n");
    js
}

/// The shim with the service id, service name and recipe id filled in
/// (each escaped for a JavaScript literal).
pub open spec fn spec_fill_shim(shim: Seq<char>, service_id: Seq<char>, service: ServiceConfig) -> Seq<char> {
    replace_all(
        replace_all(
            replace_all(shim, "__SERVICE_ID__"@, spec_js_escape(service_id)),
            "__SERVICE_NAME__"@,
            spec_js_escape(service.name@),
        ),
        "__RECIPE_ID__"@,
        spec_js_escape(service.recipe_id@),
    )
}

pub open spec fn spec_service_css_piece(css: Option<String>) -> Seq<char> {
    match css {
        Some(c) => spec_css_injection(c@) + "\n"@,
        None => Seq::empty(),
    }
}

pub open spec fn spec_webview_piece(service_id: Seq<char>, service: ServiceConfig, recipe: Recipe, files: RecipeFiles) -> Seq<char> {
    match recipe.webview_js {
        Some(w) => spec_recipe_module(w@, service_id, service, recipe, files, files.service_css is Some) + "\n"@,
        None => Seq::empty(),
    }
}

pub open spec fn spec_dark_piece(service: ServiceConfig, recipe: Recipe) -> Seq<char> {
    if service.is_dark_mode_enabled {
        match recipe.darkmode_css {
            Some(css) => spec_css_injection(css@) + "\n"@,
            None => Seq::empty(),
        }
    } else {
        Seq::empty()
    }
}

fn service_css_piece(css: &Option<String>) -> (r: String)
    ensures
        r@ == spec_service_css_piece(*css),
{
    match css {
        Some(c) => {
            let mut r = css_injection(c.as_str());
            r.append("\n");
            r
        },
        None => String::new(),
    }
}

fn webview_piece(service_id: &str, service: &ServiceConfig, recipe: &Recipe, files: &RecipeFiles) -> (r: String)
    ensures
        r@ == spec_webview_piece(service_id@, *service, *recipe, *files),
{
    match &recipe.webview_js {
        Some(w) => {
            let mut r = recipe_module(w.as_str(), service_id, service, recipe, files, files.service_css.is_some());
            r.append("\n");
            r
        },
        None => String::new(),
    }
}

fn dark_piece(service: &ServiceConfig, recipe: &Recipe) -> (r: String)
    ensures
        r@ == spec_dark_piece(*service, *recipe),
{
    if service.is_dark_mode_enabled {
        service_css_piece(&recipe.darkmode_css)
    } else {
        String::new()
    }
}

/// The composite script for a service page (see `build_injection_js`).
pub open spec fn spec_injection_js(shim: Seq<char>, service_id: Seq<char>, service: ServiceConfig, recipe: Recipe,
    files: RecipeFiles) -> Seq<char> {
    "if(!window.__omnichat_injected){window.__omnichat_injected=true;\n"@
        + spec_fill_shim(shim, service_id, service) + "\n"@
        + spec_notification_patch() + "\n"@
        + spec_service_css_piece(files.service_css)
        + spec_webview_piece(service_id, service, recipe, files)
        + spec_dark_piece(service, recipe)
        + "}\n"@
}

/// Builds the composite script injected into a service page on load: a
/// guard against double injection, the Ferdium API shim (with the service's
/// identity filled in), the notification patch, the recipe's `service.css`,
/// its `webview.js` module, and its dark-mode CSS when dark mode is on.
pub fn build_injection_js(shim: &str, service_id: &str, service: &ServiceConfig, recipe: &Recipe,
    files: &RecipeFiles) -> (js: String)
    ensures
        js@ == spec_injection_js(shim@, service_id@, *service, *recipe, *files),
{
    proof {
        reveal_strlit("__SERVICE_ID__");
        reveal_strlit("__SERVICE_NAME__");
        reveal_strlit("__RECIPE_ID__");
    }
    let mut js = owned("if(!window.__omnichat_injected){window.__omnichat_injected=true;\n");
    let s1 = replace_str(shim, "__SERVICE_ID__", js_escape(service_id).as_str());
    let s2 = replace_str(s1.as_str(), "__SERVICE_NAME__", js_escape(service.name.as_str()).as_str());
    let s3 = replace_str(s2.as_str(), "__RECIPE_ID__", js_escape(service.recipe_id.as_str()).as_str());
    js.append(s3.as_str());
    js.append("\n");
    js.append(notification_patch().as_str());
    js.append("\n");
    let p1 = service_css_piece(&files.service_css);
    js.append(p1.as_str());
    let p2 = webview_piece(service_id, service, recipe, files);
    js.append(p2.as_str());
    let p3 = dark_piece(service, recipe);
    js.append(p3.as_str());
    js.append("}\n");
    js
}

/// The notification patch script.
pub const NOTIFICATION_PATCH_RAW: &'static str = r#"(function() {
    var ON = window.Notification;
    class N {
        static permission = 'granted';
        constructor(t, o) {
            t = t || ''; o = o || {};
            this._t = t; this._o = o; this._oc = null;
            var sid = (window.__omnichat_ferdium && window.__omnichat_ferdium._serviceId) || '';
            if (window.cefQuery) {
                window.cefQuery({
                    request: JSON.stringify({type:'notification',serviceId:sid,title:t,body:o.body||'',icon:o.icon||'',tag:o.tag||'',silent:o.silent||false}),
                    onSuccess: function() { if (this._oc) this._oc(); }.bind(this),
                    onFailure: function() {},
                });
            }
        }
        static requestPermission(cb) { if (typeof cb==='function') cb('granted'); return Promise.resolve('granted'); }
        close() { this._oc = null; }
        set onclick(c) { this._oc = c; }
        get onclick() { return this._oc; }
    }
    if (ON) Object.setPrototypeOf(N.prototype, ON.prototype);
    window.Notification = N;
    if (window.ServiceWorkerRegistration) {
        window.ServiceWorkerRegistration.prototype.showNotification = function(t, o) {
            new N(t, {body:(o&&o.body)||''});
        };
    }
})();
"#;

/// The part of the module wrapper before the cache-miss branch of
/// `injectCSS`.
pub const MODULE_PRELUDE_RAW: &'static str = r#"var _pm = {
    join: function() { return [].slice.call(arguments).join('/'); },
    basename: function(p) { return p.split('/').pop(); },
    dirname: function(p) { var x = p.split('/'); x.pop(); return x.join('/'); },
    extname: function(p) { var m = p.match(/\.[^.]+$/); return m ? m[0] : ''; },
};
_pm.default = _pm;
var require = function(n) {
    if (n === 'path') return _pm;
    if (n === 'fs' || n === 'fs-extra') return {
        existsSync: function(p) { return !!_fc[p.split('/').pop()]; },
        readFileSync: function(p) { return _fc[p.split('/').pop()] || ''; },
        pathExistsSync: function(p) { return !!_fc[p.split('/').pop()]; },
    };
    console.warn('[OmniChat] require("' + n + '") unavailable');
    return {};
};
var _oCSS = window.__omnichat_ferdium.injectCSS;
window.__omnichat_ferdium.injectCSS = function() {
    [].slice.call(arguments).forEach(function(a) {
        if (typeof a !== 'string' || !a) return;
        if (a.indexOf('/') > -1 || a.indexOf('\\') > -1) {
            var fn_ = a.split('/').pop().split('\\').pop();
            if (_fc[fn_]) {
                var s = document.createElement('style');
                s.textContent = _fc[fn_];
                (document.head || document.documentElement).appendChild(s);
"#;

/// The part of the module wrapper after the cache-miss branch of
/// `injectCSS`, up to the recipe code.
pub const MODULE_BRIDGE_RAW: &'static str = r#"        } else { _oCSS.call(window.__omnichat_ferdium, a); }
    });
};
window.Ferdium.injectCSS = window.__omnichat_ferdium.injectCSS;
window.__omnichat_ferdium.injectJSUnsafe = function() {
    [].slice.call(arguments).forEach(function(a) {
        if (typeof a !== 'string') return;
        var fn_ = a.split('/').pop().split('\\').pop();
        var code = _fc[fn_];
        if (code) {
            var script = document.createElement('script');
            script.textContent = code;
            document.documentElement.appendChild(script);
            script.remove();
        }
    });
};
window.Ferdium.injectJSUnsafe = window.__omnichat_ferdium.injectJSUnsafe;
try {
"#;

} // verus!
