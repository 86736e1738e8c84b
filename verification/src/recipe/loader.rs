//! Choosing recipes among those found on disk, and building a recipe from
//! the fields of its `package.json`.

use vstd::prelude::*;
use serde_json::{from_str, Value};
use super::model::Recipe;
use crate::service::config::clone_opt_string;
use crate::text::{owned, str_equal};

verus! {

/// Whether a recipe before position `i` of `s` has the same id as `s[i]`.
pub open spec fn has_earlier_same_id(s: Seq<Recipe>, i: int) -> bool {
    exists|j: int| 0 <= j < i && #[trigger] s[j].id@ == s[i].id@
}

/// Whether a recipe after position `i` of `s` has the same id as `s[i]`.
pub open spec fn has_later_same_id(s: Seq<Recipe>, i: int) -> bool {
    exists|j: int| i < j < s.len() && #[trigger] s[j].id@ == s[i].id@
}

/// The recipes of `s` whose id does not occur earlier: the first recipe
/// found with each id wins.
pub open spec fn first_of_each_id(s: Seq<Recipe>) -> Seq<Recipe>
    decreases s.len(),
{
    if s.len() == 0 {
        Seq::empty()
    } else if has_earlier_same_id(s, s.len() - 1) {
        first_of_each_id(s.drop_last())
    } else {
        first_of_each_id(s.drop_last()).push(s.last())
    }
}

/// The recipes of `s` whose id does not occur later: the last recipe with
/// each id wins.
pub open spec fn last_of_each_id(s: Seq<Recipe>) -> Seq<Recipe>
    decreases s.len(),
{
    if s.len() == 0 {
        Seq::empty()
    } else if has_later_same_id(s, 0) {
        last_of_each_id(s.drop_first())
    } else {
        seq![s[0]] + last_of_each_id(s.drop_first())
    }
}

fn id_occurs(s: &Vec<Recipe>, from: usize, to: usize, id: &str) -> (b: bool)
    requires
        from <= to <= s.len(),
    ensures
        b == exists|j: int| from <= j < to && #[trigger] s@[j].id@ == id@,
{
    let mut j = from;
    while j < to
        invariant
            from <= j <= to <= s.len(),
            forall|k: int| from <= k < j ==> #[trigger] s@[k].id@ != id@,
        decreases to - j,
    {
        if str_equal(s[j].id.as_str(), id) {
            return true;
        }
        j = j + 1;
    }
    false
}

/// Keeps the first recipe found with each id, in the order found (recipe
/// directories are scanned in priority order, so earlier ones win).
pub fn dedup_recipes(found: Vec<Recipe>) -> (kept: Vec<Recipe>)
    ensures
        kept@ == first_of_each_id(found@),
{
    let mut kept: Vec<Recipe> = Vec::new();
    let mut i: usize = 0;
    while i < found.len()
        invariant
            i <= found.len(),
            kept@ == first_of_each_id(found@.take(i as int)),
        decreases found.len() - i,
    {
        let ghost pre = found@.take(i as int + 1);
        assert(pre.drop_last() =~= found@.take(i as int));
        let dup = id_occurs(&found, 0, i, found[i].id.as_str());
        assert(dup == has_earlier_same_id(pre, i as int)) by {
            if dup {
                let j = choose|j: int| 0 <= j < i && #[trigger] found@[j].id@ == found@[i as int].id@;
                assert(pre[j].id@ == pre[i as int].id@);
            }
            if has_earlier_same_id(pre, i as int) {
                let j = choose|j: int| 0 <= j < i && #[trigger] pre[j].id@ == pre[i as int].id@;
                assert(found@[j].id@ == found@[i as int].id@);
            }
        }
        if !dup {
            kept.push(found[i].clone());
        }
        i = i + 1;
    }
    assert(found@.take(i as int) =~= found@);
    kept
}

/// Keeps the last recipe given with each id, in order: what collecting the
/// recipes into a map keyed by id retains.
pub fn recipes_by_id(recipes: Vec<Recipe>) -> (kept: Vec<Recipe>)
    ensures
        kept@ == last_of_each_id(recipes@),
{
    let mut kept: Vec<Recipe> = Vec::new();
    let mut i: usize = 0;
    assert(recipes@.skip(0) =~= recipes@);
    while i < recipes.len()
        invariant
            i <= recipes.len(),
            kept@ + last_of_each_id(recipes@.skip(i as int)) == last_of_each_id(recipes@),
        decreases recipes.len() - i,
    {
        let ghost t = recipes@.skip(i as int);
        assert(t.drop_first() =~= recipes@.skip(i + 1));
        let later = id_occurs(&recipes, i + 1, recipes.len(), recipes[i].id.as_str());
        assert(later == has_later_same_id(t, 0)) by {
            if later {
                let j = choose|j: int| i + 1 <= j < recipes.len() && #[trigger] recipes@[j].id@ == recipes@[i as int].id@;
                assert(t[j - i].id@ == t[0].id@);
            }
            if has_later_same_id(t, 0) {
                let j = choose|j: int| 0 < j < t.len() && #[trigger] t[j].id@ == t[0].id@;
                assert(recipes@[i + j].id@ == recipes@[i as int].id@);
            }
        }
        if !later {
            kept.push(recipes[i].clone());
            assert(kept@ + last_of_each_id(recipes@.skip(i + 1)) =~= last_of_each_id(recipes@));
        }
        i = i + 1;
    }
    assert(recipes@.skip(i as int) =~= Seq::<Recipe>::empty());
    assert(kept@ + Seq::<Recipe>::empty() =~= kept@);
    kept
}

/// The fields of a recipe's `package.json` that loading reads, each present
/// only when it holds a value of the expected JSON type.
pub struct PackageFields {
    pub id: Option<String>,
    pub name: Option<String>,
    pub version: Option<String>,
    pub description: Option<String>,
    pub service_url: Option<String>,
    pub has_direct_messages: Option<bool>,
    pub has_indirect_messages: Option<bool>,
    pub has_notification_sound: Option<bool>,
    pub has_team_id: Option<bool>,
    pub has_custom_url: Option<bool>,
    pub has_hosted_option: Option<bool>,
    pub url_input_prefix: Option<String>,
    pub url_input_suffix: Option<String>,
    pub disable_web_security: Option<bool>,
    pub message: Option<String>,
}

pub open spec fn text_or(o: Option<String>, d: Seq<char>) -> Seq<char> {
    match o {
        Some(s) => s@,
        None => d,
    }
}

pub open spec fn flag_or(o: Option<bool>, d: bool) -> bool {
    match o {
        Some(b) => b,
        None => d,
    }
}

fn text_or_exec(o: &Option<String>, d: &str) -> (r: String)
    ensures
        r@ == text_or(*o, d@),
{
    match o {
        Some(s) => s.clone(),
        None => owned(d),
    }
}

fn flag_or_exec(o: Option<bool>, d: bool) -> (r: bool)
    ensures
        r == flag_or(o, d),
{
    match o {
        Some(b) => b,
        None => d,
    }
}

/// Why a directory holds no usable recipe.
#[derive(Debug)]
pub enum RecipeError {
    /// `package.json` has neither an `id` nor a `name` string.
    NoIdOrName,
}

impl Recipe {
    /// The recipe that the package fields describe; `id` falls back to
    /// `name`, `name` to the id, `version` to `0.0.0`, direct messages to
    /// true and every other field to empty or false.
    pub open spec fn spec_from_package(p: PackageFields, path: Seq<char>, webview_js: Option<String>,
        darkmode_css: Option<String>, r: Recipe) -> bool {
        let id = match p.id { Some(i) => i@, None => text_or(p.name, Seq::empty()) };
        &&& r.id@ == id
        &&& r.name@ == text_or(p.name, id)
        &&& r.version@ == text_or(p.version, "0.0.0"@)
        &&& r.description@ == text_or(p.description, Seq::empty())
        &&& r.path@ == path
        &&& r.service_url@ == text_or(p.service_url, Seq::empty())
        &&& r.has_direct_messages == flag_or(p.has_direct_messages, true)
        &&& r.has_indirect_messages == flag_or(p.has_indirect_messages, false)
        &&& r.has_notification_sound == flag_or(p.has_notification_sound, false)
        &&& r.has_team_id == flag_or(p.has_team_id, false)
        &&& r.has_custom_url == flag_or(p.has_custom_url, false)
        &&& r.has_hosted_option == flag_or(p.has_hosted_option, false)
        &&& r.url_input_prefix@ == text_or(p.url_input_prefix, Seq::empty())
        &&& r.url_input_suffix@ == text_or(p.url_input_suffix, Seq::empty())
        &&& r.disable_web_security == flag_or(p.disable_web_security, false)
        &&& r.message@ == text_or(p.message, Seq::empty())
        &&& r.webview_js == webview_js
        &&& r.darkmode_css == darkmode_css
    }

    /// Builds a recipe from its package fields; fails exactly when the
    /// package has neither an id nor a name.
    pub fn from_package(p: &PackageFields, path: &str, webview_js: Option<String>, darkmode_css: Option<String>)
        -> (r: Result<Recipe, RecipeError>)
        ensures
            (p.id is None && p.name is None) <==> r is Err,
            r matches Ok(rec) ==> Recipe::spec_from_package(*p, path@, webview_js, darkmode_css, rec),
    {
        let id = match &p.id {
            Some(i) => i.clone(),
            None => match &p.name {
                Some(n) => n.clone(),
                None => return Err(RecipeError::NoIdOrName),
            },
        };
        let name = match &p.name {
            Some(n) => n.clone(),
            None => id.clone(),
        };
        proof {
            reveal_strlit("");
            assert(""@ =~= Seq::<char>::empty());
        }
        Ok(Recipe {
            id,
            name,
            version: text_or_exec(&p.version, "0.0.0"),
            description: text_or_exec(&p.description, ""),
            path: owned(path),
            service_url: text_or_exec(&p.service_url, ""),
            has_direct_messages: flag_or_exec(p.has_direct_messages, true),
            has_indirect_messages: flag_or_exec(p.has_indirect_messages, false),
            has_notification_sound: flag_or_exec(p.has_notification_sound, false),
            has_team_id: flag_or_exec(p.has_team_id, false),
            has_custom_url: flag_or_exec(p.has_custom_url, false),
            has_hosted_option: flag_or_exec(p.has_hosted_option, false),
            url_input_prefix: text_or_exec(&p.url_input_prefix, ""),
            url_input_suffix: text_or_exec(&p.url_input_suffix, ""),
            disable_web_security: flag_or_exec(p.disable_web_security, false),
            message: text_or_exec(&p.message, ""),
            webview_js,
            darkmode_css,
        })
    }
}

/// The package fields that `serde_json` reads from the text of a
/// `package.json`: `None` when the text is not JSON; otherwise each field
/// present exactly when the value at its place (top level, or under
/// `config`) is a JSON value of the field's type.
pub uninterp spec fn package_fields_of(content: Seq<char>) -> Option<PackageFields>;

/// Parses a `package.json` text with `serde_json::from_str` into a
/// `serde_json::Value` and reads each field with `as_str` / `as_bool`: the
/// result is `package_fields_of` the text.
#[verifier::external_body]
fn parse_package_json(content: &str) -> (r: Option<PackageFields>)
    ensures
        r == package_fields_of(content@),
{
    let v: Value = from_str(content).ok()?;
    let c = &v["config"];
    let s = |x: &Value| x.as_str().map(String::from);
    let b = |k: &str| c[k].as_bool();
    Some(PackageFields { id: s(&v["id"]), name: s(&v["name"]), version: s(&v["version"]),
        description: s(&v["description"]), service_url: s(&c["serviceURL"]),
        has_direct_messages: b("hasDirectMessages"), has_indirect_messages: b("hasIndirectMessages"),
        has_notification_sound: b("hasNotificationSound"), has_team_id: b("hasTeamId"),
        has_custom_url: b("hasCustomUrl"), has_hosted_option: b("hasHostedOption"),
        url_input_prefix: s(&c["urlInputPrefix"]), url_input_suffix: s(&c["urlInputSuffix"]),
        disable_web_security: b("disablewebsecurity"), message: s(&c["message"]) })
}

/// The recipe that the text of its `package.json` describes: `None` when the
/// text is not JSON; otherwise as `Recipe::from_package` builds it from the
/// fields read (an error exactly when there is neither an id nor a name).
pub fn recipe_from_package_json(content: &str, path: &str, webview_js: Option<String>, darkmode_css: Option<String>)
    -> (r: Option<Result<Recipe, RecipeError>>)
    ensures
        package_fields_of(content@) is None <==> r is None,
        package_fields_of(content@) matches Some(p) ==> r matches Some(res) && ((p.id is None && p.name is None)
            <==> res is Err) && (res matches Ok(rec) ==> Recipe::spec_from_package(p, path@, webview_js, darkmode_css,
            rec)),
{
    match parse_package_json(content) {
        Some(p) => Some(Recipe::from_package(&p, path, webview_js, darkmode_css)),
        None => None,
    }
}

} // verus!
