//! Application-wide settings and their stored key/value form.

use vstd::prelude::*;
use crate::text::{owned, str_equal};

verus! {

#[derive(Debug)]
pub struct AppSettings {
    pub show_tray_icon: bool,
    pub enable_system_tray: bool,
    pub minimize_to_tray: bool,
    pub close_to_tray: bool,
    pub start_minimized: bool,
    pub enable_dnd: bool,
    pub global_hibernation_enabled: bool,
    /// Content-area theme: "auto" (follow OS), "light", or "dark". The sidebar
    /// rail is always dark chrome regardless of this setting.
    pub theme: String,
}

/// The theme used when none is stored.
pub fn default_theme() -> (t: String)
    ensures
        t@ == "auto"@,
{
    owned("auto")
}

impl Clone for AppSettings {
    fn clone(&self) -> (r: Self)
        ensures
            r == *self,
    {
        AppSettings {
            show_tray_icon: self.show_tray_icon,
            enable_system_tray: self.enable_system_tray,
            minimize_to_tray: self.minimize_to_tray,
            close_to_tray: self.close_to_tray,
            start_minimized: self.start_minimized,
            enable_dnd: self.enable_dnd,
            global_hibernation_enabled: self.global_hibernation_enabled,
            theme: self.theme.clone(),
        }
    }
}

impl Default for AppSettings {
    fn default() -> (s: Self)
        ensures
            s.is_default(),
    {
        AppSettings {
            show_tray_icon: true,
            enable_system_tray: true,
            minimize_to_tray: false,
            close_to_tray: false,
            start_minimized: false,
            enable_dnd: false,
            global_hibernation_enabled: true,
            theme: default_theme(),
        }
    }
}

/// `"true"` or `"false"`, as `bool::to_string` writes it.
pub open spec fn bool_text(b: bool) -> Seq<char> {
    if b { "true"@ } else { "false"@ }
}

fn bool_string(b: bool) -> (s: String)
    ensures
        s@ == bool_text(b),
{
    if b { owned("true") } else { owned("false") }
}

/// The value stored for `key` among `rows`: the first row with that key.
pub open spec fn stored_value(rows: Seq<(Seq<char>, Seq<char>)>, key: Seq<char>) -> Option<Seq<char>>
    decreases rows.len(),
{
    if rows.len() == 0 {
        None
    } else if rows[0].0 == key {
        Some(rows[0].1)
    } else {
        stored_value(rows.drop_first(), key)
    }
}

/// A stored boolean flag: the default when absent, otherwise whether the
/// stored text is exactly `true`.
pub open spec fn stored_flag(rows: Seq<(Seq<char>, Seq<char>)>, key: Seq<char>, default: bool) -> bool {
    match stored_value(rows, key) {
        Some(v) => v == "true"@,
        None => default,
    }
}

pub open spec fn rows_view(rows: Seq<(String, String)>) -> Seq<(Seq<char>, Seq<char>)> {
    rows.map_values(|r: (String, String)| (r.0@, r.1@))
}

impl AppSettings {
    pub open spec fn is_default(self) -> bool {
        &&& self.show_tray_icon
        &&& self.enable_system_tray
        &&& !self.minimize_to_tray
        &&& !self.close_to_tray
        &&& !self.start_minimized
        &&& !self.enable_dnd
        &&& self.global_hibernation_enabled
        &&& self.theme@ == "auto"@
    }

    /// The key/value rows that saving writes, one per setting.
    pub open spec fn spec_stored_rows(self) -> Seq<(Seq<char>, Seq<char>)> {
        seq![
            ("show_tray_icon"@, bool_text(self.show_tray_icon)),
            ("enable_system_tray"@, bool_text(self.enable_system_tray)),
            ("minimize_to_tray"@, bool_text(self.minimize_to_tray)),
            ("close_to_tray"@, bool_text(self.close_to_tray)),
            ("start_minimized"@, bool_text(self.start_minimized)),
            ("enable_dnd"@, bool_text(self.enable_dnd)),
            ("global_hibernation_enabled"@, bool_text(self.global_hibernation_enabled)),
            ("theme"@, self.theme@),
        ]
    }

    /// The settings that loading builds from stored rows: every flag that has
    /// a row is `true` exactly when its text is `true`, the others keep their
    /// defaults; the theme is the stored text, or `auto` when none is stored.
    pub open spec fn spec_from_rows(rows: Seq<(Seq<char>, Seq<char>)>, s: AppSettings) -> bool {
        &&& s.show_tray_icon == stored_flag(rows, "show_tray_icon"@, true)
        &&& s.enable_system_tray == stored_flag(rows, "enable_system_tray"@, true)
        &&& s.minimize_to_tray == stored_flag(rows, "minimize_to_tray"@, false)
        &&& s.close_to_tray == stored_flag(rows, "close_to_tray"@, false)
        &&& s.start_minimized == stored_flag(rows, "start_minimized"@, false)
        &&& s.enable_dnd == stored_flag(rows, "enable_dnd"@, false)
        &&& s.global_hibernation_enabled == stored_flag(rows, "global_hibernation_enabled"@, true)
        &&& s.theme@ == match stored_value(rows, "theme"@) {
            Some(v) => v,
            None => "auto"@,
        }
    }

    /// The rows to write when saving: `(key, value)` for each setting, flags
    /// written as `true`/`false`.
    pub fn stored_rows(&self) -> (rows: Vec<(String, String)>)
        ensures
            rows_view(rows@) == self.spec_stored_rows(),
    {
        let mut rows: Vec<(String, String)> = Vec::new();
        rows.push((owned("show_tray_icon"), bool_string(self.show_tray_icon)));
        rows.push((owned("enable_system_tray"), bool_string(self.enable_system_tray)));
        rows.push((owned("minimize_to_tray"), bool_string(self.minimize_to_tray)));
        rows.push((owned("close_to_tray"), bool_string(self.close_to_tray)));
        rows.push((owned("start_minimized"), bool_string(self.start_minimized)));
        rows.push((owned("enable_dnd"), bool_string(self.enable_dnd)));
        rows.push((owned("global_hibernation_enabled"), bool_string(self.global_hibernation_enabled)));
        rows.push((owned("theme"), self.theme.clone()));
        assert(rows_view(rows@) =~= self.spec_stored_rows());
        rows
    }

    /// Settings loaded from stored rows (see `spec_from_rows`).
    pub fn from_stored_rows(rows: &Vec<(String, String)>) -> (s: AppSettings)
        ensures
            AppSettings::spec_from_rows(rows_view(rows@), s),
    {
        let mut s = AppSettings::default();
        s.show_tray_icon = flag_from_rows(rows, "show_tray_icon", true);
        s.enable_system_tray = flag_from_rows(rows, "enable_system_tray", true);
        s.minimize_to_tray = flag_from_rows(rows, "minimize_to_tray", false);
        s.close_to_tray = flag_from_rows(rows, "close_to_tray", false);
        s.start_minimized = flag_from_rows(rows, "start_minimized", false);
        s.enable_dnd = flag_from_rows(rows, "enable_dnd", false);
        s.global_hibernation_enabled = flag_from_rows(rows, "global_hibernation_enabled", true);
        if let Some(t) = value_from_rows(rows, "theme") {
            s.theme = t;
        }
        s
    }
}

proof fn lemma_stored_value(rows: Seq<(Seq<char>, Seq<char>)>, key: Seq<char>, i: int)
    requires
        0 <= i <= rows.len(),
        forall|j: int| 0 <= j < i ==> #[trigger] rows[j].0 != key,
        i < rows.len() ==> rows[i].0 == key,
    ensures
        stored_value(rows, key) == (if i < rows.len() { Some(rows[i].1) } else { None::<Seq<char>> }),
    decreases rows.len(),
{
    if rows.len() > 0 && i > 0 {
        assert forall|j: int| 0 <= j < i - 1 implies #[trigger] rows.drop_first()[j].0 != key by {
            assert(rows[j + 1].0 != key);
        }
        lemma_stored_value(rows.drop_first(), key, i - 1);
    }
}

/// The stored value of the flag `key`, or `default` when no row has it.
fn flag_from_rows(rows: &Vec<(String, String)>, key: &str, default: bool) -> (b: bool)
    ensures
        b == stored_flag(rows_view(rows@), key@, default),
{
    let ghost rv = rows_view(rows@);
    let mut i: usize = 0;
    while i < rows.len()
        invariant
            i <= rows.len(),
            rv == rows_view(rows@),
            forall|j: int| 0 <= j < i ==> #[trigger] rv[j].0 != key@,
        decreases rows.len() - i,
    {
        if str_equal(rows[i].0.as_str(), key) {
            proof {
                lemma_stored_value(rv, key@, i as int);
            }
            return str_equal(rows[i].1.as_str(), "true");
        }
        i = i + 1;
    }
    proof {
        lemma_stored_value(rv, key@, i as int);
    }
    default
}

/// The value stored under `key`, if a row has it.
fn value_from_rows(rows: &Vec<(String, String)>, key: &str) -> (r: Option<String>)
    ensures
        match r {
            Some(v) => stored_value(rows_view(rows@), key@) == Some(v@),
            None => stored_value(rows_view(rows@), key@) is None,
        },
{
    let ghost rv = rows_view(rows@);
    let mut i: usize = 0;
    while i < rows.len()
        invariant
            i <= rows.len(),
            rv == rows_view(rows@),
            forall|j: int| 0 <= j < i ==> #[trigger] rv[j].0 != key@,
        decreases rows.len() - i,
    {
        if str_equal(rows[i].0.as_str(), key) {
            proof {
                lemma_stored_value(rv, key@, i as int);
            }
            return Some(rows[i].1.clone());
        }
        i = i + 1;
    }
    proof {
        lemma_stored_value(rv, key@, i as int);
    }
    None
}

/// Saving the settings and loading them back gives the same settings:
/// every flag, and the theme as the same text.
pub proof fn lemma_settings_round_trip(s: AppSettings, t: AppSettings)
    requires
        AppSettings::spec_from_rows(s.spec_stored_rows(), t),
    ensures
        t == (AppSettings { theme: t.theme, ..s }),
        t.theme@ == s.theme@,
{
    reveal_strlit("show_tray_icon");
    reveal_strlit("enable_system_tray");
    reveal_strlit("minimize_to_tray");
    reveal_strlit("close_to_tray");
    reveal_strlit("start_minimized");
    reveal_strlit("enable_dnd");
    reveal_strlit("global_hibernation_enabled");
    reveal_strlit("theme");
    reveal_strlit("true");
    reveal_strlit("false");
    let rows = s.spec_stored_rows();
    reveal_with_fuel(stored_value, 9);
    assert("true"@.len() == 4 && "false"@.len() == 5);
    assert("show_tray_icon"@.len() == 14 && "enable_system_tray"@.len() == 18);
    assert("minimize_to_tray"@.len() == 16 && "close_to_tray"@.len() == 13);
    assert("start_minimized"@.len() == 15 && "enable_dnd"@.len() == 10);
    assert("global_hibernation_enabled"@.len() == 26 && "theme"@.len() == 5);
    assert(stored_value(rows, "show_tray_icon"@) == Some(bool_text(s.show_tray_icon)));
    assert(stored_value(rows, "enable_system_tray"@) == Some(bool_text(s.enable_system_tray)));
    assert(stored_value(rows, "minimize_to_tray"@) == Some(bool_text(s.minimize_to_tray)));
    assert(stored_value(rows, "close_to_tray"@) == Some(bool_text(s.close_to_tray)));
    assert(stored_value(rows, "start_minimized"@) == Some(bool_text(s.start_minimized)));
    assert(stored_value(rows, "enable_dnd"@) == Some(bool_text(s.enable_dnd)));
    assert(stored_value(rows, "global_hibernation_enabled"@) == Some(bool_text(s.global_hibernation_enabled)));
    assert(stored_value(rows, "theme"@) == Some(s.theme@));
}

} // verus!
