//! Persisted configuration of one service and the URL it loads.

use vstd::prelude::*;
use crate::text::{replace_all, replace_str, owned};

verus! {

#[derive(Debug)]
pub struct ServiceConfig {
    pub id: String,
    pub recipe_id: String,
    pub name: String,
    pub team: Option<String>,
    pub custom_url: Option<String>,
    pub sort_order: i32,
    pub is_enabled: bool,
    pub is_notification_enabled: bool,
    pub is_badge_enabled: bool,
    pub is_muted: bool,
    pub is_dark_mode_enabled: bool,
    pub is_hibernation_enabled: bool,
    pub proxy: Option<String>,
}

/// The value that a missing boolean field of a stored service defaults to.
pub fn default_true() -> (b: bool)
    ensures
        b,
{
    true
}

pub fn clone_opt_string(o: &Option<String>) -> (r: Option<String>)
    ensures
        r == *o,
{
    match o {
        Some(s) => Some(s.clone()),
        None => None,
    }
}

impl Clone for ServiceConfig {
    fn clone(&self) -> (r: Self)
        ensures
            r == *self,
    {
        ServiceConfig {
            id: self.id.clone(),
            recipe_id: self.recipe_id.clone(),
            name: self.name.clone(),
            team: clone_opt_string(&self.team),
            custom_url: clone_opt_string(&self.custom_url),
            sort_order: self.sort_order,
            is_enabled: self.is_enabled,
            is_notification_enabled: self.is_notification_enabled,
            is_badge_enabled: self.is_badge_enabled,
            is_muted: self.is_muted,
            is_dark_mode_enabled: self.is_dark_mode_enabled,
            is_hibernation_enabled: self.is_hibernation_enabled,
            proxy: clone_opt_string(&self.proxy),
        }
    }
}

/// The placeholder that recipe URLs use for the team (workspace) name.
pub open spec fn team_placeholder() -> Seq<char> {
    seq!['{', 't', 'e', 'a', 'm', 'I', 'd', '}']
}

impl ServiceConfig {
    /// A newly added service: enabled, notifying, badged, sleeping when idle,
    /// not muted, light, first in order, with no team, URL or proxy.
    pub open spec fn is_new_config(self, id: Seq<char>, recipe_id: Seq<char>, name: Seq<char>) -> bool {
        &&& self.id@ == id
        &&& self.recipe_id@ == recipe_id
        &&& self.name@ == name
        &&& self.team is None
        &&& self.custom_url is None
        &&& self.sort_order == 0
        &&& self.is_enabled
        &&& self.is_notification_enabled
        &&& self.is_badge_enabled
        &&& !self.is_muted
        &&& !self.is_dark_mode_enabled
        &&& self.is_hibernation_enabled
        &&& self.proxy is None
    }

    /// The custom URL, when one is set and not empty.
    pub open spec fn usable_custom_url(self) -> Option<Seq<char>> {
        match self.custom_url {
            Some(u) => if u@.len() > 0 { Some(u@) } else { None },
            None => None,
        }
    }

    /// `https://<recipe_id>.com`.
    pub open spec fn generic_url(self) -> Seq<char> {
        "https://"@ + self.recipe_id@ + ".com"@
    }

    pub open spec fn spec_effective_url(self) -> Seq<char> {
        match self.usable_custom_url() {
            Some(u) => u,
            None => self.generic_url(),
        }
    }

    /// A recipe's service URL with the team substituted for every `{teamId}`
    /// (when a team is set) and any remaining `{teamId}` removed.
    pub open spec fn resolve_team(self, recipe_url: Seq<char>) -> Seq<char> {
        let with_team = match self.team {
            Some(t) => replace_all(recipe_url, team_placeholder(), t@),
            None => recipe_url,
        };
        replace_all(with_team, team_placeholder(), Seq::empty())
    }

    pub open spec fn spec_effective_url_with_recipe(self, recipe_url: Seq<char>) -> Seq<char> {
        match self.usable_custom_url() {
            Some(u) => u,
            None => if recipe_url.len() > 0 {
                self.resolve_team(recipe_url)
            } else {
                self.generic_url()
            },
        }
    }

    pub fn new(id: String, recipe_id: String, name: String) -> (c: Self)
        ensures
            c.is_new_config(id@, recipe_id@, name@),
    {
        ServiceConfig {
            id,
            recipe_id,
            name,
            team: None,
            custom_url: None,
            sort_order: 0,
            is_enabled: true,
            is_notification_enabled: true,
            is_badge_enabled: true,
            is_muted: false,
            is_dark_mode_enabled: false,
            is_hibernation_enabled: true,
            proxy: None,
        }
    }

    /// Returns the URL to load for this service: the custom URL if set,
    /// otherwise `https://<recipe_id>.com`.
    pub fn effective_url(&self) -> (u: String)
        ensures
            u@ == self.spec_effective_url(),
    {
        if let Some(url) = &self.custom_url {
            if !url.as_str().is_empty() {
                return url.clone();
            }
        }
        let mut u = owned("https://");
        u.append(self.recipe_id.as_str());
        u.append(".com");
        u
    }

    /// Returns the URL resolved against a recipe's service URL with `{teamId}`
    /// substitution: a custom URL always wins, then the recipe URL, then the
    /// generic `https://<recipe_id>.com`.
    pub fn effective_url_with_recipe(&self, recipe_service_url: &str) -> (u: String)
        ensures
            u@ == self.spec_effective_url_with_recipe(recipe_service_url@),
    {
        if let Some(url) = &self.custom_url {
            if !url.as_str().is_empty() {
                return url.clone();
            }
        }
        if !recipe_service_url.is_empty() {
            proof {
                reveal_strlit("{teamId}");
                reveal_strlit("");
                assert("{teamId}"@ =~= team_placeholder());
                assert(""@ =~= Seq::<char>::empty());
            }
            let mut url = owned(recipe_service_url);
            if let Some(team) = &self.team {
                url = replace_str(url.as_str(), "{teamId}", team.as_str());
            }
            url = replace_str(url.as_str(), "{teamId}", "");
            return url;
        }
        self.effective_url()
    }
}

} // verus!
