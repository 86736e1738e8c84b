//! A recipe as parsed from its `package.json`.

use vstd::prelude::*;
use crate::service::config::{team_placeholder, clone_opt_string};
use crate::text::{replace_all, replace_str, owned};

verus! {

/// A Ferdium-compatible recipe, parsed from package.json.
#[derive(Debug)]
pub struct Recipe {
    pub id: String,
    pub name: String,
    pub version: String,
    pub description: String,
    /// Path to the recipe directory on disk.
    pub path: String,
    pub service_url: String,
    pub has_direct_messages: bool,
    pub has_indirect_messages: bool,
    pub has_notification_sound: bool,
    pub has_team_id: bool,
    pub has_custom_url: bool,
    pub has_hosted_option: bool,
    pub url_input_prefix: String,
    pub url_input_suffix: String,
    pub disable_web_security: bool,
    pub message: String,
    /// Contents of webview.js, when the recipe has one.
    pub webview_js: Option<String>,
    /// Contents of darkmode.css, when the recipe has one.
    pub darkmode_css: Option<String>,
}

/// The value that `has_direct_messages` takes when the package omits it.
pub fn default_true() -> (b: bool)
    ensures
        b,
{
    true
}

impl Clone for Recipe {
    fn clone(&self) -> (r: Self)
        ensures
            r == *self,
    {
        Recipe {
            id: self.id.clone(),
            name: self.name.clone(),
            version: self.version.clone(),
            description: self.description.clone(),
            path: self.path.clone(),
            service_url: self.service_url.clone(),
            has_direct_messages: self.has_direct_messages,
            has_indirect_messages: self.has_indirect_messages,
            has_notification_sound: self.has_notification_sound,
            has_team_id: self.has_team_id,
            has_custom_url: self.has_custom_url,
            has_hosted_option: self.has_hosted_option,
            url_input_prefix: self.url_input_prefix.clone(),
            url_input_suffix: self.url_input_suffix.clone(),
            disable_web_security: self.disable_web_security,
            message: self.message.clone(),
            webview_js: clone_opt_string(&self.webview_js),
            darkmode_css: clone_opt_string(&self.darkmode_css),
        }
    }
}

impl Recipe {
    /// A non-empty custom URL wins; otherwise the recipe's service URL with
    /// the team substituted for every `{teamId}` when a team is given.
    pub open spec fn spec_effective_url(self, custom_url: Option<Seq<char>>, team: Option<Seq<char>>) -> Seq<char> {
        match custom_url {
            Some(u) if u.len() > 0 => u,
            _ => match team {
                Some(t) => replace_all(self.service_url@, team_placeholder(), t),
                None => self.service_url@,
            },
        }
    }

    pub fn effective_url(&self, custom_url: Option<&str>, team: Option<&str>) -> (u: String)
        ensures
            u@ == self.spec_effective_url(
                match custom_url { Some(c) => Some(c@), None => None },
                match team { Some(t) => Some(t@), None => None },
            ),
    {
        if let Some(url) = custom_url {
            if !url.is_empty() {
                return owned(url);
            }
        }
        let mut url = self.service_url.clone();
        if let Some(team) = team {
            proof {
                reveal_strlit("{teamId}");
                assert("{teamId}"@ =~= team_placeholder());
            }
            url = replace_str(url.as_str(), "{teamId}", team);
        }
        url
    }
}

} // verus!
