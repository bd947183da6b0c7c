//! The settings the timer needs: the Jira base URL and the API token.
use vstd::prelude::*;
use crate::text::{is_blank, lemma_trimmed_empty_iff_blank, trim};

verus! {

/// The two settings.
#[derive(Clone, Debug)]
pub struct Config {
    pub jira_url: String,
    pub api_token: String,
}

/// The settings as text.
#[verifier::ext_equal]
pub struct ConfigView {
    pub jira_url: Seq<char>,
    pub api_token: Seq<char>,
}

impl View for Config {
    type V = ConfigView;

    open spec fn view(&self) -> ConfigView {
        ConfigView { jira_url: self.jira_url@, api_token: self.api_token@ }
    }
}

impl ConfigView {
    /// Both settings hold something other than whitespace.
    pub open spec fn configured(self) -> bool {
        !is_blank(self.jira_url) && !is_blank(self.api_token)
    }
}

impl Config {
    /// Whether both the URL and the token hold something other than
    /// whitespace.
    pub fn is_configured(&self) -> (r: bool)
        ensures
            r == self@.configured(),
    {
        proof {
            lemma_trimmed_empty_iff_blank(self.jira_url@);
            lemma_trimmed_empty_iff_blank(self.api_token@);
        }
        !trim(self.jira_url.as_str()).is_empty() && !trim(self.api_token.as_str()).is_empty()
    }

    /// A copy of the settings.
    pub fn duplicate(&self) -> (r: Config)
        ensures
            r@ == self@,
    {
        Config { jira_url: self.jira_url.clone(), api_token: self.api_token.clone() }
    }
}

impl Default for Config {
    fn default() -> (r: Config)
        ensures
            r@.jira_url.len() == 0,
            r@.api_token.len() == 0,
    {
        Config { jira_url: String::new(), api_token: String::new() }
    }
}

} // verus!
