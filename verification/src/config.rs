//! The client's settings.

use vstd::prelude::*;
use vstd::string::StringExecFns;
use crate::text::{parse_i8, parsed_i8, trim_end_matches, without_trailing};

verus! {

/// The settings that the client keeps between runs. The environment can
/// override each of them for one run.
#[derive(Clone)]
pub struct Config {
    pub url: String,
    pub debug: i8,
    pub token: String,
}

/// The settings of a client that was never configured.
pub open spec fn default_url() -> Seq<char> {
    "https://www.corgea.app"@
}

/// The level that a debug setting from the environment stands for: the
/// number it spells, and 0 where it spells none.
pub open spec fn debug_level(text: Seq<char>) -> i8 {
    match parsed_i8(text) {
        Some(level) => level,
        None => 0,
    }
}

impl Config {
    /// The settings of a client that was never configured: the public server,
    /// no token, no debug output.
    pub fn initial() -> (config: Config)
        ensures
            config.url@ == default_url(),
            config.debug == 0,
            config.token@ == Seq::<char>::empty(),
    {
        Config { url: String::from_str("https://www.corgea.app"), debug: 0, token: String::new() }
    }

    /// Replaces the token. The caller saves the settings afterwards.
    pub fn set_token(&mut self, token: String)
        ensures
            final(self).token == token,
            final(self).url == old(self).url,
            final(self).debug == old(self).debug,
    {
        self.token = token;
    }

    /// Replaces the server's address. The caller saves the settings
    /// afterwards.
    pub fn set_url(&mut self, url: String)
        ensures
            final(self).url == url,
            final(self).token == old(self).token,
            final(self).debug == old(self).debug,
    {
        self.url = url;
    }

    /// The server's address for this run: the one from the environment where
    /// there is one, and else the configured one; in either case without the
    /// slashes it ends with.
    pub fn get_url(&self, from_environment: Option<String>) -> (url: String)
        ensures
            url@ == without_trailing(
                match from_environment {
                    Some(u) => u@,
                    None => self.url@,
                },
                '/',
            ),
    {
        match from_environment {
            Some(u) => trim_end_matches(u.as_str(), '/').to_owned(),
            None => trim_end_matches(self.url.as_str(), '/').to_owned(),
        }
    }

    /// The token for this run: the one from the environment where there is
    /// one, and else the configured one.
    pub fn get_token(&self, from_environment: Option<String>) -> (token: String)
        ensures
            token@ == (match from_environment {
                Some(t) => t@,
                None => self.token@,
            }),
    {
        match from_environment {
            Some(t) => t,
            None => self.token.clone(),
        }
    }

    /// The debug level for this run: what the environment's setting spells
    /// where there is one, and else the configured level.
    pub fn get_debug(&self, from_environment: Option<String>) -> (level: i8)
        ensures
            level == (match from_environment {
                Some(text) => debug_level(text@),
                None => self.debug,
            }),
    {
        match from_environment {
            Some(text) => Config::debug_from(parse_i8(text.as_str())),
            None => self.debug,
        }
    }

    /// The level that a debug setting stands for, given the number it spells.
    pub fn debug_from(number: Option<i8>) -> (level: i8)
        ensures
            level == (match number {
                Some(n) => n,
                None => 0,
            }),
    {
        match number {
            Some(n) => n,
            None => 0,
        }
    }
}

} // verus!
