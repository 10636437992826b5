//! The persisted settings: the GitHub token and whether first-time setup ran.
//! Reading and writing the file is the caller's; this is the value and its
//! rules.
use vstd::prelude::*;
use crate::text::opt_seq;

verus! {

/// Why no token is at hand.
#[derive(Debug, Clone, Copy, PartialEq, Eq, Structural)]
pub enum ConfigError {
    /// Neither the settings nor the environment hold a GitHub token.
    TokenNotFound,
}

/// What runs when no command is given.
#[derive(Debug, Clone, Copy, PartialEq, Eq, Structural)]
pub enum Startup {
    /// First-time setup: sign in, record the token, then start on a bounty.
    FirstTimeSetup,
    /// No token is at hand: sign in.
    Login,
    /// Start on a bounty with the token at hand.
    Solve,
}

/// The settings.
#[derive(Debug)]
pub struct Config {
    pub github_token: Option<String>,
    pub has_completed_first_time_setup: bool,
}

impl Default for Config {
    /// No token, and setup not done.
    fn default() -> (r: Config)
        ensures
            r.github_token.is_none(),
            !r.has_completed_first_time_setup,
    {
        Config { github_token: None, has_completed_first_time_setup: false }
    }
}

/// The token to use: the one in the settings, else the one from the
/// environment.
pub open spec fn token_choice(config: Option<Seq<char>>, env: Option<Seq<char>>) -> Option<Seq<char>> {
    match config {
        Some(t) => Some(t),
        None => env,
    }
}

impl Config {
    /// The token from the settings, else `env_token` (the value of
    /// `GITHUB_TOKEN`, read by the caller); `None` where neither has one.
    pub fn try_get_github_token(&self, env_token: Option<String>) -> (r: Option<String>)
        ensures
            opt_seq(r) == token_choice(opt_seq(self.github_token), opt_seq(env_token)),
    {
        match &self.github_token {
            Some(t) => Some(t.clone()),
            None => env_token,
        }
    }

    /// The token from the settings, else `env_token`; `TokenNotFound` where
    /// neither has one.
    pub fn get_github_token(&self, env_token: Option<String>) -> (r: Result<String, ConfigError>)
        ensures
            r.is_err() == (self.github_token.is_none() && env_token.is_none()),
            r.is_err() ==> r == Err::<String, ConfigError>(ConfigError::TokenNotFound),
            r.is_ok() ==> Some(r.unwrap()@) == token_choice(opt_seq(self.github_token), opt_seq(env_token)),
    {
        match self.try_get_github_token(env_token) {
            Some(t) => Ok(t),
            None => Err(ConfigError::TokenNotFound),
        }
    }

    /// Stores the token; the rest stays.
    pub fn set_github_token(&mut self, token: String)
        ensures
            final(self).github_token == Some(token),
            final(self).has_completed_first_time_setup == old(self).has_completed_first_time_setup,
    {
        self.github_token = Some(token);
    }

    /// Records that first-time setup ran; the rest stays.
    pub fn complete_first_time_setup(&mut self)
        ensures
            final(self).has_completed_first_time_setup,
            final(self).github_token == old(self).github_token,
    {
        self.has_completed_first_time_setup = true;
    }

    /// What runs when no command is given: first-time setup until it has
    /// run; then sign-in where neither the settings nor the environment
    /// hold a token, else work on a bounty.
    pub fn startup(&self, env_token: &Option<String>) -> (r: Startup)
        ensures
            !self.has_completed_first_time_setup ==> r == Startup::FirstTimeSetup,
            self.has_completed_first_time_setup && self.github_token.is_none() && env_token.is_none()
                ==> r == Startup::Login,
            self.has_completed_first_time_setup && (self.github_token.is_some() || env_token.is_some())
                ==> r == Startup::Solve,
    {
        if !self.has_completed_first_time_setup {
            Startup::FirstTimeSetup
        } else if self.github_token.is_none() && env_token.is_none() {
            Startup::Login
        } else {
            Startup::Solve
        }
    }

    /// Whether first-time setup has yet to run.
    pub fn is_first_time(&self) -> (r: bool)
        ensures
            r == !self.has_completed_first_time_setup,
    {
        !self.has_completed_first_time_setup
    }
}

} // verus!
