//! The program's settings, with their defaults.
use vstd::prelude::*;

use vstd::string::StringExecFns;

verus! {

/// The settings read at start-up.
#[derive(Debug, Clone)]
pub struct Config {
    pub database_path: String,
    pub bot_token: Option<String>,
    pub reddit_user_agent: String,
    pub log: String,
}

/// Where the link store lives unless configured.
pub const DEFAULT_DATABASE_PATH: &'static str = "yuribot_rs.sqlite3";

/// The log filter unless configured.
pub const DEFAULT_LOG: &'static str = "yuribot_rs=info";

/// The prefix of the default user agent, before the version.
pub const USER_AGENT_PREFIX: &'static str = "yuribot_rs/";

/// The user agent sent to the feed unless configured: the program's name
/// and `version`.
pub fn default_user_agent(version: &str) -> (r: String)
    ensures
        r@ == USER_AGENT_PREFIX@ + version@,
{
    let mut r = USER_AGENT_PREFIX.to_owned();
    r.append(version);
    r
}

} // verus!
