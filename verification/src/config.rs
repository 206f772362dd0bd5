//! The values that configure the engine. Reading them from a command line or
//! a file is the caller's business.

use vstd::prelude::*;
use vstd::string::StringExecFns;

verus! {

/// How many days back the first poll reaches, unless configured otherwise.
pub const DEFAULT_HISTORY_DAYS: u8 = 7;

/// Seconds between two polls, unless configured otherwise.
pub const DEFAULT_UPDATE_INTERVAL: u8 = 60;

/// Alerts asked for per request, unless configured otherwise.
pub const DEFAULT_REQUEST_LIMIT: u8 = 100;

/// The service's production endpoint, which is the base path unless
/// configured otherwise.
pub open spec fn default_base_path() -> Seq<char> {
    "https://api.opsgenie.com"@
}

/// The engine's configuration.
#[derive(Clone, Debug, PartialEq, Eq)]
pub struct Config {
    /// The key that authorises the requests.
    pub api_key: String,
    /// How far back the first poll reaches, in days.
    pub history_days: u8,
    /// Seconds between two polls.
    pub update_interval: u8,
    /// Alerts asked for per request.
    pub request_limit: u8,
    /// The base URL of the alerting service.
    pub base_path: String,
}

/// What a [`Config`] holds.
pub struct ConfigView {
    pub api_key: Seq<char>,
    pub history_days: int,
    pub update_interval: int,
    pub request_limit: int,
    pub base_path: Seq<char>,
}

impl View for Config {
    type V = ConfigView;

    open spec fn view(&self) -> ConfigView {
        ConfigView {
            api_key: self.api_key@,
            history_days: self.history_days as int,
            update_interval: self.update_interval as int,
            request_limit: self.request_limit as int,
            base_path: self.base_path@,
        }
    }
}

impl Config {
    /// The configuration with `api_key` and every other value at its default.
    pub fn with_defaults(api_key: String) -> (config: Config)
        ensures
            config@ == (ConfigView {
                api_key: api_key@,
                history_days: DEFAULT_HISTORY_DAYS as int,
                update_interval: DEFAULT_UPDATE_INTERVAL as int,
                request_limit: DEFAULT_REQUEST_LIMIT as int,
                base_path: default_base_path(),
            }),
    {
        Config {
            api_key,
            history_days: DEFAULT_HISTORY_DAYS,
            update_interval: DEFAULT_UPDATE_INTERVAL,
            request_limit: DEFAULT_REQUEST_LIMIT,
            base_path: String::from_str("https://api.opsgenie.com"),
        }
    }
}

} // verus!
