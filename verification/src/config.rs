//! Connection settings: the endpoint, the bearer token and the keepalive
//! interval, and what a load of the configuration artifact comes to.

use vstd::prelude::*;
use crate::error::{AppError, AppResult, IoFailure};

verus! {

/// Keepalive interval, in seconds, used when the configuration names none.
pub const KEEPALIVE_DEF: u64 = 120;

/// Milliseconds in one second.
pub const MILLIS_PER_SEC: u64 = 1000;

/// Seconds of keepalive that a stored setting stands for: the setting itself
/// when it is present and positive, the default otherwise.
pub open spec fn keepalive_seconds(setting: Option<u64>) -> u64 {
    match setting {
        Some(sec) => if sec > 0 { sec } else { KEEPALIVE_DEF },
        None => KEEPALIVE_DEF,
    }
}

/// The mathematical content of a `Configure`.
pub struct ConfigureModel {
    pub url: Seq<char>,
    pub server_token: Seq<char>,
    pub keepalive: Option<u64>,
}

impl ConfigureModel {
    /// The content of the default configuration: no endpoint, no token, no interval.
    pub open spec fn empty() -> ConfigureModel {
        ConfigureModel { url: Seq::empty(), server_token: Seq::empty(), keepalive: None }
    }

    /// Both credentials are present.
    pub open spec fn has_credentials(self) -> bool {
        self.url.len() > 0 && self.server_token.len() > 0
    }

    /// The keepalive interval in seconds.
    pub open spec fn keepalive(self) -> u64 {
        keepalive_seconds(self.keepalive)
    }

    /// The keepalive interval in milliseconds, as a mathematical integer.
    pub open spec fn keepalive_ms(self) -> int {
        self.keepalive() * MILLIS_PER_SEC
    }

    /// The interval in milliseconds is representable in 64 bits.
    pub open spec fn interval_fits(self) -> bool {
        self.keepalive_ms() <= u64::MAX
    }
}

/// The settings of one watchdog connection.
#[derive(Clone, Debug, PartialEq)]
pub struct Configure {
    url: String,
    server_token: String,
    keepalive: Option<u64>,
}

impl View for Configure {
    type V = ConfigureModel;

    closed spec fn view(&self) -> ConfigureModel {
        ConfigureModel {
            url: self.url@,
            server_token: self.server_token@,
            keepalive: self.keepalive,
        }
    }
}

impl Configure {
    /// A configuration made of the three given fields.
    pub fn new(url: String, server_token: String, keepalive: Option<u64>) -> (c: Configure)
        ensures
            c@ == (ConfigureModel { url: url@, server_token: server_token@, keepalive }),
    {
        Configure { url, server_token, keepalive }
    }

    /// The endpoint to connect to.
    pub fn url(&self) -> (r: &str)
        ensures
            r@ == self@.url,
    {
        self.url.as_str()
    }

    /// The bearer token presented in the handshake.
    pub fn token(&self) -> (r: &str)
        ensures
            r@ == self@.server_token,
    {
        self.server_token.as_str()
    }

    /// The keepalive interval in seconds: the configured one when it is
    /// present and positive, `KEEPALIVE_DEF` otherwise.
    pub fn keepalive(&self) -> (r: u64)
        ensures
            r == self@.keepalive(),
            r > 0,
    {
        match self.keepalive {
            Some(sec) => if sec > 0 { sec } else { KEEPALIVE_DEF },
            None => KEEPALIVE_DEF,
        }
    }

    /// The keepalive interval as it was configured, if it was.
    pub fn keepalive_setting(&self) -> (r: Option<u64>)
        ensures
            r == self@.keepalive,
    {
        self.keepalive
    }

    /// Whether the interval in milliseconds is representable in 64 bits.
    pub fn interval_fits(&self) -> (r: bool)
        ensures
            r == self@.interval_fits(),
    {
        self.keepalive() <= u64::MAX / MILLIS_PER_SEC
    }

    /// The keepalive interval in milliseconds.
    pub fn keepalive_ms(&self) -> (r: u64)
        requires
            self@.interval_fits(),
        ensures
            r == self@.keepalive_ms(),
            r > 0,
    {
        self.keepalive() * MILLIS_PER_SEC
    }
}

/// What was found where the configuration artifact is kept.
#[derive(Debug)]
pub enum Artifact {
    /// No artifact exists.
    Missing,
    /// An artifact exists but could not be read.
    Unreadable,
    /// The artifact was read, but its contents are not a configuration.
    Malformed,
    /// The artifact was read and its contents give these fields.
    Settings { url: String, server_token: String, keepalive: Option<u64> },
}

/// What a load comes to: the artifact to create first, if any, and the result
/// that the call then returns.
#[derive(Debug)]
pub struct Loaded {
    /// The default configuration to write out before the call returns.
    pub created: Option<Configure>,
    /// The configuration, or why there is none.
    pub result: AppResult<Configure>,
}

impl Loaded {
    /// The outcome that `Configure::load` owes for each thing found.
    pub open spec fn matches_artifact(self, found: Artifact) -> bool {
        match found {
            Artifact::Missing => {
                &&& self.created matches Some(c) && c@ == ConfigureModel::empty()
                &&& self.result matches Err(AppError::IO { source: IoFailure::NotFound })
            },
            Artifact::Unreadable => {
                &&& self.created is None
                &&& self.result matches Err(AppError::IO { source: IoFailure::Other })
            },
            Artifact::Malformed => {
                &&& self.created is None
                &&& self.result matches Err(AppError::TomlDeserialize)
            },
            Artifact::Settings { url, server_token, keepalive } => {
                &&& self.created is None
                &&& self.result matches Ok(c) && c@ == (ConfigureModel {
                    url: url@,
                    server_token: server_token@,
                    keepalive,
                })
            },
        }
    }
}

impl Configure {
    /// Decides what a load comes to, given what was found. A missing artifact
    /// is never read as an empty configuration: the default is handed back to
    /// be written out, and the call fails with `NotFound`.
    pub fn load(found: Artifact) -> (loaded: Loaded)
        ensures
            loaded.matches_artifact(found),
            loaded.result is Ok <==> found is Settings,
            loaded.created is Some <==> found is Missing,
    {
        match found {
            Artifact::Missing => Loaded {
                created: Some(Configure::default()),
                result: Err(AppError::IO { source: IoFailure::NotFound }),
            },
            Artifact::Unreadable => Loaded {
                created: None,
                result: Err(AppError::IO { source: IoFailure::Other }),
            },
            Artifact::Malformed => Loaded { created: None, result: Err(AppError::TomlDeserialize) },
            Artifact::Settings { url, server_token, keepalive } => Loaded {
                created: None,
                result: Ok(Configure::new(url, server_token, keepalive)),
            },
        }
    }
}

impl Default for Configure {
    /// The configuration written out when none exists: everything empty.
    fn default() -> (c: Configure)
        ensures
            c@ == ConfigureModel::empty(),
    {
        Configure { url: String::new(), server_token: String::new(), keepalive: None }
    }
}

} // verus!
