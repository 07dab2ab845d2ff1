//! The settings of one run, validated.

use vstd::prelude::*;

verus! {

/// How many fetches may run at once where nothing else is asked for.
pub const DEFAULT_CONCURRENCY: usize = 10;

/// Why a set of values makes no settings.
#[derive(Debug, Clone, Copy, PartialEq, Eq)]
pub enum ConfigError {
    /// No fetch could ever start with a concurrency bound of 0.
    ZeroConcurrency,
    /// No request could ever end in time with a timeout of 0 seconds.
    ZeroTimeout,
}

/// The settings of one run: how many fetches may run at once, the seconds
/// that one request may take, and whether the first line of the input is a
/// header. The two numbers are positive.
#[derive(Debug, Clone, Copy, PartialEq, Eq)]
pub struct Config {
    concurrency: usize,
    timeout_secs: u64,
    has_header: bool,
}

/// What a [`Config`] holds.
pub struct ConfigView {
    pub concurrency: nat,
    pub timeout_secs: nat,
    pub has_header: bool,
}

impl ConfigView {
    /// Both numbers are positive.
    pub open spec fn valid(self) -> bool {
        self.concurrency >= 1 && self.timeout_secs >= 1
    }
}

impl View for Config {
    type V = ConfigView;

    closed spec fn view(&self) -> ConfigView {
        ConfigView {
            concurrency: self.concurrency as nat,
            timeout_secs: self.timeout_secs as nat,
            has_header: self.has_header,
        }
    }
}

impl Config {
    #[verifier::type_invariant]
    spec fn valid(self) -> bool {
        self@.valid()
    }

    /// The settings made of the three values, where the two numbers are
    /// positive; the concurrency bound is looked at first.
    pub fn new(concurrency: usize, timeout_secs: u64, has_header: bool) -> (config: Result<
        Config,
        ConfigError,
    >)
        ensures
            concurrency == 0 ==> config == Err::<Config, ConfigError>(ConfigError::ZeroConcurrency),
            concurrency > 0 && timeout_secs == 0 ==> config == Err::<Config, ConfigError>(
                ConfigError::ZeroTimeout,
            ),
            concurrency > 0 && timeout_secs > 0 ==> config is Ok && config->Ok_0@ == (ConfigView {
                concurrency: concurrency as nat,
                timeout_secs: timeout_secs as nat,
                has_header,
            }),
    {
        if concurrency == 0 {
            Err(ConfigError::ZeroConcurrency)
        } else if timeout_secs == 0 {
            Err(ConfigError::ZeroTimeout)
        } else {
            Ok(Config { concurrency, timeout_secs, has_header })
        }
    }

    /// How many fetches may run at once: at least one.
    pub fn concurrency(&self) -> (concurrency: usize)
        ensures
            concurrency == self@.concurrency,
            self@.valid(),
    {
        proof {
            use_type_invariant(self);
        }
        self.concurrency
    }

    /// The seconds that one request may take: at least one.
    pub fn timeout_secs(&self) -> (timeout_secs: u64)
        ensures
            timeout_secs == self@.timeout_secs,
            self@.valid(),
    {
        proof {
            use_type_invariant(self);
        }
        self.timeout_secs
    }

    /// Whether the first line of the input is a header.
    pub fn has_header(&self) -> (has_header: bool)
        ensures
            has_header == self@.has_header,
    {
        self.has_header
    }
}

} // verus!
