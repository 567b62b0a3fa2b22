//! What the daemon is told at startup: how often to look, how long to wait,
//! and which server to ask.
//!
//! [`IdleConfig`] holds the checked values. [`crate::settings`] reads them
//! from text.

use vstd::prelude::*;
use vstd::string::*;

verus! {

/// Nanoseconds in one second.
pub const NANOS_PER_SEC: u128 = 1_000_000_000;

/// The settings the daemon is given at startup, by what they mean.
#[derive(Clone, Copy, Debug, PartialEq, Eq, Structural)]
pub enum Setting {
    /// Host name or address of the monitored server.
    ServerHost,
    /// Port of the monitored server.
    ServerPort,
    /// Seconds without players after which the machine is stopped.
    IdleTimeout,
    /// Seconds between two looks at the server.
    PollInterval,
    /// Which shutdown backend to use.
    ShutdownBackend,
    /// Path of the cloud provider's command-line tool.
    ProviderCliPath,
    /// Path of the configuration file handed to that tool.
    ConfigFilePath,
    /// Identifier of the compute instance to stop.
    InstanceId,
}

impl Setting {
    /// The setting's name in words.
    pub open spec fn title(self) -> Seq<char> {
        match self {
            Setting::ServerHost => "server host"@,
            Setting::ServerPort => "server port"@,
            Setting::IdleTimeout => "idle timeout"@,
            Setting::PollInterval => "poll interval"@,
            Setting::ShutdownBackend => "shutdown backend"@,
            Setting::ProviderCliPath => "provider CLI path"@,
            Setting::ConfigFilePath => "provider config file"@,
            Setting::InstanceId => "instance id"@,
        }
    }

    /// The setting's name in words.
    pub fn name(&self) -> (text: &'static str)
        ensures
            text@ == self.title(),
    {
        match self {
            Setting::ServerHost => "server host",
            Setting::ServerPort => "server port",
            Setting::IdleTimeout => "idle timeout",
            Setting::PollInterval => "poll interval",
            Setting::ShutdownBackend => "shutdown backend",
            Setting::ProviderCliPath => "provider CLI path",
            Setting::ConfigFilePath => "provider config file",
            Setting::InstanceId => "instance id",
        }
    }
}

/// Why the settings were turned down.
#[derive(Clone, Copy, Debug, PartialEq, Eq, Structural)]
pub enum ConfigError {
    /// A setting that is needed was not given.
    Missing {
        /// The setting that is not there.
        setting: Setting,
    },
    /// A setting was given a value that cannot be read.
    Malformed {
        /// The setting whose value cannot be read.
        setting: Setting,
    },
    /// The poll interval was zero.
    ZeroPollInterval,
    /// The idle timeout was zero.
    ZeroIdleTimeout,
}

impl ConfigError {
    /// The error in words.
    pub open spec fn wording(self) -> Seq<char> {
        match self {
            ConfigError::Missing { setting } => "missing setting: "@ + setting.title(),
            ConfigError::Malformed { setting } => "malformed setting: "@ + setting.title(),
            ConfigError::ZeroPollInterval => "the poll interval must be at least one second"@,
            ConfigError::ZeroIdleTimeout => "the idle timeout must be at least one second"@,
        }
    }

    /// The error in words.
    pub fn message(&self) -> (text: String)
        ensures
            text@ == self.wording(),
    {
        match self {
            ConfigError::Missing { setting } => String::from_str("missing setting: ").concat(
                setting.name(),
            ),
            ConfigError::Malformed { setting } => String::from_str("malformed setting: ").concat(
                setting.name(),
            ),
            ConfigError::ZeroPollInterval => String::from_str(
                "the poll interval must be at least one second",
            ),
            ConfigError::ZeroIdleTimeout => String::from_str(
                "the idle timeout must be at least one second",
            ),
        }
    }
}

/// The settings of the idle check. Both durations are strictly positive.
#[derive(Debug, PartialEq, Eq)]
pub struct IdleConfig {
    poll_interval_secs: u64,
    idle_timeout_secs: u64,
    host: String,
    port: u16,
}

/// An [`IdleConfig`] as plain values.
pub ghost struct IdleConfigView {
    /// Seconds between two looks at the server.
    pub poll_interval_secs: nat,
    /// Seconds without players after which the machine is stopped.
    pub idle_timeout_secs: nat,
    /// Host name or address of the monitored server.
    pub host: Seq<char>,
    /// Port of the monitored server.
    pub port: u16,
}

impl IdleConfigView {
    /// The idle timeout in nanoseconds.
    pub open spec fn idle_timeout(self) -> nat {
        self.idle_timeout_secs * (NANOS_PER_SEC as nat)
    }

    /// The poll interval in nanoseconds.
    pub open spec fn poll_interval(self) -> nat {
        self.poll_interval_secs * (NANOS_PER_SEC as nat)
    }
}

impl IdleConfigView {
    /// The configuration made of these values, where both durations are
    /// positive; else what is wrong with them, a zero poll interval before a
    /// zero idle timeout.
    pub open spec fn checked(
        poll_interval_secs: u64,
        idle_timeout_secs: u64,
        host: Seq<char>,
        port: u16,
    ) -> Result<IdleConfigView, ConfigError> {
        if poll_interval_secs == 0 {
            Err(ConfigError::ZeroPollInterval)
        } else if idle_timeout_secs == 0 {
            Err(ConfigError::ZeroIdleTimeout)
        } else {
            Ok(
                IdleConfigView {
                    poll_interval_secs: poll_interval_secs as nat,
                    idle_timeout_secs: idle_timeout_secs as nat,
                    host,
                    port,
                },
            )
        }
    }
}

/// A configuration, or why there is none, as plain values.
pub open spec fn config_view(made: Result<IdleConfig, ConfigError>) -> Result<
    IdleConfigView,
    ConfigError,
> {
    match made {
        Ok(config) => Ok(config@),
        Err(error) => Err(error),
    }
}

impl View for IdleConfig {
    type V = IdleConfigView;

    closed spec fn view(&self) -> IdleConfigView {
        IdleConfigView {
            poll_interval_secs: self.poll_interval_secs as nat,
            idle_timeout_secs: self.idle_timeout_secs as nat,
            host: self.host@,
            port: self.port,
        }
    }
}

impl Clone for IdleConfig {
    fn clone(&self) -> (copy: Self)
        ensures
            copy@ == self@,
    {
        proof {
            use_type_invariant(self);
        }
        IdleConfig {
            poll_interval_secs: self.poll_interval_secs,
            idle_timeout_secs: self.idle_timeout_secs,
            host: self.host.clone(),
            port: self.port,
        }
    }
}

impl IdleConfig {
    #[verifier::type_invariant]
    spec fn positive_durations(&self) -> bool {
        self.poll_interval_secs > 0 && self.idle_timeout_secs > 0
    }

    /// Checks the durations and builds the configuration. A zero poll
    /// interval is reported before a zero idle timeout.
    pub fn new(poll_interval_secs: u64, idle_timeout_secs: u64, host: String, port: u16) -> (made:
        Result<Self, ConfigError>)
        ensures
            config_view(made) == IdleConfigView::checked(
                poll_interval_secs,
                idle_timeout_secs,
                host@,
                port,
            ),
    {
        if poll_interval_secs == 0 {
            Err(ConfigError::ZeroPollInterval)
        } else if idle_timeout_secs == 0 {
            Err(ConfigError::ZeroIdleTimeout)
        } else {
            Ok(IdleConfig { poll_interval_secs, idle_timeout_secs, host, port })
        }
    }

    /// Seconds between two looks at the server; never zero.
    pub fn poll_interval_secs(&self) -> (secs: u64)
        ensures
            secs == self@.poll_interval_secs,
            secs > 0,
    {
        proof {
            use_type_invariant(self);
        }
        self.poll_interval_secs
    }

    /// Seconds without players after which the machine is stopped; never zero.
    pub fn idle_timeout_secs(&self) -> (secs: u64)
        ensures
            secs == self@.idle_timeout_secs,
            secs > 0,
    {
        proof {
            use_type_invariant(self);
        }
        self.idle_timeout_secs
    }

    /// The poll interval in nanoseconds.
    pub fn poll_interval(&self) -> (nanos: u128)
        ensures
            nanos == self@.poll_interval(),
    {
        let secs: u128 = self.poll_interval_secs as u128;
        assert(secs * NANOS_PER_SEC <= u128::MAX) by (nonlinear_arith)
            requires
                secs <= u64::MAX,
                NANOS_PER_SEC == 1_000_000_000,
        ;
        secs * NANOS_PER_SEC
    }

    /// The idle timeout in nanoseconds.
    pub fn idle_timeout(&self) -> (nanos: u128)
        ensures
            nanos == self@.idle_timeout(),
    {
        let secs: u128 = self.idle_timeout_secs as u128;
        assert(secs * NANOS_PER_SEC <= u128::MAX) by (nonlinear_arith)
            requires
                secs <= u64::MAX,
                NANOS_PER_SEC == 1_000_000_000,
        ;
        secs * NANOS_PER_SEC
    }

    /// Host name or address of the monitored server.
    pub fn host(&self) -> (host: &String)
        ensures
            host@ == self@.host,
    {
        &self.host
    }

    /// Port of the monitored server.
    pub fn port(&self) -> (port: u16)
        ensures
            port == self@.port,
    {
        self.port
    }

    /// Whether the server is looked at no less often than once per idle
    /// timeout. Where this fails the idle check still works, only later than
    /// the timeout suggests: an idle server is noticed at the first tick after
    /// the timeout has run out.
    pub fn polls_within_timeout(&self) -> (fits: bool)
        ensures
            fits == (self@.poll_interval_secs <= self@.idle_timeout_secs),
    {
        self.poll_interval_secs <= self.idle_timeout_secs
    }
}

} // verus!
