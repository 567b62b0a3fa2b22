//! The settings as they are handed over at startup: each one a piece of text,
//! or not there at all.
//!
//! Where the text comes from is the caller's business. Here it is read: a
//! setting that is needed and not there is reported as missing, one that
//! cannot be read as malformed, and the first fault found is the one
//! reported.

use vstd::prelude::*;
use vstd::string::*;

use crate::backend::{ShutdownTarget, ShutdownTargetView};
use crate::config::{config_view, ConfigError, IdleConfig, IdleConfigView, Setting};
use crate::decimal::{decimal_up_to, parse_decimal};

verus! {

/// The text of a setting, where there is one.
pub open spec fn text_of_setting(value: Option<String>) -> Option<Seq<char>> {
    match value {
        Some(text) => Some(text@),
        None => None,
    }
}

/// The settings as text, each one present or not.
#[derive(Clone, Debug, PartialEq, Eq)]
pub struct RawSettings {
    /// Host name or address of the monitored server.
    pub server_host: Option<String>,
    /// Port of the monitored server, in decimal digits.
    pub server_port: Option<String>,
    /// The idle timeout in seconds, in decimal digits.
    pub idle_timeout_secs: Option<String>,
    /// The poll interval in seconds, in decimal digits.
    pub poll_interval_secs: Option<String>,
    /// The shutdown backend: `local` or `cloud`. Where it is not given, the
    /// cloud backend is used.
    pub shutdown_backend: Option<String>,
    /// Path of the cloud provider's command-line tool.
    pub provider_cli_path: Option<String>,
    /// Path of the configuration file handed to that tool.
    pub config_file_path: Option<String>,
    /// Identifier of the compute instance to stop.
    pub instance_id: Option<String>,
}

/// [`RawSettings`] as plain text.
pub ghost struct RawSettingsView {
    /// Host name or address of the monitored server.
    pub server_host: Option<Seq<char>>,
    /// Port of the monitored server, in decimal digits.
    pub server_port: Option<Seq<char>>,
    /// The idle timeout in seconds, in decimal digits.
    pub idle_timeout_secs: Option<Seq<char>>,
    /// The poll interval in seconds, in decimal digits.
    pub poll_interval_secs: Option<Seq<char>>,
    /// The shutdown backend: `local` or `cloud`.
    pub shutdown_backend: Option<Seq<char>>,
    /// Path of the cloud provider's command-line tool.
    pub provider_cli_path: Option<Seq<char>>,
    /// Path of the configuration file handed to that tool.
    pub config_file_path: Option<Seq<char>>,
    /// Identifier of the compute instance to stop.
    pub instance_id: Option<Seq<char>>,
}

impl View for RawSettings {
    type V = RawSettingsView;

    open spec fn view(&self) -> RawSettingsView {
        RawSettingsView {
            server_host: text_of_setting(self.server_host),
            server_port: text_of_setting(self.server_port),
            idle_timeout_secs: text_of_setting(self.idle_timeout_secs),
            poll_interval_secs: text_of_setting(self.poll_interval_secs),
            shutdown_backend: text_of_setting(self.shutdown_backend),
            provider_cli_path: text_of_setting(self.provider_cli_path),
            config_file_path: text_of_setting(self.config_file_path),
            instance_id: text_of_setting(self.instance_id),
        }
    }
}

impl RawSettingsView {
    /// No setting given at all.
    pub open spec fn empty() -> RawSettingsView {
        RawSettingsView {
            server_host: None,
            server_port: None,
            idle_timeout_secs: None,
            poll_interval_secs: None,
            shutdown_backend: None,
            provider_cli_path: None,
            config_file_path: None,
            instance_id: None,
        }
    }
}

impl Default for RawSettings {
    /// No setting given at all.
    fn default() -> (settings: Self)
        ensures
            settings@ == RawSettingsView::empty(),
    {
        RawSettings {
            server_host: None,
            server_port: None,
            idle_timeout_secs: None,
            poll_interval_secs: None,
            shutdown_backend: None,
            provider_cli_path: None,
            config_file_path: None,
            instance_id: None,
        }
    }
}

/// The text of a setting that must be there.
pub open spec fn required_text(value: Option<Seq<char>>, setting: Setting) -> Result<
    Seq<char>,
    ConfigError,
> {
    match value {
        Some(text) => Ok(text),
        None => Err(ConfigError::Missing { setting }),
    }
}

/// The number of a setting that must be there and spell a number up to
/// `max` in decimal digits.
pub open spec fn required_number(value: Option<Seq<char>>, setting: Setting, max: u64) -> Result<
    u64,
    ConfigError,
> {
    match value {
        None => Err(ConfigError::Missing { setting }),
        Some(text) => match decimal_up_to(text, max) {
            Some(number) => Ok(number),
            None => Err(ConfigError::Malformed { setting }),
        },
    }
}

impl RawSettingsView {
    /// The idle check that the settings describe. The server's host is read
    /// first, then its port, the idle timeout and the poll interval; the
    /// durations are checked last.
    pub open spec fn idle_config(self) -> Result<IdleConfigView, ConfigError> {
        match required_text(self.server_host, Setting::ServerHost) {
            Err(error) => Err(error),
            Ok(host) => match required_number(self.server_port, Setting::ServerPort, 0xffff) {
                Err(error) => Err(error),
                Ok(port) => match required_number(
                    self.idle_timeout_secs,
                    Setting::IdleTimeout,
                    u64::MAX,
                ) {
                    Err(error) => Err(error),
                    Ok(idle_timeout_secs) => match required_number(
                        self.poll_interval_secs,
                        Setting::PollInterval,
                        u64::MAX,
                    ) {
                        Err(error) => Err(error),
                        Ok(poll_interval_secs) => IdleConfigView::checked(
                            poll_interval_secs,
                            idle_timeout_secs,
                            host,
                            port as u16,
                        ),
                    },
                },
            },
        }
    }

    /// The compute instance that the settings name. Its identifier is read
    /// first, then the path of the provider's tool and that of its
    /// configuration file.
    pub open spec fn cloud_instance(self) -> Result<ShutdownTargetView, ConfigError> {
        match required_text(self.instance_id, Setting::InstanceId) {
            Err(error) => Err(error),
            Ok(instance_id) => match required_text(
                self.provider_cli_path,
                Setting::ProviderCliPath,
            ) {
                Err(error) => Err(error),
                Ok(provider_cli_path) => match required_text(
                    self.config_file_path,
                    Setting::ConfigFilePath,
                ) {
                    Err(error) => Err(error),
                    Ok(config_file_path) => Ok(
                        ShutdownTargetView::CloudInstance {
                            provider_cli_path,
                            config_file_path,
                            instance_id,
                        },
                    ),
                },
            },
        }
    }

    /// What the settings say is to be stopped: the local machine for the
    /// backend `local`; the compute instance for the backend `cloud` and
    /// where no backend is named. Any other backend is malformed.
    pub open spec fn shutdown_target(self) -> Result<ShutdownTargetView, ConfigError> {
        match self.shutdown_backend {
            None => self.cloud_instance(),
            Some(backend) => if backend == "local"@ {
                Ok(ShutdownTargetView::Local)
            } else if backend == "cloud"@ {
                self.cloud_instance()
            } else {
                Err(ConfigError::Malformed { setting: Setting::ShutdownBackend })
            },
        }
    }
}

/// What is to be stopped, or why that is not known, as plain text.
pub open spec fn target_view(made: Result<ShutdownTarget, ConfigError>) -> Result<
    ShutdownTargetView,
    ConfigError,
> {
    match made {
        Ok(target) => Ok(target@),
        Err(error) => Err(error),
    }
}

/// A piece of text, or why there is none, as plain text.
pub open spec fn text_view(read: Result<String, ConfigError>) -> Result<Seq<char>, ConfigError> {
    match read {
        Ok(text) => Ok(text@),
        Err(error) => Err(error),
    }
}

/// A copy of the text of a setting that must be there.
fn read_text(value: &Option<String>, setting: Setting) -> (read: Result<String, ConfigError>)
    ensures
        text_view(read) == required_text(text_of_setting(*value), setting),
{
    match value {
        Some(text) => Ok(text.clone()),
        None => Err(ConfigError::Missing { setting }),
    }
}

/// The number of a setting that must be there.
fn read_number(value: &Option<String>, setting: Setting, max: u64) -> (read: Result<
    u64,
    ConfigError,
>)
    ensures
        read == required_number(text_of_setting(*value), setting, max),
{
    match value {
        None => Err(ConfigError::Missing { setting }),
        Some(text) => match parse_decimal(text.as_str(), max) {
            Some(number) => Ok(number),
            None => Err(ConfigError::Malformed { setting }),
        },
    }
}

impl RawSettings {
    /// Reads the settings of the idle check.
    pub fn idle_config(&self) -> (made: Result<IdleConfig, ConfigError>)
        ensures
            config_view(made) == self@.idle_config(),
    {
        let host = match read_text(&self.server_host, Setting::ServerHost) {
            Ok(host) => host,
            Err(error) => {
                return Err(error);
            },
        };
        let port = match read_number(&self.server_port, Setting::ServerPort, 0xffff) {
            Ok(port) => port as u16,
            Err(error) => {
                return Err(error);
            },
        };
        let idle_timeout_secs = match read_number(
            &self.idle_timeout_secs,
            Setting::IdleTimeout,
            u64::MAX,
        ) {
            Ok(secs) => secs,
            Err(error) => {
                return Err(error);
            },
        };
        let poll_interval_secs = match read_number(
            &self.poll_interval_secs,
            Setting::PollInterval,
            u64::MAX,
        ) {
            Ok(secs) => secs,
            Err(error) => {
                return Err(error);
            },
        };
        IdleConfig::new(poll_interval_secs, idle_timeout_secs, host, port)
    }

    /// Reads the compute instance that the settings name.
    fn cloud_instance(&self) -> (made: Result<ShutdownTarget, ConfigError>)
        ensures
            target_view(made) == self@.cloud_instance(),
    {
        let instance_id = match read_text(&self.instance_id, Setting::InstanceId) {
            Ok(text) => text,
            Err(error) => {
                return Err(error);
            },
        };
        let provider_cli_path = match read_text(
            &self.provider_cli_path,
            Setting::ProviderCliPath,
        ) {
            Ok(text) => text,
            Err(error) => {
                return Err(error);
            },
        };
        let config_file_path = match read_text(&self.config_file_path, Setting::ConfigFilePath) {
            Ok(text) => text,
            Err(error) => {
                return Err(error);
            },
        };
        Ok(ShutdownTarget::CloudInstance { provider_cli_path, config_file_path, instance_id })
    }

    /// Reads what is to be stopped.
    pub fn shutdown_target(&self) -> (made: Result<ShutdownTarget, ConfigError>)
        ensures
            target_view(made) == self@.shutdown_target(),
    {
        match &self.shutdown_backend {
            None => self.cloud_instance(),
            Some(backend) => {
                if *backend == String::from_str("local") {
                    Ok(ShutdownTarget::Local)
                } else if *backend == String::from_str("cloud") {
                    self.cloud_instance()
                } else {
                    Err(ConfigError::Malformed { setting: Setting::ShutdownBackend })
                }
            },
        }
    }
}

} // verus!
