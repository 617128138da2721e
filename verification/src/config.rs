//! Process configuration: plain scalar values with defaults where safe and a
//! hard failure when credentials are absent. Reading the environment is the
//! caller's business; the defaulting and the required-value rule live here.

use vstd::prelude::*;
use crate::strutil::opt_view;

verus! {

/// The configured endpoints, credentials, DNS value, and ownership marker.
#[derive(Debug, PartialEq, Eq)]
pub struct Config {
    pub host: String,
    pub port: u16,
    pub mikrotik_host: String,
    pub mikrotik_port: u16,
    pub mikrotik_username: String,
    pub mikrotik_password: String,
    pub custom_dns: String,
    pub app_comment: String,
}

impl Clone for Config {
    fn clone(&self) -> (r: Self)
        ensures
            r == *self,
    {
        Config {
            host: self.host.clone(),
            port: self.port,
            mikrotik_host: self.mikrotik_host.clone(),
            mikrotik_port: self.mikrotik_port,
            mikrotik_username: self.mikrotik_username.clone(),
            mikrotik_password: self.mikrotik_password.clone(),
            custom_dns: self.custom_dns.clone(),
            app_comment: self.app_comment.clone(),
        }
    }
}

/// Why a configuration cannot be built.
#[derive(Clone, Copy, Debug, PartialEq, Eq, Structural)]
pub enum ConfigError {
    /// The device username is required and was not given.
    MissingUsername,
    /// The device password is required and was not given.
    MissingPassword,
}

impl Config {
    /// Builds the configuration from the values found in the environment:
    /// every absent value but the credentials has a default; absent
    /// credentials are a hard failure.
    pub fn build(
        host: Option<String>,
        port: Option<u16>,
        mikrotik_host: Option<String>,
        mikrotik_port: Option<u16>,
        mikrotik_username: Option<String>,
        mikrotik_password: Option<String>,
        custom_dns: Option<String>,
        app_comment: Option<String>,
    ) -> (r: Result<Config, ConfigError>)
        ensures
            mikrotik_username is None <==> r == Result::<Config, ConfigError>::Err(
                ConfigError::MissingUsername,
            ),
            mikrotik_username is Some && mikrotik_password is None <==> r == Result::<
                Config,
                ConfigError,
            >::Err(ConfigError::MissingPassword),
            mikrotik_username is Some && mikrotik_password is Some ==> (r matches Result::Ok(c) && {
                &&& c.host@ == (if host is Some { opt_view(host)->Some_0 } else { "0.0.0.0"@ })
                &&& c.port == (if port is Some { port->Some_0 } else { 3000u16 })
                &&& c.mikrotik_host@ == (if mikrotik_host is Some {
                    opt_view(mikrotik_host)->Some_0
                } else {
                    "192.168.88.1"@
                })
                &&& c.mikrotik_port == (if mikrotik_port is Some {
                    mikrotik_port->Some_0
                } else {
                    8728u16
                })
                &&& c.mikrotik_username@ == opt_view(mikrotik_username)->Some_0
                &&& c.mikrotik_password@ == opt_view(mikrotik_password)->Some_0
                &&& c.custom_dns@ == (if custom_dns is Some {
                    opt_view(custom_dns)->Some_0
                } else {
                    "8.8.8.8"@
                })
                &&& c.app_comment@ == (if app_comment is Some {
                    opt_view(app_comment)->Some_0
                } else {
                    "DNS-Switcher-Managed"@
                })
            }),
    {
        let username = match mikrotik_username {
            Option::Some(u) => u,
            Option::None => {
                return Result::Err(ConfigError::MissingUsername);
            },
        };
        let password = match mikrotik_password {
            Option::Some(p) => p,
            Option::None => {
                return Result::Err(ConfigError::MissingPassword);
            },
        };
        Result::Ok(
            Config {
                host: match host {
                    Option::Some(h) => h,
                    Option::None => "0.0.0.0".to_owned(),
                },
                port: match port {
                    Option::Some(p) => p,
                    Option::None => 3000,
                },
                mikrotik_host: match mikrotik_host {
                    Option::Some(h) => h,
                    Option::None => "192.168.88.1".to_owned(),
                },
                mikrotik_port: match mikrotik_port {
                    Option::Some(p) => p,
                    Option::None => 8728,
                },
                mikrotik_username: username,
                mikrotik_password: password,
                custom_dns: match custom_dns {
                    Option::Some(d) => d,
                    Option::None => "8.8.8.8".to_owned(),
                },
                app_comment: match app_comment {
                    Option::Some(c) => c,
                    Option::None => "DNS-Switcher-Managed".to_owned(),
                },
            },
        )
    }
}

} // verus!
