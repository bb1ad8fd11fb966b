//! Run configuration: the credentials/target triple and the rules that
//! resolve the default configuration file location from the platform and its
//! environment. Reading the environment and the file itself is the
//! application shell's job; it hands the plain values in.

use vstd::prelude::*;

verus! {

/// The immutable inputs of one run: auth token, recipient identifier and
/// overall timeout.
#[derive(Debug, Clone)]
pub struct Config {
    pub bot_token: String,
    pub user_id: i64,
    pub timeout_minutes: u64,
}

/// The overall timeout applied when the configuration names none.
pub fn default_timeout_minutes() -> (r: u64)
    ensures
        r == 60,
{
    60
}

/// The platform the default configuration location is resolved for.
#[derive(Debug, Clone, Copy, PartialEq, Eq, Structural)]
pub enum OsKind {
    Linux,
    MacOs,
    Windows,
    Other,
}

/// Why no default configuration location could be resolved.
#[derive(Debug, Clone, Copy, PartialEq, Eq, Structural)]
pub enum ConfigError {
    /// The platform resolves through `HOME`, which is not set.
    MissingHome,
    /// The platform resolves through `APPDATA`, which is not set.
    MissingAppData,
    /// No resolution rule exists for the platform.
    UnsupportedOs,
}

impl ConfigError {
    /// The diagnostic text for this error.
    pub open spec fn message_spec(self) -> Seq<char> {
        match self {
            ConfigError::MissingHome => "HOME environment variable is not set"@,
            ConfigError::MissingAppData => "APPDATA environment variable is not set"@,
            ConfigError::UnsupportedOs => "unsupported OS for default config path resolution"@,
        }
    }

    /// Renders the diagnostic text.
    pub fn message(&self) -> (r: String)
        ensures
            r@ == self.message_spec(),
    {
        match self {
            ConfigError::MissingHome => "HOME environment variable is not set".to_owned(),
            ConfigError::MissingAppData => "APPDATA environment variable is not set".to_owned(),
            ConfigError::UnsupportedOs => "unsupported OS for default config path resolution"
                .to_owned(),
        }
    }
}

/// Resolves the default configuration file location from the platform and
/// the relevant environment values. On Linux a non-empty `XDG_CONFIG_HOME`
/// wins, then `HOME/.config`; macOS uses the application-support directory
/// under `HOME`; Windows uses `APPDATA`.
pub fn default_config_path_impl(
    os: OsKind,
    xdg_config_home: Option<String>,
    home: Option<String>,
    appdata: Option<String>,
) -> (r: Result<String, ConfigError>)
    ensures
        os is Linux ==> ({
            &&& (xdg_config_home matches Some(x) ==> (x@.len() > 0 ==> (r matches Ok(p) && p@
                == x@ + "/teleprompt/config.toml"@)))
            &&& ((xdg_config_home is None || xdg_config_home.unwrap()@.len() == 0) ==> match home {
                Option::Some(h) => r matches Ok(p) && p@ == h@
                    + "/.config/teleprompt/config.toml"@,
                Option::None => r == Result::<String, ConfigError>::Err(ConfigError::MissingHome),
            })
        }),
        os is MacOs ==> match home {
            Option::Some(h) => r matches Ok(p) && p@ == h@
                + "/Library/Application Support/teleprompt/config.toml"@,
            Option::None => r == Result::<String, ConfigError>::Err(ConfigError::MissingHome),
        },
        os is Windows ==> match appdata {
            Option::Some(a) => r matches Ok(p) && p@ == a@ + "\\teleprompt\\config.toml"@,
            Option::None => r == Result::<String, ConfigError>::Err(ConfigError::MissingAppData),
        },
        os is Other ==> r == Result::<String, ConfigError>::Err(ConfigError::UnsupportedOs),
{
    match os {
        OsKind::Linux => {
            let use_xdg = match &xdg_config_home {
                Some(x) => !x.as_str().is_empty(),
                None => false,
            };
            if use_xdg {
                let mut p = match xdg_config_home {
                    Some(x) => x,
                    None => String::new(),
                };
                p.append("/teleprompt/config.toml");
                Ok(p)
            } else {
                match home {
                    Some(h) => {
                        let mut p = h;
                        p.append("/.config/teleprompt/config.toml");
                        Ok(p)
                    },
                    None => Err(ConfigError::MissingHome),
                }
            }
        },
        OsKind::MacOs => {
            match home {
                Some(h) => {
                    let mut p = h;
                    p.append("/Library/Application Support/teleprompt/config.toml");
                    Ok(p)
                },
                None => Err(ConfigError::MissingHome),
            }
        },
        OsKind::Windows => {
            match appdata {
                Some(a) => {
                    let mut p = a;
                    p.append("\\teleprompt\\config.toml");
                    Ok(p)
                },
                None => Err(ConfigError::MissingAppData),
            }
        },
        OsKind::Other => Err(ConfigError::UnsupportedOs),
    }
}

/// The default configuration file location for the given platform and
/// environment.
pub fn default_config_path(
    os: OsKind,
    xdg_config_home: Option<String>,
    home: Option<String>,
    appdata: Option<String>,
) -> (r: Result<String, ConfigError>)
    ensures
        os is Linux ==> ({
            &&& (xdg_config_home matches Some(x) ==> (x@.len() > 0 ==> (r matches Ok(p) && p@
                == x@ + "/teleprompt/config.toml"@)))
            &&& ((xdg_config_home is None || xdg_config_home.unwrap()@.len() == 0) ==> match home {
                Option::Some(h) => r matches Ok(p) && p@ == h@
                    + "/.config/teleprompt/config.toml"@,
                Option::None => r == Result::<String, ConfigError>::Err(ConfigError::MissingHome),
            })
        }),
        os is MacOs ==> match home {
            Option::Some(h) => r matches Ok(p) && p@ == h@
                + "/Library/Application Support/teleprompt/config.toml"@,
            Option::None => r == Result::<String, ConfigError>::Err(ConfigError::MissingHome),
        },
        os is Windows ==> match appdata {
            Option::Some(a) => r matches Ok(p) && p@ == a@ + "\\teleprompt\\config.toml"@,
            Option::None => r == Result::<String, ConfigError>::Err(ConfigError::MissingAppData),
        },
        os is Other ==> r == Result::<String, ConfigError>::Err(ConfigError::UnsupportedOs),
{
    default_config_path_impl(os, xdg_config_home, home, appdata)
}

} // verus!
