//! Application settings: the merge of command-line switches and the
//! optional configuration file.
//!
//! Reading the command line, the environment and the file itself is the
//! runtime's business; the rules for combining what was read — the
//! command line wins, the file fills the gaps, fixed defaults close
//! them — live here.

use vstd::prelude::*;

verus! {

/// How much the log keeps.
#[derive(Debug, Clone, Copy, PartialEq, Eq, Structural)]
pub enum LogLevel {
    Info,
    Debug,
    Trace,
}

/// The log level asked for by a count of verbosity switches: one step
/// per repetition, saturating at trace.
pub open spec fn spec_log_level(count: u8) -> LogLevel {
    if count == 0 {
        LogLevel::Info
    } else if count == 1 {
        LogLevel::Debug
    } else {
        LogLevel::Trace
    }
}

/// The log level for a count of verbosity switches.
pub fn translate_log_level(count: u8) -> (r: LogLevel)
    ensures
        r == spec_log_level(count),
{
    match count {
        0 => LogLevel::Info,
        1 => LogLevel::Debug,
        _ => LogLevel::Trace,
    }
}

/// What the command line said.
pub struct CliSettings {
    pub debug: u8,
    pub show_unknown: bool,
    pub log_to_file: bool,
    pub adapter: Option<String>,
}

impl CliSettings {
    /// The log level the verbosity switches ask for.
    pub fn get_log_level(&self) -> (r: LogLevel)
        ensures
            r == spec_log_level(self.debug),
    {
        translate_log_level(self.debug)
    }
}

/// What the configuration file said, each entry optional.
pub struct Config {
    pub adapter: Option<String>,
    pub log_path: Option<String>,
}

impl Default for Config {
    /// An absent or unreadable file says nothing.
    fn default() -> (r: Config)
        ensures
            r.adapter is None,
            r.log_path is None,
    {
        Config { adapter: None, log_path: None }
    }
}

/// Where and how much to log.
pub struct LogSettings {
    pub level: LogLevel,
    pub log_to_file: bool,
    pub folder: String,
}

/// What the device list shows.
pub struct DisplaySettings {
    pub show_unknown: bool,
}

/// Everything the application is configured by.
pub struct AppSettings {
    pub log_settings: LogSettings,
    pub display_settings: DisplaySettings,
    pub adapter: Option<String>,
}

impl AppSettings {
    /// Merges the command line with the file: the command line wins
    /// for the adapter, the file's log path wins over the default
    /// `logs` folder under the application's own directory.
    pub fn from_cli_and_file_settings(
        cli_settings: CliSettings,
        file_config: Config,
        app_folder: String,
    ) -> (r: AppSettings)
        ensures
            r.log_settings.level == spec_log_level(cli_settings.debug),
            r.log_settings.log_to_file == cli_settings.log_to_file,
            r.log_settings.folder@ == match file_config.log_path {
                Some(p) => p@,
                None => app_folder@ + "/logs"@,
            },
            r.display_settings.show_unknown == cli_settings.show_unknown,
            r.adapter == match cli_settings.adapter {
                Some(a) => Some(a),
                None => file_config.adapter,
            },
    {
        let level = cli_settings.get_log_level();
        let folder = match file_config.log_path {
            Some(p) => p,
            None => app_folder.concat("/logs"),
        };
        AppSettings {
            display_settings: DisplaySettings { show_unknown: cli_settings.show_unknown },
            log_settings: LogSettings {
                level,
                log_to_file: cli_settings.log_to_file,
                folder,
            },
            adapter: match cli_settings.adapter {
                Some(a) => Some(a),
                None => file_config.adapter,
            },
        }
    }

    /// Builds the settings from what the runtime read: the parsed
    /// command line, the configuration file if one was readable, and
    /// the application's own directory.
    pub fn parse(cli_settings: CliSettings, file_config: Option<Config>, app_folder: String) -> (r:
        AppSettings)
        ensures
            r.log_settings.level == spec_log_level(cli_settings.debug),
            r.log_settings.log_to_file == cli_settings.log_to_file,
            r.log_settings.folder@ == match file_config {
                Some(Config { log_path: Some(p), .. }) => p@,
                _ => app_folder@ + "/logs"@,
            },
            r.display_settings.show_unknown == cli_settings.show_unknown,
            r.adapter == match cli_settings.adapter {
                Some(a) => Some(a),
                None => match file_config {
                    Some(c) => c.adapter,
                    None => None::<String>,
                },
            },
    {
        let config = match file_config {
            Some(c) => c,
            None => Config::default(),
        };
        AppSettings::from_cli_and_file_settings(cli_settings, config, app_folder)
    }
}

} // verus!
