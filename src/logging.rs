//! Logging settings and the retention of old log files.
use vstd::prelude::*;
use crate::environment::{ApplicationEnvironment, resolve};
use crate::properties::LoggerProperties;

verus! {

/// How long log files are kept, in days.
pub const LOG_RETENTION_DAYS: u64 = 7;

/// The settings the logger is set up with.
#[derive(Clone, Debug)]
pub struct LoggerConfig {
    pub enabled: bool,
    pub level: String,
    pub file: String,
    pub log_dir: String,
}

impl LoggerConfig {
    /// Logging to standard output only, at level `info`.
    pub open spec fn is_default(&self) -> bool {
        &&& !self.enabled
        &&& self.level@ == ("info")@
        &&& self.file@ == ("info")@
        &&& self.log_dir@ == ("./logs")@
    }

    pub fn default_config() -> (r: LoggerConfig)
        ensures
            r.is_default(),
    {
        LoggerConfig {
            enabled: false,
            level: String::from_str("info"),
            file: String::from_str("info"),
            log_dir: String::from_str("./logs"),
        }
    }

    /// The `logger` settings of the environment when it resolves all four of
    /// them, else the defaults.
    pub fn get_config(environment: &ApplicationEnvironment) -> (r: LoggerConfig)
        ensures
            ({
                let s = environment.sources();
                match (
                    resolve::<bool>(s, ("logger.enabled")@),
                    resolve::<String>(s, ("logger.level")@),
                    resolve::<String>(s, ("logger.file")@),
                    resolve::<String>(s, ("logger.log_dir")@),
                ) {
                    (Some(e), Some(l), Some(f), Some(d)) => r.enabled == e && r.level == l && r.file
                        == f && r.log_dir == d,
                    _ => r.is_default(),
                }
            }),
    {
        let enabled = environment.get_property::<bool>("logger.enabled");
        let level = environment.get_property::<String>("logger.level");
        let file = environment.get_property::<String>("logger.file");
        let log_dir = environment.get_property::<String>("logger.log_dir");
        match (enabled, level, file, log_dir) {
            (Some(e), Some(l), Some(f), Some(d)) => LoggerConfig { enabled: e, level: l, file: f, log_dir: d },
            _ => Self::default_config(),
        }
    }

    /// The logger settings of the bootstrap configuration.
    pub fn from_properties(p: &LoggerProperties) -> (r: LoggerConfig)
        ensures
            r.enabled == p.enabled,
            r.level == p.level,
            r.file == p.file,
            r.log_dir == p.log_dir,
    {
        LoggerConfig {
            enabled: p.enabled,
            level: p.level.clone(),
            file: p.file.clone(),
            log_dir: p.log_dir.clone(),
        }
    }
}

/// Whether a file last modified at `modified` (seconds) is older than
/// `days` days at `now` (seconds).
pub fn is_expired(modified: u64, now: u64, days: u64) -> (r: bool)
    ensures
        r == (modified as int + days as int * 86400 < now as int),
{
    let limit: u128 = modified as u128 + days as u128 * 86400;
    limit < now as u128
}

} // verus!
