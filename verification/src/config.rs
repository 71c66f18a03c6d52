//! The settings of the detector, taken from positional arguments.

use vstd::prelude::*;
use crate::decimal::{decimal_u64, parse_decimal};

verus! {

/// Idle threshold in minutes where the arguments give none.
pub const DEFAULT_IDLE_MINUTES: u64 = 5;

/// Sample interval in seconds where the arguments give none.
pub const DEFAULT_SAMPLE_SECONDS: u64 = 30;

/// The log file where the arguments name none.
pub open spec fn default_log_path() -> Seq<char> {
    "/tmp/X11_WATCHER.txt"@
}

/// The settings as mathematical values.
pub struct Settings {
    /// Path of the log file.
    pub log_path: Seq<char>,
    /// Idle threshold in milliseconds.
    pub idle_threshold: nat,
    /// Sample interval in milliseconds.
    pub sample_interval: nat,
}

/// Which argument is not an unsigned decimal number.
#[derive(Clone, Copy, Debug, PartialEq, Eq)]
pub enum ConfigError {
    /// The idle threshold, the second argument.
    IdleThreshold,
    /// The sample interval, the third argument.
    SampleInterval,
}

/// The number at `position`, the default where the arguments end before
/// it, and `None` where the argument there is not a number.
pub open spec fn number_at(args: Seq<Seq<char>>, position: int, default: u64) -> Option<u64> {
    if position < args.len() {
        decimal_u64(args[position])
    } else {
        Some(default)
    }
}

/// The log path that the arguments name, or the default.
pub open spec fn path_at(args: Seq<Seq<char>>) -> Seq<char> {
    if 1 < args.len() {
        args[1]
    } else {
        default_log_path()
    }
}

/// The settings that a list of arguments stands for. The first entry is the
/// program's own name; then come the log path, the idle threshold in
/// minutes and the sample interval in seconds, each optional. A threshold
/// that is no number is reported before an interval that is none.
pub open spec fn settings_of(args: Seq<Seq<char>>) -> Result<Settings, ConfigError> {
    match number_at(args, 2, DEFAULT_IDLE_MINUTES) {
        None => Err(ConfigError::IdleThreshold),
        Some(minutes) => match number_at(args, 3, DEFAULT_SAMPLE_SECONDS) {
            None => Err(ConfigError::SampleInterval),
            Some(seconds) => Ok(
                Settings {
                    log_path: path_at(args),
                    idle_threshold: (minutes * 60_000) as nat,
                    sample_interval: (seconds * 1000) as nat,
                },
            ),
        },
    }
}

/// The detector's settings: where to log, how long a gap counts as idle,
/// and how often to sample.
#[derive(Clone, Debug)]
pub struct Config {
    log_path: String,
    idle_threshold: u128,
    sample_interval: u128,
}

impl View for Config {
    type V = Settings;

    closed spec fn view(&self) -> Settings {
        Settings {
            log_path: self.log_path@,
            idle_threshold: self.idle_threshold as nat,
            sample_interval: self.sample_interval as nat,
        }
    }
}

/// Reads the number at `position`, or takes the default where the
/// arguments end before it.
fn read_number(args: &Vec<String>, position: usize, default: u64) -> (value: Option<u64>)
    ensures
        value == number_at(args.deep_view(), position as int, default),
{
    if position < args.len() {
        parse_decimal(args[position].as_str())
    } else {
        Some(default)
    }
}

impl Config {
    /// Builds the settings from the program's arguments.
    pub fn new(args: &Vec<String>) -> (out: Result<Config, ConfigError>)
        ensures
            match out {
                Ok(config) => settings_of(args.deep_view()) == Ok::<Settings, ConfigError>(
                    config@,
                ),
                Err(e) => settings_of(args.deep_view()) == Err::<Settings, ConfigError>(e),
            },
    {
        let minutes = match read_number(args, 2, DEFAULT_IDLE_MINUTES) {
            Some(minutes) => minutes,
            None => { return Err(ConfigError::IdleThreshold); },
        };
        let seconds = match read_number(args, 3, DEFAULT_SAMPLE_SECONDS) {
            Some(seconds) => seconds,
            None => { return Err(ConfigError::SampleInterval); },
        };
        let log_path = if 1 < args.len() {
            args[1].clone()
        } else {
            String::from_str("/tmp/X11_WATCHER.txt")
        };
        Ok(
            Config {
                log_path,
                idle_threshold: minutes as u128 * 60_000,
                sample_interval: seconds as u128 * 1000,
            },
        )
    }

    /// Path of the log file.
    pub fn log_path(&self) -> (path: &str)
        ensures
            path@ == self@.log_path,
    {
        self.log_path.as_str()
    }

    /// Idle threshold in milliseconds.
    pub fn idle_threshold(&self) -> (ms: u128)
        ensures
            ms == self@.idle_threshold,
    {
        self.idle_threshold
    }

    /// Sample interval in milliseconds.
    pub fn sample_interval(&self) -> (ms: u128)
        ensures
            ms == self@.sample_interval,
    {
        self.sample_interval
    }
}

} // verus!
