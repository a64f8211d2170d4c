//! What the tracker is started with.

use crate::number::{parse_decimal, parse_unsigned, NumberError};
use crate::text::views;
use vstd::prelude::*;
use vstd::string::StringExecFns;

verus! {

/// The settings of one run. They stay as they are for the life of the
/// process.
#[derive(Debug)]
pub struct Config {
    /// Host and port of the sentinels, as `host:port`.
    pub sentinel: String,
    /// The name of the group whose master is tracked.
    pub group: String,
    /// The number of whole seconds that the poller sleeps after each query.
    pub poll_interval_secs: u64,
}

/// The mathematical value of a [`Config`].
pub struct ConfigView {
    pub sentinel: Seq<char>,
    pub group: Seq<char>,
    pub poll_interval_secs: nat,
}

impl View for Config {
    type V = ConfigView;

    open spec fn view(&self) -> ConfigView {
        ConfigView {
            sentinel: self.sentinel@,
            group: self.group@,
            poll_interval_secs: self.poll_interval_secs as nat,
        }
    }
}

/// Why the arguments of the process are refused.
#[derive(Clone, Copy, Debug, PartialEq, Eq, Structural)]
pub enum ConfigError {
    /// There are `found` arguments, the program's name included, and not
    /// four.
    WrongArguments { found: usize },
    /// The poll interval is no number of seconds.
    Interval(NumberError),
}

/// The settings that the arguments of the process stand for.
///
/// The arguments are the program's name, the sentinels' `host:port`, the
/// name of the group and the poll interval in whole seconds: four in all.
pub open spec fn config_of(args: Seq<Seq<char>>) -> Result<ConfigView, ConfigError> {
    if args.len() != 4 {
        Err(ConfigError::WrongArguments { found: args.len() as usize })
    } else {
        match parse_decimal(args[3], u64::MAX as nat) {
            Ok(seconds) => Ok(
                ConfigView { sentinel: args[1], group: args[2], poll_interval_secs: seconds },
            ),
            Err(error) => Err(ConfigError::Interval(error)),
        }
    }
}

impl Config {
    /// Reads the arguments of the process, the program's name first.
    pub fn from_args(args: &Vec<String>) -> (config: Result<Config, ConfigError>)
        ensures
            match config_of(views(args@)) {
                Ok(expected) => config matches Ok(read) && read@ == expected,
                Err(error) => config == Err::<Config, ConfigError>(error),
            },
            args.len() != 4 ==> config is Err,
    {
        if args.len() != 4 {
            return Err(ConfigError::WrongArguments { found: args.len() });
        }
        assert(views(args@)[1] == args[1]@ && views(args@)[2] == args[2]@ && views(args@)[3]
            == args[3]@);
        match parse_unsigned(args[3].as_str(), u64::MAX) {
            Ok(seconds) => Ok(
                Config {
                    sentinel: args[1].clone(),
                    group: args[2].clone(),
                    poll_interval_secs: seconds,
                },
            ),
            Err(error) => Err(ConfigError::Interval(error)),
        }
    }

    /// The address under which a client reaches the sentinels.
    pub fn sentinel_url(&self) -> (url: String)
        ensures
            url@ == "redis://"@ + self@.sentinel + "/"@,
    {
        String::from_str("redis://").concat(self.sentinel.as_str()).concat("/")
    }
}

} // verus!
