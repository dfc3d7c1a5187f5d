//! The command line of the converter.
use vstd::prelude::*;
use vstd::string::*;

verus! {

/// What the converter is asked to do: read `input`, write `output`, with
/// the departure and destination airports given as `ICAO` or `ICAO/RUNWAY`.
pub struct Config {
    pub input: String,
    pub output: String,
    pub departure: Option<String>,
    pub destination: Option<String>,
}

/// Why a command line was refused.
#[derive(PartialEq, Eq, Structural, Clone, Copy, Debug)]
pub enum ConfigError {
    /// No input file was given.
    MissingInput,
    /// No output file was given.
    MissingOutput,
}

impl ConfigError {
    /// The message for this error.
    pub fn message(&self) -> (m: String)
        ensures
            m@ == match self {
                ConfigError::MissingInput => "Didn't get an input file"@,
                ConfigError::MissingOutput => "Didn't get a destination directory"@,
            },
    {
        match self {
            ConfigError::MissingInput => String::from_str("Didn't get an input file"),
            ConfigError::MissingOutput => String::from_str("Didn't get a destination directory"),
        }
    }
}

/// The argument at `i`, if there is one.
pub open spec fn arg_at(args: Seq<String>, i: int) -> Option<String> {
    if i < args.len() {
        Some(args[i])
    } else {
        None
    }
}

impl Config {
    /// Reads a command line whose first argument is the program's name:
    /// then the input file, the output file, and optionally the departure
    /// and the destination airport. Further arguments are ignored.
    pub fn build(args: Vec<String>) -> (r: Result<Config, ConfigError>)
        ensures
            args@.len() < 2 ==> r == Err::<Config, ConfigError>(ConfigError::MissingInput),
            args@.len() == 2 ==> r == Err::<Config, ConfigError>(ConfigError::MissingOutput),
            args@.len() > 2 ==> (r matches Ok(c) && c.input == args@[1] && c.output == args@[2]
                && c.departure == arg_at(args@, 3) && c.destination == arg_at(args@, 4)),
    {
        if args.len() < 2 {
            return Err(ConfigError::MissingInput);
        }
        if args.len() < 3 {
            return Err(ConfigError::MissingOutput);
        }
        let input = args[1].clone();
        let output = args[2].clone();
        let departure = if args.len() > 3 {
            Some(args[3].clone())
        } else {
            None
        };
        let destination = if args.len() > 4 {
            Some(args[4].clone())
        } else {
            None
        };
        Ok(Config { input, output, departure, destination })
    }
}

} // verus!
