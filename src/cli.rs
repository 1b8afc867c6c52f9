//! Command-line options and the checks on their time flags.
use vstd::prelude::*;

verus! {

/// Options of the command-line program.
pub struct MainCli {
    /// Path to the input JSON file, or a solution JSON file for warm starting.
    pub input: String,
    /// Global time limit in seconds (excludes the two phase limits).
    pub global_time: Option<u64>,
    /// Exploration time limit in seconds (needs the compression limit).
    pub exploration: Option<u64>,
    /// Compression time limit in seconds (needs the exploration limit).
    pub compression: Option<u64>,
    /// Early and automatic termination.
    pub early_termination: bool,
    /// Fixed seed for the random number generator.
    pub rng_seed: Option<u64>,
    /// Symmetric packing: items are mirrored around the strip's centre.
    pub symmetric: bool,
}

#[derive(Clone, Copy, Debug, PartialEq, Eq, Structural)]
pub enum TimeLimits {
    /// No time flag was given.
    Unspecified,
    Global(u64),
    Phased { exploration: u64, compression: u64 },
}

#[derive(Clone, Copy, Debug, PartialEq, Eq, Structural)]
pub enum CliError {
    /// A global time limit together with a phase limit.
    ConflictingTimeFlags,
    /// One phase limit without the other.
    MissingPartnerFlag,
}

impl MainCli {
    /// The time limits the flags ask for, or why they cannot stand together.
    pub fn time_limits(&self) -> (r: Result<TimeLimits, CliError>)
        ensures
            (self.global_time.is_some() && (self.exploration.is_some() || self.compression.is_some()))
                ==> r == Err::<TimeLimits, CliError>(CliError::ConflictingTimeFlags),
            (self.global_time.is_none() && self.exploration.is_some() != self.compression.is_some())
                ==> r == Err::<TimeLimits, CliError>(CliError::MissingPartnerFlag),
            (self.exploration.is_none() && self.compression.is_none()) ==> r == Ok::<TimeLimits, CliError>(
                match self.global_time {
                    Some(t) => TimeLimits::Global(t),
                    None => TimeLimits::Unspecified,
                },
            ),
            (self.global_time.is_none() && self.exploration.is_some() && self.compression.is_some())
                ==> r == Ok::<TimeLimits, CliError>(
                (TimeLimits::Phased {
                    exploration: self.exploration.unwrap(),
                    compression: self.compression.unwrap(),
                }),
            ),
    {
        match (self.global_time, self.exploration, self.compression) {
            (Some(t), None, None) => Ok(TimeLimits::Global(t)),
            (Some(_), _, _) => Err(CliError::ConflictingTimeFlags),
            (None, Some(e), Some(c)) => Ok(TimeLimits::Phased { exploration: e, compression: c }),
            (None, None, None) => Ok(TimeLimits::Unspecified),
            (None, _, _) => Err(CliError::MissingPartnerFlag),
        }
    }
}

} // verus!
