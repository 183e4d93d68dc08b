//! Interface types of the native backend.
//!
//! The object builder drives the downstream code generator as a black box;
//! the one knob the core exposes is the optimization preset.

use vstd::prelude::*;

verus! {

/// Optimization levels (O0 to O3).
#[derive(Clone, Copy, Debug, Eq, Hash, PartialEq, Structural)]
pub enum OptLevel {
    Off,
    Less,
    Default,
    Aggressive,
}

impl Default for OptLevel {
    /// The default preset is the default preset (O2).
    fn default() -> (r: Self)
        ensures
            r == OptLevel::Default,
    {
        OptLevel::Default
    }
}

/// The numeric preset each level denotes.
pub open spec fn spec_opt_level_ordinal(level: OptLevel) -> usize {
    match level {
        OptLevel::Off => 0,
        OptLevel::Less => 1,
        OptLevel::Default => 2,
        OptLevel::Aggressive => 3,
    }
}

/// The level a numeric preset denotes; everything above 3 clamps to O3.
pub open spec fn spec_opt_level_of(value: int) -> OptLevel {
    if value == 0 {
        OptLevel::Off
    } else if value == 1 {
        OptLevel::Less
    } else if value == 2 {
        OptLevel::Default
    } else {
        OptLevel::Aggressive
    }
}

impl From<usize> for OptLevel {
    fn from(value: usize) -> (r: Self) {
        match value {
            0 => OptLevel::Off,
            1 => OptLevel::Less,
            2 => OptLevel::Default,
            _ => OptLevel::Aggressive,
        }
    }
}

impl vstd::std_specs::convert::FromSpecImpl<usize> for OptLevel {
    open spec fn obeys_from_spec() -> bool {
        true
    }

    open spec fn from_spec(value: usize) -> OptLevel {
        spec_opt_level_of(value as int)
    }
}

impl From<u8> for OptLevel {
    fn from(value: u8) -> (r: Self) {
        match value {
            0 => OptLevel::Off,
            1 => OptLevel::Less,
            2 => OptLevel::Default,
            _ => OptLevel::Aggressive,
        }
    }
}

impl vstd::std_specs::convert::FromSpecImpl<u8> for OptLevel {
    open spec fn obeys_from_spec() -> bool {
        true
    }

    open spec fn from_spec(value: u8) -> OptLevel {
        spec_opt_level_of(value as int)
    }
}

impl From<OptLevel> for usize {
    fn from(val: OptLevel) -> (r: usize) {
        match val {
            OptLevel::Off => 0,
            OptLevel::Less => 1,
            OptLevel::Default => 2,
            OptLevel::Aggressive => 3,
        }
    }
}

impl vstd::std_specs::convert::FromSpecImpl<OptLevel> for usize {
    open spec fn obeys_from_spec() -> bool {
        true
    }

    open spec fn from_spec(val: OptLevel) -> usize {
        spec_opt_level_ordinal(val)
    }
}

} // verus!
