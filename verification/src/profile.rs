//! The synthetic workload profiles that the harness can run.

use vstd::prelude::*;
use crate::text::text_is;

verus! {

/// A synthetic workload shape.
#[derive(Clone, Copy, Debug, PartialEq, Eq, Structural)]
pub enum Profile {
    /// Steady moderate queue and execution work.
    Baseline,
    /// CPU-bound pressure that exposes scheduling jitter.
    CpuSaturation,
    /// Bounded file writes while recording results.
    IoStall,
    /// Bursty temporary allocations while building batches.
    AllocatorPressure,
}

/// The name under which a profile is selected and reported.
pub open spec fn profile_name(profile: Profile) -> Seq<char> {
    match profile {
        Profile::Baseline => "baseline"@,
        Profile::CpuSaturation => "cpu_saturation"@,
        Profile::IoStall => "io_stall"@,
        Profile::AllocatorPressure => "allocator_pressure"@,
    }
}

/// The profile selected by `name`, if any.
pub open spec fn profile_named(name: Seq<char>) -> Option<Profile> {
    if name == "baseline"@ {
        Some(Profile::Baseline)
    } else if name == "cpu_saturation"@ {
        Some(Profile::CpuSaturation)
    } else if name == "io_stall"@ {
        Some(Profile::IoStall)
    } else if name == "allocator_pressure"@ {
        Some(Profile::AllocatorPressure)
    } else {
        None
    }
}

/// How many batches a profile runs when no count is given.
pub open spec fn iterations_for(profile: Profile) -> u64 {
    match profile {
        Profile::Baseline => 200,
        Profile::CpuSaturation => 200,
        Profile::IoStall => 120,
        Profile::AllocatorPressure => 160,
    }
}

/// How many items each batch of a profile holds.
pub open spec fn batch_size_for(profile: Profile) -> usize {
    match profile {
        Profile::Baseline => 128,
        Profile::CpuSaturation => 128,
        Profile::IoStall => 96,
        Profile::AllocatorPressure => 192,
    }
}

/// A profile name that names no profile.
#[derive(Debug)]
pub struct UnknownProfile {
    pub name: String,
}

impl Profile {
    /// Selects the profile called `value`.
    pub fn parse(value: &str) -> (result: Result<Profile, UnknownProfile>)
        ensures
            match result {
                Ok(profile) => profile_named(value@) == Some(profile),
                Err(error) => profile_named(value@) is None && error.name@ == value@,
            },
    {
        if text_is(value, "baseline") {
            Ok(Profile::Baseline)
        } else if text_is(value, "cpu_saturation") {
            Ok(Profile::CpuSaturation)
        } else if text_is(value, "io_stall") {
            Ok(Profile::IoStall)
        } else if text_is(value, "allocator_pressure") {
            Ok(Profile::AllocatorPressure)
        } else {
            Err(UnknownProfile { name: value.to_owned() })
        }
    }

    /// The profile's name.
    pub fn as_str(self) -> (name: &'static str)
        ensures
            name@ == profile_name(self),
    {
        match self {
            Profile::Baseline => "baseline",
            Profile::CpuSaturation => "cpu_saturation",
            Profile::IoStall => "io_stall",
            Profile::AllocatorPressure => "allocator_pressure",
        }
    }

    /// How many batches the profile runs when no count is given.
    pub fn default_iterations(self) -> (iterations: u64)
        ensures
            iterations == iterations_for(self),
    {
        match self {
            Profile::Baseline => 200,
            Profile::CpuSaturation => 200,
            Profile::IoStall => 120,
            Profile::AllocatorPressure => 160,
        }
    }

    /// How many items each batch of the profile holds.
    pub fn batch_size(self) -> (size: usize)
        ensures
            size == batch_size_for(self),
    {
        match self {
            Profile::Baseline => 128,
            Profile::CpuSaturation => 128,
            Profile::IoStall => 96,
            Profile::AllocatorPressure => 192,
        }
    }
}

/// Parsing a profile's own name gives that profile back, so no two profiles
/// share a name.
pub proof fn lemma_name_round_trip(profile: Profile)
    ensures
        profile_named(profile_name(profile)) == Some(profile),
{
    reveal_strlit("baseline");
    reveal_strlit("cpu_saturation");
    reveal_strlit("io_stall");
    reveal_strlit("allocator_pressure");
    match profile {
        Profile::Baseline => {},
        Profile::CpuSaturation => {
            assert("cpu_saturation"@[0] != "baseline"@[0]);
        },
        Profile::IoStall => {
            assert("io_stall"@[0] != "baseline"@[0]);
            assert("io_stall"@[0] != "cpu_saturation"@[0]);
        },
        Profile::AllocatorPressure => {
            assert("allocator_pressure"@[1] != "baseline"@[1]);
            assert("allocator_pressure"@[0] != "cpu_saturation"@[0]);
            assert("allocator_pressure"@[0] != "io_stall"@[0]);
        },
    }
}

} // verus!
