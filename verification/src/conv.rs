//! Conversion between enumerated option values and their command-line
//! names.

use vstd::prelude::*;

use crate::error::Error;
use crate::types::{OutputFormat, ResetSettings};

verus! {

/// An enumeration whose values have canonical command-line names.
///
/// `spec_from_str` and `spec_str` fix the meaning; the executable methods
/// are proved against them, so for every implementation parsing a value's
/// canonical name gives that value back.
pub trait ConvertEnum: Sized {
    /// The value a name denotes, if any.
    spec fn spec_from_str(s: Seq<char>) -> Option<Self>;

    /// The canonical name of a value.
    spec fn spec_str(self) -> Seq<char>;

    /// Parses a name; an unrecognized one is an error.
    fn from_str(s: &str) -> (r: Result<Self, Error>)
        ensures
            match Self::spec_from_str(s@) {
                Some(v) => r == Ok::<Self, Error>(v),
                None => r is Err,
            },
    ;

    /// The canonical name of this value.
    fn to_str(&self) -> (r: &'static str)
        ensures
            r@ == self.spec_str(),
    ;

    /// Every recognized name, in declaration order.
    fn possible_values() -> (r: Vec<&'static str>)
        ensures
            forall|i: int|
                0 <= i < r@.len() ==> Self::spec_from_str((#[trigger] r@[i])@) is Some,
    ;

    /// Every value, in declaration order; parsing a listed value's
    /// canonical name gives the value back.
    fn possible_values_typed() -> (r: Vec<Self>)
        ensures
            forall|i: int|
                0 <= i < r@.len() ==> Self::spec_from_str((#[trigger] r@[i]).spec_str()) == Some(
                    r@[i],
                ),
    ;
}

impl ConvertEnum for OutputFormat {
    open spec fn spec_from_str(s: Seq<char>) -> Option<OutputFormat> {
        if s == "human"@ {
            Some(OutputFormat::Human)
        } else if s == "json"@ {
            Some(OutputFormat::Json)
        } else {
            None
        }
    }

    open spec fn spec_str(self) -> Seq<char> {
        match self {
            OutputFormat::Human => "human"@,
            OutputFormat::Json => "json"@,
        }
    }

    fn from_str(s: &str) -> (r: Result<OutputFormat, Error>) {
        if s.eq("human") {
            Ok(OutputFormat::Human)
        } else if s.eq("json") {
            Ok(OutputFormat::Json)
        } else {
            Err(Error::Str("unknown output format"))
        }
    }

    fn to_str(&self) -> (r: &'static str) {
        match *self {
            OutputFormat::Human => "human",
            OutputFormat::Json => "json",
        }
    }

    fn possible_values() -> (r: Vec<&'static str>) {
        let mut v: Vec<&'static str> = Vec::new();
        v.push("human");
        v.push("json");
        v
    }

    fn possible_values_typed() -> (r: Vec<OutputFormat>) {
        let mut v: Vec<OutputFormat> = Vec::new();
        v.push(OutputFormat::Human);
        v.push(OutputFormat::Json);
        proof {
            reveal_strlit("human");
            reveal_strlit("json");
            assert("human"@.len() == 5);
            assert("json"@.len() == 4);
            assert(v@[0] == OutputFormat::Human);
            assert(v@[1] == OutputFormat::Json);
            assert(OutputFormat::spec_from_str(OutputFormat::Human.spec_str()) == Some(
                OutputFormat::Human,
            ));
            assert(OutputFormat::spec_from_str(OutputFormat::Json.spec_str()) == Some(
                OutputFormat::Json,
            ));
        }
        v
    }
}

impl ConvertEnum for ResetSettings {
    open spec fn spec_from_str(s: Seq<char>) -> Option<ResetSettings> {
        if s == "voltage-boost"@ {
            Some(ResetSettings::VoltageBoost)
        } else if s == "thermal"@ {
            Some(ResetSettings::SensorLimits)
        } else if s == "power"@ {
            Some(ResetSettings::PowerLimits)
        } else if s == "cooler"@ {
            Some(ResetSettings::CoolerLevels)
        } else if s == "vfp"@ {
            Some(ResetSettings::VfpDeltas)
        } else if s == "lock"@ {
            Some(ResetSettings::VfpLock)
        } else if s == "pstate"@ {
            Some(ResetSettings::PStateDeltas)
        } else if s == "overvolt"@ {
            Some(ResetSettings::Overvolt)
        } else {
            None
        }
    }

    open spec fn spec_str(self) -> Seq<char> {
        match self {
            ResetSettings::VoltageBoost => "voltage-boost"@,
            ResetSettings::SensorLimits => "thermal"@,
            ResetSettings::PowerLimits => "power"@,
            ResetSettings::CoolerLevels => "cooler"@,
            ResetSettings::VfpDeltas => "vfp"@,
            ResetSettings::VfpLock => "lock"@,
            ResetSettings::PStateDeltas => "pstate"@,
            ResetSettings::Overvolt => "overvolt"@,
        }
    }

    fn from_str(s: &str) -> (r: Result<ResetSettings, Error>) {
        if s.eq("voltage-boost") {
            Ok(ResetSettings::VoltageBoost)
        } else if s.eq("thermal") {
            Ok(ResetSettings::SensorLimits)
        } else if s.eq("power") {
            Ok(ResetSettings::PowerLimits)
        } else if s.eq("cooler") {
            Ok(ResetSettings::CoolerLevels)
        } else if s.eq("vfp") {
            Ok(ResetSettings::VfpDeltas)
        } else if s.eq("lock") {
            Ok(ResetSettings::VfpLock)
        } else if s.eq("pstate") {
            Ok(ResetSettings::PStateDeltas)
        } else if s.eq("overvolt") {
            Ok(ResetSettings::Overvolt)
        } else {
            Err(Error::Str("unknown setting"))
        }
    }

    fn to_str(&self) -> (r: &'static str) {
        match *self {
            ResetSettings::VoltageBoost => "voltage-boost",
            ResetSettings::SensorLimits => "thermal",
            ResetSettings::PowerLimits => "power",
            ResetSettings::CoolerLevels => "cooler",
            ResetSettings::VfpDeltas => "vfp",
            ResetSettings::VfpLock => "lock",
            ResetSettings::PStateDeltas => "pstate",
            ResetSettings::Overvolt => "overvolt",
        }
    }

    fn possible_values() -> (r: Vec<&'static str>) {
        let mut v: Vec<&'static str> = Vec::new();
        v.push("voltage-boost");
        v.push("thermal");
        v.push("power");
        v.push("cooler");
        v.push("vfp");
        v.push("lock");
        v.push("pstate");
        v.push("overvolt");
        v
    }

    fn possible_values_typed() -> (r: Vec<ResetSettings>) {
        let mut v: Vec<ResetSettings> = Vec::new();
        v.push(ResetSettings::VoltageBoost);
        v.push(ResetSettings::SensorLimits);
        v.push(ResetSettings::PowerLimits);
        v.push(ResetSettings::CoolerLevels);
        v.push(ResetSettings::VfpDeltas);
        v.push(ResetSettings::VfpLock);
        v.push(ResetSettings::PStateDeltas);
        v.push(ResetSettings::Overvolt);
        proof {
            assert forall|i: int|
                0 <= i < v@.len() implies ResetSettings::spec_from_str(
                (#[trigger] v@[i]).spec_str(),
            ) == Some(v@[i]) by {
                reveal_strlit("voltage-boost");
                reveal_strlit("thermal");
                reveal_strlit("power");
                reveal_strlit("cooler");
                reveal_strlit("vfp");
                reveal_strlit("lock");
                reveal_strlit("pstate");
                reveal_strlit("overvolt");
                assert("voltage-boost"@.len() == 13);
                assert("thermal"@.len() == 7);
                assert("power"@.len() == 5);
                assert("cooler"@.len() == 6);
                assert("vfp"@.len() == 3);
                assert("lock"@.len() == 4);
                assert("pstate"@.len() == 6);
                assert("overvolt"@.len() == 8);
                assert("cooler"@[0] == 'c');
                assert("pstate"@[0] == 'p');
                assert(v@[0] == ResetSettings::VoltageBoost);
                assert(v@[1] == ResetSettings::SensorLimits);
                assert(v@[2] == ResetSettings::PowerLimits);
                assert(v@[3] == ResetSettings::CoolerLevels);
                assert(v@[4] == ResetSettings::VfpDeltas);
                assert(v@[5] == ResetSettings::VfpLock);
                assert(v@[6] == ResetSettings::PStateDeltas);
                assert(v@[7] == ResetSettings::Overvolt);
            }
        }
        v
    }
}

} // verus!
