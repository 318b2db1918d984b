//! Plain configuration and reporting types consumed at the program
//! boundary, and small helpers shared by the command-line front end.

use vstd::prelude::*;

verus! {

/// Relies on `str`'s `PartialEq` implementation: two string slices are
/// equal exactly when their character sequences are.
pub assume_specification[ <str as PartialEq>::eq ](s: &str, other: &str) -> (r: bool)
    ensures
        r == (s@ == other@),
;

/// Description of one detected device, as reported by the `list` command.
#[derive(Clone, Debug)]
pub struct GpuDescriptor {
    /// The device's full marketing name.
    pub name: String,
}

/// How structured command output is rendered.
#[derive(Clone, Copy, Debug, PartialEq, Eq, Structural)]
pub enum OutputFormat {
    /// Tables and labelled lines for people.
    Human,
    /// Machine-readable output.
    Json,
}

/// Which overclocking setting a `reset` command restores.
#[derive(Clone, Copy, Debug, PartialEq, Eq, Structural)]
pub enum ResetSettings {
    /// Core-voltage boost percentage.
    VoltageBoost,
    /// Thermal sensor limits.
    SensorLimits,
    /// Power limits.
    PowerLimits,
    /// Cooler duty-cycle overrides.
    CoolerLevels,
    /// Voltage/frequency curve offsets.
    VfpDeltas,
    /// Voltage/frequency curve lock.
    VfpLock,
    /// Performance-state clock offsets.
    PStateDeltas,
    /// Overvoltage settings.
    Overvolt,
}

/// Name of the boolean flag value that disables a display section.
pub const POSSIBLE_BOOL_OFF: &'static str = "off";

/// Name of the boolean flag value that enables a display section.
pub const POSSIBLE_BOOL_ON: &'static str = "on";

/// The boolean a flag's parsed occurrence shape denotes, if any.
///
/// A flag given once with exactly one value is an enablement regardless of
/// the value (the value is then the built-in default); a flag whose value
/// was supplied explicitly (no occurrence with one value, or one occurrence
/// with two values) means what the value names.  Any other shape, and any
/// value other than the two names, denotes nothing.
pub open spec fn spec_parse_bool(
    occurrences: u64,
    value_count: u64,
    value: Option<Seq<char>>,
) -> Option<bool> {
    if value is None {
        None
    } else if occurrences == 1 && value_count == 1 {
        Some(true)
    } else if (occurrences == 0 && value_count == 1) || (occurrences == 1 && value_count == 2) {
        let v = value->0;
        if v == "on"@ {
            Some(true)
        } else if v == "off"@ {
            Some(false)
        } else {
            None
        }
    } else {
        None
    }
}

/// Decides what a boolean flag's occurrence shape denotes; `None` where the
/// shape or the value is unrecognized.  The shape juggling mirrors how the
/// argument parser reports defaulted and explicit values differently.
pub fn parse_bool_value(occurrences: u64, value_count: u64, value: Option<&str>) -> (r: Option<
    bool,
>)
    ensures
        r == spec_parse_bool(
            occurrences,
            value_count,
            match value {
                Some(s) => Some(s@),
                None => None,
            },
        ),
{
    match value {
        None => None,
        Some(v) => {
            if occurrences == 1 && value_count == 1 {
                Some(true)
            } else if (occurrences == 0 && value_count == 1) || (occurrences == 1 && value_count
                == 2) {
                if v.eq("on") {
                    Some(true)
                } else if v.eq("off") {
                    Some(false)
                } else {
                    None
                }
            } else {
                None
            }
        },
    }
}

/// Whether a command-line path argument names the standard stream rather
/// than a file.
pub fn is_std(path: &str) -> (r: bool)
    ensures
        r == (path@ == "-"@),
{
    path.eq("-")
}

/// The placeholder shown where a reading is unavailable.
pub fn n_a() -> (r: String)
    ensures
        r@ == "N/A"@,
{
    "N/A".to_owned()
}

} // verus!
