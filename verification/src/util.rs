//! Small helpers shared by the views and the log records.

use vstd::prelude::*;

verus! {

/// A flag as the status view shows it: `Y` or `N`.
#[derive(Copy, Clone, Eq, PartialEq, Structural, Ord, PartialOrd, Hash, Debug)]
pub struct DisplayBool(pub bool);

impl Default for DisplayBool {
    fn default() -> (d: DisplayBool)
        ensures
            d == DisplayBool(false),
    {
        DisplayBool(false)
    }
}

impl DisplayBool {
    /// The letter that stands for the flag.
    pub open spec fn text_spec(self) -> Seq<char> {
        if self.0 {
            seq!['Y']
        } else {
            seq!['N']
        }
    }

    pub fn text(&self) -> (s: &'static str)
        ensures
            s@ == self.text_spec(),
    {
        proof {
            reveal_strlit("Y");
            reveal_strlit("N");
        }
        if self.0 {
            "Y"
        } else {
            "N"
        }
    }
}

impl From<bool> for DisplayBool {
    fn from(b: bool) -> (d: DisplayBool) {
        DisplayBool(b)
    }
}

impl vstd::std_specs::convert::FromSpecImpl<bool> for DisplayBool {
    open spec fn obeys_from_spec() -> bool {
        true
    }

    open spec fn from_spec(b: bool) -> DisplayBool {
        DisplayBool(b)
    }
}

impl From<DisplayBool> for bool {
    fn from(d: DisplayBool) -> (b: bool) {
        d.0
    }
}

impl vstd::std_specs::convert::FromSpecImpl<DisplayBool> for bool {
    open spec fn obeys_from_spec() -> bool {
        true
    }

    open spec fn from_spec(d: DisplayBool) -> bool {
        d.0
    }
}

/// Degrees Fahrenheit, in thousandths, of a temperature given in hundredths
/// of a degree Celsius: `F = C * 1.8 + 32`, exactly.
pub open spec fn fahrenheit(centi_celsius: int) -> int {
    centi_celsius * 18 + 32_000
}

/// Convert degrees celsius (°C), in hundredths, to fahrenheit (°F), in
/// thousandths.
pub fn celsius_to_fahrenheit(centi_celsius: i16) -> (milli_fahrenheit: i32)
    ensures
        milli_fahrenheit == fahrenheit(centi_celsius as int),
{
    (centi_celsius as i32) * 18 + 32_000
}

} // verus!
