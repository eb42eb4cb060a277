//! The time unit of the timestamps that a payload carries.

use vstd::prelude::*;
use vstd::string::StringExecFns;

verus! {

/// The unit in which the timestamps of a payload are written.
#[derive(Debug, Clone, Copy, PartialEq, Eq, Structural)]
pub enum Precision {
    /// Milliseconds.
    MS,
    /// Seconds.
    S,
    /// Microseconds.
    US,
    /// Nanoseconds, which the database assumes when it is told nothing.
    NS,
}

impl Precision {
    /// The short code by which the database knows this unit.
    pub open spec fn code(self) -> Seq<char> {
        match self {
            Precision::MS => "ms"@,
            Precision::S => "s"@,
            Precision::US => "us"@,
            Precision::NS => "ns"@,
        }
    }

    /// Whether this is the unit that needs no mention in a request.
    pub open spec fn is_default(self) -> bool {
        self == Precision::NS
    }

    /// The short code as text.
    pub fn to_string(&self) -> (code: String)
        ensures
            code@ == self.code(),
    {
        match self {
            Precision::MS => String::from_str("ms"),
            Precision::S => String::from_str("s"),
            Precision::US => String::from_str("us"),
            Precision::NS => String::from_str("ns"),
        }
    }
}

impl Default for Precision {
    fn default() -> (precision: Self)
        ensures
            precision == Precision::NS,
    {
        Precision::NS
    }
}

} // verus!
