use vstd::prelude::*;

verus! {

/// Local wall-clock time as eight unsigned 16-bit fields, in the order the
/// format stores them. No range validation is done: out-of-range values
/// round-trip faithfully.
#[derive(Debug, Clone, Copy, PartialEq, Eq, Structural)]
pub struct SysTime {
    pub year: u16,
    pub month: u16,
    pub weekday: u16,
    pub day: u16,
    pub hour: u16,
    pub minute: u16,
    pub seconds: u16,
    pub milliseconds: u16,
}

} // verus!
