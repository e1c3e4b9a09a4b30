use vstd::prelude::*;

verus! {

/// Number of bytes in the rollover bitmap of a keyboard report: one bit for
/// each of the usages 0 to 223.
pub const NKRO_BYTES: usize = 28;

/// A keyboard report with a bit for every key usage.
#[derive(Clone, Copy, Debug, PartialEq, Eq)]
pub struct KeyboardReportNKRO {
    pub modifier: u8,
    pub nkro_keycodes: [u8; NKRO_BYTES],
}

/// A mouse report.
#[derive(Clone, Copy, Debug, PartialEq, Eq, Structural)]
pub struct MouseReport {
    pub buttons: u8,
    pub x: i8,
    pub y: i8,
    pub wheel: i8,
    pub pan: i8,
}

impl KeyboardReportNKRO {
    /// The report of a keyboard on which nothing is pressed.
    pub fn default() -> (report: Self)
        ensures
            report.modifier == 0,
            report.nkro_keycodes@ == Seq::new(NKRO_BYTES as nat, |i: int| 0u8),
    {
        let report = KeyboardReportNKRO { modifier: 0, nkro_keycodes: [0;NKRO_BYTES] };
        assert(report.nkro_keycodes@ =~= Seq::new(NKRO_BYTES as nat, |i: int| 0u8));
        report
    }

    /// Whether both reports hold the same modifier byte and bitmap.
    pub fn same_as(&self, other: &Self) -> (same: bool)
        ensures
            same == (self.modifier == other.modifier && self.nkro_keycodes@
                == other.nkro_keycodes@),
    {
        if self.modifier != other.modifier {
            return false;
        }
        let mut i: usize = 0;
        while i < NKRO_BYTES
            invariant
                i <= NKRO_BYTES,
                forall|j: int| 0 <= j < i ==> self.nkro_keycodes[j] == other.nkro_keycodes[j],
            decreases NKRO_BYTES - i,
        {
            if self.nkro_keycodes[i] != other.nkro_keycodes[i] {
                return false;
            }
            i += 1;
        }
        assert(self.nkro_keycodes@ =~= other.nkro_keycodes@);
        true
    }
}

impl MouseReport {
    /// The report of a mouse that neither moves nor has a button down.
    pub fn default() -> (report: Self)
        ensures
            report == (MouseReport { buttons: 0, x: 0, y: 0, wheel: 0, pan: 0 }),
    {
        MouseReport { buttons: 0, x: 0, y: 0, wheel: 0, pan: 0 }
    }
}

} // verus!
