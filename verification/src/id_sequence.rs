//! The per-connection source of correlation identifiers.

use vstd::prelude::*;

verus! {

/// The identifier that follows `v`: one more, wrapping at the bit width.
pub open spec fn wrapping_next(v: u32) -> u32 {
    if v == u32::MAX {
        0
    } else {
        (v + 1) as u32
    }
}

/// Produces monotonically increasing sequence ids for frames this side
/// initiates. The counter wraps at its bit width, so ids are unique only
/// within one wrap period.
pub struct IdSequence {
    value: u32,
}

impl IdSequence {
    /// The last identifier handed out, or 0 if none was yet.
    pub closed spec fn spec_value(&self) -> u32 {
        self.value
    }

    pub fn new() -> (s: Self)
        ensures
            s.spec_value() == 0,
    {
        IdSequence { value: 0 }
    }

    /// Hands out the next identifier.
    pub fn next(&mut self) -> (id: u32)
        ensures
            final(self).spec_value() == wrapping_next(old(self).spec_value()),
            id == final(self).spec_value(),
    {
        if self.value == u32::MAX {
            self.value = 0;
        } else {
            self.value = self.value + 1;
        }
        self.value
    }
}

impl Default for IdSequence {
    fn default() -> (s: Self)
        ensures
            s.spec_value() == 0,
    {
        IdSequence { value: 0 }
    }
}

} // verus!
