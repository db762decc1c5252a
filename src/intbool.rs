//! An integer that the service uses as a boolean.
use vstd::prelude::*;

verus! {

/// Acts as an integer on the wire, but reads as a boolean.
///
/// Some fields are sent as integers whose value is always boolean; this type
/// keeps the integer as it was received while converting to and from both
/// `isize` and `bool`. Zero is `false`, anything else is `true`.
#[derive(Debug, Clone, Copy)]
pub struct IntBool(pub isize);

impl IntBool {
    /// The boolean that this value stands for.
    pub open spec fn truth(self) -> bool {
        self.0 != 0
    }

    /// The integer sent for a boolean.
    pub open spec fn int_of(b: bool) -> isize {
        if b {
            1
        } else {
            0
        }
    }

    /// The boolean that this value stands for.
    pub fn as_bool(&self) -> (r: bool)
        ensures
            r == self.truth(),
    {
        self.0 != 0
    }
}

impl Default for IntBool {
    fn default() -> (r: IntBool)
        ensures
            r.0 == 0,
    {
        IntBool(0)
    }
}

impl From<bool> for IntBool {
    fn from(v: bool) -> (r: IntBool) {
        IntBool(if v { 1 } else { 0 })
    }
}

impl vstd::std_specs::convert::FromSpecImpl<bool> for IntBool {
    open spec fn obeys_from_spec() -> bool {
        true
    }

    open spec fn from_spec(v: bool) -> IntBool {
        IntBool(IntBool::int_of(v))
    }
}

impl From<isize> for IntBool {
    fn from(v: isize) -> (r: IntBool) {
        IntBool(v)
    }
}

impl vstd::std_specs::convert::FromSpecImpl<isize> for IntBool {
    open spec fn obeys_from_spec() -> bool {
        true
    }

    open spec fn from_spec(v: isize) -> IntBool {
        IntBool(v)
    }
}

impl From<IntBool> for bool {
    fn from(v: IntBool) -> (r: bool) {
        v.0 != 0
    }
}

impl vstd::std_specs::convert::FromSpecImpl<IntBool> for bool {
    open spec fn obeys_from_spec() -> bool {
        true
    }

    open spec fn from_spec(v: IntBool) -> bool {
        v.truth()
    }
}

impl From<IntBool> for isize {
    fn from(v: IntBool) -> (r: isize) {
        v.0
    }
}

impl vstd::std_specs::convert::FromSpecImpl<IntBool> for isize {
    open spec fn obeys_from_spec() -> bool {
        true
    }

    open spec fn from_spec(v: IntBool) -> isize {
        v.0
    }
}

impl PartialEq<bool> for IntBool {
    fn eq(&self, v: &bool) -> (r: bool) {
        IntBool::int_of_exec(*v) == self.0
    }
}

impl vstd::std_specs::cmp::PartialEqSpecImpl<bool> for IntBool {
    open spec fn obeys_eq_spec() -> bool {
        true
    }

    open spec fn eq_spec(&self, v: &bool) -> bool {
        self.0 == IntBool::int_of(*v)
    }
}

impl PartialEq<IntBool> for IntBool {
    fn eq(&self, v: &IntBool) -> (r: bool) {
        v.0 == self.0
    }
}

impl vstd::std_specs::cmp::PartialEqSpecImpl<IntBool> for IntBool {
    open spec fn obeys_eq_spec() -> bool {
        true
    }

    open spec fn eq_spec(&self, v: &IntBool) -> bool {
        self.0 == v.0
    }
}

impl PartialEq<isize> for IntBool {
    fn eq(&self, v: &isize) -> (r: bool) {
        *v == self.0
    }
}

impl vstd::std_specs::cmp::PartialEqSpecImpl<isize> for IntBool {
    open spec fn obeys_eq_spec() -> bool {
        true
    }

    open spec fn eq_spec(&self, v: &isize) -> bool {
        self.0 == *v
    }
}

impl core::ops::Not for IntBool {
    type Output = bool;

    fn not(self) -> (r: bool) {
        self.0 == 0
    }
}

impl vstd::std_specs::ops::NotSpecImpl for IntBool {
    open spec fn obeys_not_spec() -> bool {
        true
    }

    open spec fn not_req(self) -> bool {
        true
    }

    open spec fn not_spec(self) -> bool {
        !self.truth()
    }
}

impl IntBool {
    fn int_of_exec(b: bool) -> (r: isize)
        ensures
            r == IntBool::int_of(b),
    {
        if b {
            1
        } else {
            0
        }
    }
}

} // verus!
