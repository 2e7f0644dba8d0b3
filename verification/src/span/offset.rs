use core::cmp::Ordering;
use core::ops::Add;
use core::ops::AddAssign;
use core::ops::Deref;
use core::ops::Sub;
use core::ops::SubAssign;

use vstd::pervasive::unreached;
use vstd::prelude::*;
use vstd::std_specs::cmp::PartialOrdSpecImpl;
use vstd::std_specs::convert::FromSpecImpl;
use vstd::std_specs::ops::AddSpecImpl;
use vstd::std_specs::ops::SubSpecImpl;

use crate::digits::decimal;
use crate::digits::push_decimal;
use crate::span::Size;

verus! {

/// A position in a file or a buffer, counted in bytes.
///
/// A position moves by a [`Size`], and two positions are a `Size` apart. No
/// position lies before zero or beyond `u64::MAX`: verified callers show
/// that the outcome is in that range, and for any other caller the operation
/// panics where it is not.
#[derive(Debug, Clone, Copy, PartialEq, Eq, Ord, Structural)]
pub struct Offset(pub u64);

impl Offset {
    /// The position as text: `Offset(42)`.
    pub fn to_string(&self) -> (s: String)
        ensures
            s@ == "Offset("@ + decimal(self.0 as nat) + ")"@,
    {
        let mut s = "Offset(".to_owned();
        push_decimal(&mut s, self.0);
        s.append(")");
        s
    }
}

/// Offsets are in the order of their numbers.
impl PartialOrd for Offset {
    fn partial_cmp(&self, other: &Self) -> (r: Option<Ordering>) {
        if self.0 < other.0 {
            Some(Ordering::Less)
        } else if self.0 == other.0 {
            Some(Ordering::Equal)
        } else {
            Some(Ordering::Greater)
        }
    }
}

impl PartialOrdSpecImpl for Offset {
    open spec fn obeys_partial_cmp_spec() -> bool {
        true
    }

    open spec fn partial_cmp_spec(&self, other: &Self) -> Option<Ordering> {
        if self.0 < other.0 {
            Some(Ordering::Less)
        } else if self.0 == other.0 {
            Some(Ordering::Equal)
        } else {
            Some(Ordering::Greater)
        }
    }
}

impl Default for Offset {
    fn default() -> (r: Self)
        ensures
            r == Offset(0),
    {
        Offset(0)
    }
}

impl From<u64> for Offset {
    fn from(v: u64) -> (r: Self) {
        Offset(v)
    }
}

impl FromSpecImpl<u64> for Offset {
    open spec fn obeys_from_spec() -> bool {
        true
    }

    open spec fn from_spec(v: u64) -> Self {
        Offset(v)
    }
}

impl Add<Size> for Offset {
    type Output = Offset;

    fn add(self, rhs: Size) -> (r: Offset) {
        match self.0.checked_add(rhs.0) {
            Some(v) => Offset(v),
            None => unreached(),
        }
    }
}

impl AddSpecImpl<Size> for Offset {
    open spec fn obeys_add_spec() -> bool {
        true
    }

    open spec fn add_req(self, rhs: Size) -> bool {
        self.0 + rhs.0 <= u64::MAX
    }

    open spec fn add_spec(self, rhs: Size) -> Offset {
        Offset((self.0 + rhs.0) as u64)
    }
}

impl AddAssign<Size> for Offset {
    fn add_assign(&mut self, rhs: Size)
        requires
            old(self).0 + rhs.0 <= u64::MAX,
        ensures
            final(self).0 == old(self).0 + rhs.0,
    {
        match self.0.checked_add(rhs.0) {
            Some(v) => {
                *self = Offset(v);
            },
            None => unreached(),
        }
    }
}

impl Sub<Size> for Offset {
    type Output = Offset;

    fn sub(self, rhs: Size) -> (r: Offset) {
        match self.0.checked_sub(rhs.0) {
            Some(v) => Offset(v),
            None => unreached(),
        }
    }
}

impl SubSpecImpl<Size> for Offset {
    open spec fn obeys_sub_spec() -> bool {
        true
    }

    open spec fn sub_req(self, rhs: Size) -> bool {
        rhs.0 <= self.0
    }

    open spec fn sub_spec(self, rhs: Size) -> Offset {
        Offset((self.0 - rhs.0) as u64)
    }
}

impl SubAssign<Size> for Offset {
    fn sub_assign(&mut self, rhs: Size)
        requires
            rhs.0 <= old(self).0,
        ensures
            final(self).0 == old(self).0 - rhs.0,
    {
        match self.0.checked_sub(rhs.0) {
            Some(v) => {
                *self = Offset(v);
            },
            None => unreached(),
        }
    }
}

impl Sub for Offset {
    type Output = Size;

    fn sub(self, rhs: Offset) -> (r: Size) {
        match self.0.checked_sub(rhs.0) {
            Some(v) => Size(v),
            None => unreached(),
        }
    }
}

impl SubSpecImpl for Offset {
    open spec fn obeys_sub_spec() -> bool {
        true
    }

    open spec fn sub_req(self, rhs: Offset) -> bool {
        rhs.0 <= self.0
    }

    open spec fn sub_spec(self, rhs: Offset) -> Size {
        Size((self.0 - rhs.0) as u64)
    }
}

impl Deref for Offset {
    type Target = u64;

    fn deref(&self) -> (r: &u64)
        ensures
            *r == self.0,
    {
        &self.0
    }
}

} // verus!
