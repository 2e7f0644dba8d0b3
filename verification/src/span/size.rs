use core::cmp::Ordering;
use core::ops::Add;
use core::ops::AddAssign;
use core::ops::Deref;
use core::ops::Sub;
use core::ops::SubAssign;

use vstd::pervasive::unreached;
use vstd::prelude::*;
use vstd::std_specs::cmp::PartialOrdSpecImpl;
use vstd::std_specs::convert::FromSpecImpl;
use vstd::std_specs::ops::AddSpecImpl;
use vstd::std_specs::ops::SubSpecImpl;

use crate::digits::decimal;
use crate::digits::push_decimal;

verus! {

/// A number of bytes.
///
/// It is a type of its own so that a length is not taken for a position.
/// Sums and differences have to stay within `u64`: verified callers show
/// that they do, and for any other caller the operation panics where they do
/// not.
#[derive(Debug, Clone, Copy, PartialEq, Eq, Ord, Structural)]
pub struct Size(pub u64);

impl Size {
    /// The size as text: `Size(42)`.
    pub fn to_string(&self) -> (s: String)
        ensures
            s@ == "Size("@ + decimal(self.0 as nat) + ")"@,
    {
        let mut s = "Size(".to_owned();
        push_decimal(&mut s, self.0);
        s.append(")");
        s
    }
}

/// Sizes are in the order of their numbers.
impl PartialOrd for Size {
    fn partial_cmp(&self, other: &Self) -> (r: Option<Ordering>) {
        if self.0 < other.0 {
            Some(Ordering::Less)
        } else if self.0 == other.0 {
            Some(Ordering::Equal)
        } else {
            Some(Ordering::Greater)
        }
    }
}

impl PartialOrdSpecImpl for Size {
    open spec fn obeys_partial_cmp_spec() -> bool {
        true
    }

    open spec fn partial_cmp_spec(&self, other: &Self) -> Option<Ordering> {
        if self.0 < other.0 {
            Some(Ordering::Less)
        } else if self.0 == other.0 {
            Some(Ordering::Equal)
        } else {
            Some(Ordering::Greater)
        }
    }
}

impl Default for Size {
    fn default() -> (r: Self)
        ensures
            r == Size(0),
    {
        Size(0)
    }
}

impl From<u64> for Size {
    fn from(v: u64) -> (r: Self) {
        Size(v)
    }
}

impl FromSpecImpl<u64> for Size {
    open spec fn obeys_from_spec() -> bool {
        true
    }

    open spec fn from_spec(v: u64) -> Self {
        Size(v)
    }
}

impl Add for Size {
    type Output = Size;

    fn add(self, rhs: Size) -> (r: Size) {
        match self.0.checked_add(rhs.0) {
            Some(v) => Size(v),
            None => unreached(),
        }
    }
}

impl AddSpecImpl for Size {
    open spec fn obeys_add_spec() -> bool {
        true
    }

    open spec fn add_req(self, rhs: Size) -> bool {
        self.0 + rhs.0 <= u64::MAX
    }

    open spec fn add_spec(self, rhs: Size) -> Size {
        Size((self.0 + rhs.0) as u64)
    }
}

impl Sub for Size {
    type Output = Size;

    fn sub(self, rhs: Size) -> (r: Size) {
        match self.0.checked_sub(rhs.0) {
            Some(v) => Size(v),
            None => unreached(),
        }
    }
}

impl SubSpecImpl for Size {
    open spec fn obeys_sub_spec() -> bool {
        true
    }

    open spec fn sub_req(self, rhs: Size) -> bool {
        rhs.0 <= self.0
    }

    open spec fn sub_spec(self, rhs: Size) -> Size {
        Size((self.0 - rhs.0) as u64)
    }
}

impl AddAssign for Size {
    fn add_assign(&mut self, rhs: Size)
        requires
            old(self).0 + rhs.0 <= u64::MAX,
        ensures
            final(self).0 == old(self).0 + rhs.0,
    {
        match self.0.checked_add(rhs.0) {
            Some(v) => {
                *self = Size(v);
            },
            None => unreached(),
        }
    }
}

impl SubAssign for Size {
    fn sub_assign(&mut self, rhs: Size)
        requires
            rhs.0 <= old(self).0,
        ensures
            final(self).0 == old(self).0 - rhs.0,
    {
        match self.0.checked_sub(rhs.0) {
            Some(v) => {
                *self = Size(v);
            },
            None => unreached(),
        }
    }
}

impl Deref for Size {
    type Target = u64;

    fn deref(&self) -> (r: &u64)
        ensures
            *r == self.0,
    {
        &self.0
    }
}

} // verus!
