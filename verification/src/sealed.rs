//! A bound that only this crate can name.

use vstd::prelude::*;

verus! {

pub trait Sealed {
}

impl<T> Sealed for T {
}

} // verus!
