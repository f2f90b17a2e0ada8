//! Seals the driver-facing traits to the fixed set of types declared in
//! this crate.

use vstd::prelude::*;

verus! {

/// Supertrait of the capabilities that only this crate's own types may
/// provide; it cannot be named outside the crate, so no other impls exist.
pub trait Sealed {}

} // verus!
