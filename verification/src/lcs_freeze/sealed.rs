//! The seal of [`super::AdmittedLcsIdentityV1`]: only this crate can name it.
use vstd::prelude::*;

verus! {

/// Marker that only this crate's types implement.
pub trait Sealed {
}

} // verus!
