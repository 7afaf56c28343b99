//! The trait that keeps the state and descriptor traits of this crate closed.

use vstd::prelude::*;

verus! {

/// Implemented by the types of this crate that may implement its closed
/// traits.
pub trait Sealed {

}

} // verus!
