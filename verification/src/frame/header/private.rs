//! The seal on the message types.

use vstd::prelude::*;

verus! {

/// Only the message types of this crate implement this.
pub trait Sealed {

}

} // verus!
