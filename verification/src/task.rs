//! Tasks that wait for something to happen.

use std::task::Waker;
use vstd::prelude::*;

verus! {

#[verifier::external_type_specification]
#[verifier::external_body]
pub struct ExWaker(std::task::Waker);

/// The tasks that are to be woken up.
#[derive(Debug)]
pub struct Wakers {
    /// The task that waits for data to read.
    pub reader: Option<Waker>,
    /// The task that waits to write data.
    pub writer: Option<Waker>,
}

impl Wakers {
    /// No task is to be woken up.
    pub open spec fn nobody() -> Wakers {
        Wakers { reader: None, writer: None }
    }

    /// No task is to be woken up.
    pub fn none() -> (w: Self)
        ensures
            w == Wakers::nobody(),
    {
        Wakers { reader: None, writer: None }
    }
}

} // verus!
