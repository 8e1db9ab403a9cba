//! Hashing numbers by themselves.

use std::marker::PhantomData;
use vstd::prelude::*;

verus! {

/// A hasher whose hash of a number is the number.
#[derive(Debug)]
pub struct Stateless<T>(u64, PhantomData<T>);

impl<T> Clone for Stateless<T> {
    fn clone(&self) -> (s: Self)
        ensures
            s == *self,
    {
        Stateless(self.0, PhantomData)
    }
}

impl<T> Copy for Stateless<T> {

}

impl<T> View for Stateless<T> {
    type V = u64;

    closed spec fn view(&self) -> u64 {
        self.0
    }
}

impl<T> Default for Stateless<T> {
    fn default() -> (s: Self)
        ensures
            s@ == 0,
    {
        Stateless(0, PhantomData)
    }
}

impl Stateless<usize> {
    /// The hash of the number that was written last.
    pub fn finish(&self) -> (h: u64)
        ensures
            h == self@,
    {
        self.0
    }

    /// Write the number to be hashed.
    pub fn write_usize(&mut self, n: usize)
        ensures
            final(self)@ == n,
    {
        self.0 = n as u64
    }
}

} // verus!
