//! A row identifier read from a query result.
use vstd::prelude::*;

verus! {

/// An identifier, such as the value of an auto-increment column.
#[derive(Debug)]
pub struct ID(pub u64);

impl core::ops::Deref for ID {
    type Target = u64;

    fn deref(&self) -> (r: &u64)
        ensures
            *r == self.0,
    {
        &self.0
    }
}

} // verus!
