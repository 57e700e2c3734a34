//! A row count read from a query result.
use vstd::prelude::*;

verus! {

/// A count, as returned by `SELECT COUNT(*)`.
#[derive(Debug)]
pub struct Count(pub i64);

impl core::ops::Deref for Count {
    type Target = i64;

    fn deref(&self) -> (r: &i64)
        ensures
            *r == self.0,
    {
        &self.0
    }
}

} // verus!
