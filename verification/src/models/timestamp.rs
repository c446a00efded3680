//! Instants at which the store created or changed a row.

use vstd::prelude::*;

verus! {

/// An instant in UTC: the whole seconds since the start of 1970, and the nanoseconds
/// past them.
#[derive(Debug, Clone, Copy, PartialEq, Eq, Structural)]
pub struct Timestamp {
    pub seconds: i64,
    pub nanoseconds: u32,
}

} // verus!
