//! A minimal administrative record.

use vstd::prelude::*;

verus! {

/// Simple record with one number and one value, used by administrative
/// tooling around the core.
#[derive(Debug)]
pub struct SimpleModel {
    pub number: i32,
    pub value: String,
}

} // verus!
