//! Effective-permission resolution for a community chat platform.
//!
//! The core of the crate computes the permission bitmask an acting identity
//! (the "perspective") holds against a target scope: either a whole server or
//! a single channel inside one. Resolution composes the server's default
//! permissions with the overrides of the roles assigned to the perspective's
//! member record, ordered by role rank, and layers channel-specific overrides
//! on top. The entities themselves come from a database collaborator that the
//! core consumes but does not implement.

use vstd::prelude::*;

pub mod calculator;
pub mod dummy;
pub mod laws;
pub mod memory;
pub mod models;
pub mod ordering;
pub mod traits;
pub mod values;

verus! {

/// Failure of the database collaborator: the requested entity does not exist.
#[derive(Clone, Copy, PartialEq, Eq, Structural, Debug)]
pub enum Error {
    NotFound,
}

} // verus!
