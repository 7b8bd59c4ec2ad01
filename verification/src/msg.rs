//! The message protocol between the presentation loop and the background
//! worker: one closed tagged union per channel direction. Messages carry only
//! identifiers and payload values, never a handle back into application state.

use vstd::prelude::*;
use crate::pet::Pet;

verus! {

/// A request sent from the presentation loop to the background worker.
#[derive(Debug, Clone, PartialEq)]
pub enum Request {
    /// Fetch the full entity list.
    FetchAll,
    /// Re-resolve one entity by identity.
    FetchOne { id: u64 },
    /// Create a new entity from the given fields.
    Insert { name: String, age: u16, kind_id: u64 },
    /// Delete the entity with the given identity.
    Delete { id: u64 },
    /// Resolve an image for the given category.
    FetchImage { kind_id: u64 },
}

/// A result pushed back to the presentation loop once an operation completes.
#[derive(Debug, Clone, PartialEq)]
#[allow(inconsistent_fields)]
pub enum ResultMsg {
    /// A freshly created entity, with its identity assigned by the store.
    /// Informational: applying it changes no state.
    Created { pet: Pet },
    /// A refreshed entity list replacing the cached one.
    ListUpdate { pets: Vec<Pet> },
    /// A selection replacing the current one wholesale.
    SelectionUpdate { pet: Option<Pet> },
    /// An image reference replacing the cached one wholesale;
    /// absent covers both "not found" and "fetch failed".
    ImageUpdate { url: Option<String> },
}

} // verus!
