//! Credential records kept by the companion vault contracts. The router
//! itself only carries these shapes; their storage lives outside its core.

use vstd::prelude::*;

verus! {

/// One stored credential; `id` reflects its position in the vault's list.
#[derive(Debug, PartialEq)]
pub struct Authentication {
    pub id: u64,
    pub username: String,
    pub password: String,
    pub notes: String,
}

/// A hint toward a credential; `id` reflects its position in the vault's
/// list.
#[derive(Debug, PartialEq)]
pub struct Hint {
    pub id: u64,
    pub username: String,
    pub password: String,
    pub notes: String,
}

} // verus!
