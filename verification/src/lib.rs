//! Core of a personal SEPA direct-debit mandate service.
//!
//! An authenticated caller, identified by the subject claim of a verified
//! bearer token, maintains one profile and a set of mandates. The library
//! verifies tokens against an issuer's published key set, resolves the
//! caller's profile, and persists profiles and mandates with an
//! idempotent create-or-update protocol keyed by stable external ids.
use vstd::prelude::*;

pub mod auth;
pub mod errors;
pub mod handlers;
pub mod keyset;
pub mod models;
pub mod patterns;
pub mod store;

verus! {

/// Everything a request handler needs: the persistence store.
#[derive(Debug)]
pub struct AppState {
    pub store: store::Store,
}

impl AppState {
    /// A fresh state around an empty store.
    pub fn new() -> (r: AppState)
        ensures
            r.store@.wf(),
            r.store@.profiles.len() == 0,
            r.store@.mandates.len() == 0,
    {
        AppState { store: store::Store::new() }
    }
}

} // verus!
