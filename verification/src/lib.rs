//! An authorization gate for a counter resource.
//!
//! A request to mutate a protected resource is permitted on one of two paths:
//! either the resource's recorded authority signs the request directly, or the
//! request presents a session token that delegates the authority's power to
//! the signer. The decision is a pure function of the signer, the resource's
//! authority, the optional token and the current time; the counter mutation
//! runs only on an authorized decision.

pub mod counter;
pub mod gate;
pub mod keys;
pub mod session;
