//! The protected resource: a counter owned by one authority, and the
//! operations on it. The increment runs only on an authorized request; a
//! denied request leaves the counter untouched.
//!
//! The surrounding environment must run each authorize-then-mutate sequence
//! for a given counter as one exclusive unit: no other mutation of the same
//! counter may interleave between the check and the write.

use vstd::prelude::*;

use crate::gate::AuthDecision;
use crate::gate::DenialReason;
use crate::gate::authorize;
use crate::gate::spec_authorize;
use crate::keys::Pubkey;
use crate::session::SessionToken;

verus! {

/// The protected state unit: an authority that may act on it directly, and a
/// mutable count. The authority is set at creation and never changes.
#[derive(Clone, Copy, Debug)]
pub struct Counter {
    /// The principal that may act on this counter without a token.
    pub authority: Pubkey,
    /// The mutable payload.
    pub count: u64,
}

/// A request to create a counter: the signer becomes its authority.
#[derive(Clone, Copy, Debug)]
pub struct Initialize {
    /// The signer creating the counter; recorded as its authority.
    pub owner: Pubkey,
}

/// A request to increment a counter: the authenticated signer and the
/// session token, if any, that the token store resolved for the request.
#[derive(Clone, Copy, Debug)]
pub struct Increment {
    /// The token presented with the request; at most one per request.
    pub session_token: Option<SessionToken>,
    /// The request's signer, authenticated upstream.
    pub signer: Pubkey,
}

/// Creates a counter owned by `ctx.owner`, with the count at zero.
pub fn initialize(ctx: &Initialize) -> (counter: Counter)
    ensures
        counter.authority == ctx.owner,
        counter.count == 0,
{
    Counter { authority: ctx.owner, count: 0 }
}

/// Increments the counter by exactly one if the request is authorized,
/// and otherwise returns the denial reason unchanged and leaves the counter
/// exactly as it was. The authority never changes.
pub fn increment(counter: &mut Counter, ctx: &Increment, now: i64) -> (r: Result<(), DenialReason>)
    requires
        old(counter).count < u64::MAX,
    ensures
        final(counter).authority == old(counter).authority,
        (match spec_authorize(ctx.signer, old(counter).authority, ctx.session_token, now) {
            AuthDecision::Authorized => {
                &&& r == Ok::<(), DenialReason>(())
                &&& final(counter).count == old(counter).count + 1
            },
            AuthDecision::Denied(reason) => {
                &&& r == Err::<(), DenialReason>(reason)
                &&& *final(counter) == *old(counter)
            },
        }),
{
    match authorize(ctx.signer, counter.authority, ctx.session_token, now) {
        AuthDecision::Authorized => {
            counter.count = counter.count + 1;
            Ok(())
        },
        AuthDecision::Denied(reason) => Err(reason),
    }
}

} // verus!
