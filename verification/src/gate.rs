//! The authorization gate: the decision whether a request may mutate a
//! protected resource, and the laws that decision obeys.

use vstd::prelude::*;

use crate::keys::Pubkey;
use crate::session::SessionToken;
use crate::session::spec_validate;
use crate::session::validate;

verus! {

/// Why a request was denied. Exactly two kinds, both terminal.
#[derive(Clone, Copy, Debug, PartialEq, Eq, Structural)]
pub enum DenialReason {
    /// No token was supplied and the signer is not the resource's authority.
    InvalidAuthority,
    /// A token was supplied but failed validation, or was presented by a
    /// signer other than its delegate. The kind deliberately does not say
    /// which check failed.
    InvalidToken,
}

/// The outcome of an authorization decision.
#[derive(Clone, Copy, Debug, PartialEq, Eq, Structural)]
pub enum AuthDecision {
    /// The request may proceed.
    Authorized,
    /// The request must have no effect; the reason is surfaced unchanged.
    Denied(DenialReason),
}

/// The authorization decision as a pure function of its inputs.
///
/// With no token, the signer must be the resource's authority. With a token,
/// the token must be valid for the resource at `now` and the signer must be
/// the delegate the token names. A token never weakens the direct path: the
/// token path is strictly additive.
pub open spec fn spec_authorize(
    signer: Pubkey,
    resource_authority: Pubkey,
    session_token: Option<SessionToken>,
    now: i64,
) -> AuthDecision {
    match session_token {
        None => if signer == resource_authority {
            AuthDecision::Authorized
        } else {
            AuthDecision::Denied(DenialReason::InvalidAuthority)
        },
        Some(token) => if spec_validate(token, resource_authority, now)
            && token.delegate == signer {
            AuthDecision::Authorized
        } else {
            AuthDecision::Denied(DenialReason::InvalidToken)
        },
    }
}

/// Decides whether the request of `signer`, carrying `session_token`, may
/// mutate a resource whose recorded authority is `resource_authority`, at
/// time `now`. Deterministic and side-effect-free; `now` must come from a
/// trusted clock at the moment of the check.
pub fn authorize(
    signer: Pubkey,
    resource_authority: Pubkey,
    session_token: Option<SessionToken>,
    now: i64,
) -> (r: AuthDecision)
    ensures
        r == spec_authorize(signer, resource_authority, session_token, now),
{
    match session_token {
        None => {
            if signer == resource_authority {
                AuthDecision::Authorized
            } else {
                AuthDecision::Denied(DenialReason::InvalidAuthority)
            }
        },
        Some(token) => {
            if validate(&token, &resource_authority, now) && token.delegate == signer {
                AuthDecision::Authorized
            } else {
                AuthDecision::Denied(DenialReason::InvalidToken)
            }
        },
    }
}

/// Direct match: with no token, a request is authorized exactly when the
/// signer is the resource's authority.
pub proof fn lemma_direct_match(signer: Pubkey, resource_authority: Pubkey, now: i64)
    ensures
        (spec_authorize(signer, resource_authority, None, now) == AuthDecision::Authorized)
            <==> signer == resource_authority,
{
}

/// No-token mismatch: with no token, a signer other than the resource's
/// authority is denied with `InvalidAuthority`.
pub proof fn lemma_no_token_mismatch(signer: Pubkey, resource_authority: Pubkey, now: i64)
    requires
        signer != resource_authority,
    ensures
        spec_authorize(signer, resource_authority, None, now)
            == AuthDecision::Denied(DenialReason::InvalidAuthority),
{
}

/// Valid delegation: an unexpired token bound to the resource's authority
/// authorizes its delegate.
pub proof fn lemma_valid_delegation(token: SessionToken, resource_authority: Pubkey, now: i64)
    requires
        token.target_authority == resource_authority,
        token.valid_until > now,
    ensures
        spec_authorize(token.delegate, resource_authority, Some(token), now)
            == AuthDecision::Authorized,
{
}

/// Authority binding: a token presented against a resource whose authority
/// is not the token's `target_authority` is denied with `InvalidToken`, even
/// by its own delegate and before expiry.
pub proof fn lemma_authority_binding(token: SessionToken, resource_authority: Pubkey, now: i64)
    requires
        token.target_authority != resource_authority,
    ensures
        spec_authorize(token.delegate, resource_authority, Some(token), now)
            == AuthDecision::Denied(DenialReason::InvalidToken),
{
}

/// Expiry: a token whose `valid_until` has passed is denied with
/// `InvalidToken`, regardless of who signs and of which resource it is
/// presented against.
pub proof fn lemma_expiry(
    signer: Pubkey,
    resource_authority: Pubkey,
    token: SessionToken,
    now: i64,
)
    requires
        token.valid_until <= now,
    ensures
        spec_authorize(signer, resource_authority, Some(token), now)
            == AuthDecision::Denied(DenialReason::InvalidToken),
{
}

/// Delegate mismatch: a valid, correctly bound token presented by a signer
/// other than its delegate is denied with `InvalidToken`.
pub proof fn lemma_delegate_mismatch(
    signer: Pubkey,
    resource_authority: Pubkey,
    token: SessionToken,
    now: i64,
)
    requires
        token.target_authority == resource_authority,
        token.valid_until > now,
        signer != token.delegate,
    ensures
        spec_authorize(signer, resource_authority, Some(token), now)
            == AuthDecision::Denied(DenialReason::InvalidToken),
{
}

/// A token never widens access by itself: with a token present, the request
/// is authorized exactly when the token is unexpired, bound to the
/// resource's authority, and presented by the delegate it names. A caller
/// cannot bypass the authority check by supplying an unrelated token.
pub proof fn lemma_token_path_strictly_additive(
    signer: Pubkey,
    resource_authority: Pubkey,
    token: SessionToken,
    now: i64,
)
    ensures
        (spec_authorize(signer, resource_authority, Some(token), now) == AuthDecision::Authorized)
            <==> (token.valid_until > now && token.target_authority == resource_authority
                && token.delegate == signer),
{
}

/// Determinism: any two authorization results reached on identical inputs
/// and an identical time coincide. Every call of `authorize` returns
/// `spec_authorize` of its inputs, so repeated calls agree.
pub proof fn lemma_deterministic(
    r1: AuthDecision,
    r2: AuthDecision,
    signer: Pubkey,
    resource_authority: Pubkey,
    session_token: Option<SessionToken>,
    now: i64,
)
    requires
        r1 == spec_authorize(signer, resource_authority, session_token, now),
        r2 == spec_authorize(signer, resource_authority, session_token, now),
    ensures
        r1 == r2,
{
}

} // verus!
