//! Session tokens: time-bounded delegation credentials, and their validity
//! check against a target resource.

use vstd::prelude::*;

use crate::keys::Pubkey;

verus! {

/// A delegation grant. An external issuance process, initiated by
/// `target_authority`, creates a token; the authorization logic only reads it.
///
/// A token stands in for `target_authority` and for no one else: it is usable
/// against a resource only while `valid_until` has not passed and only when
/// `target_authority` equals that resource's recorded authority.
#[derive(Clone, Copy, Debug)]
pub struct SessionToken {
    /// The identity permitted to present this token.
    pub delegate: Pubkey,
    /// The identity whose power the token delegates; the token binds only to
    /// resources whose recorded authority is exactly this key.
    pub target_authority: Pubkey,
    /// The expiry timestamp: the token is valid strictly before this time.
    pub valid_until: i64,
}

/// What it means for a token to be valid against a resource at time `now`:
/// it has not expired (`valid_until` still lies in the future) and it is
/// bound to the resource's authority.
pub open spec fn spec_validate(token: SessionToken, resource_authority: Pubkey, now: i64) -> bool {
    &&& token.valid_until > now
    &&& token.target_authority == resource_authority
}

/// Checks a token's structural validity against a resource's authority at
/// time `now`. Pure and total: no state beyond the three inputs is consulted.
pub fn validate(token: &SessionToken, resource_authority: &Pubkey, now: i64) -> (r: bool)
    ensures
        r == spec_validate(*token, *resource_authority, now),
{
    token.valid_until > now && token.target_authority == *resource_authority
}

} // verus!
