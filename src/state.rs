use vstd::prelude::*;

use crate::keys::Pubkey;

verus! {

/// Why an authorization was refused.
#[derive(Clone, Copy, Debug, PartialEq, Eq, Structural)]
pub enum PoolError {
    AuthorizationExpired,
    InvalidAdminSignature,
    UnauthorizedAuthorityForSignature,
    AuthorizationNonceNotIncreasing,
}

/// The replay-protection record of one authority: the authority it is bound to
/// (all zero while unbound) and the highest nonce it has consumed.
#[derive(Clone, Copy, Debug)]
pub struct AuthorizationNonce {
    pub authority: Pubkey,
    pub last_nonce: u64,
}

/// The ledger entry after `consume(authority, nonce)` on `entry`, and its result.
pub open spec fn consume_spec(entry: AuthorizationNonce, authority: Pubkey, nonce: u64) -> (
    Result<(), PoolError>,
    AuthorizationNonce,
) {
    if entry.authority.is_zero_spec() {
        (Ok(()), AuthorizationNonce { authority, last_nonce: nonce })
    } else if entry.authority.bytes@ != authority.bytes@ {
        (Err(PoolError::UnauthorizedAuthorityForSignature), entry)
    } else if nonce <= entry.last_nonce {
        (Err(PoolError::AuthorizationNonceNotIncreasing), entry)
    } else {
        (Ok(()), AuthorizationNonce { authority: entry.authority, last_nonce: nonce })
    }
}

impl AuthorizationNonce {
    /// A fresh, unbound entry.
    pub fn new() -> (r: AuthorizationNonce)
        ensures
            r.authority.is_zero_spec(),
            r.last_nonce == 0,
    {
        AuthorizationNonce { authority: Pubkey::zero(), last_nonce: 0 }
    }

    pub open spec fn is_bound(&self) -> bool {
        !self.authority.is_zero_spec()
    }

    /// Records `nonce` as consumed by `authority`. An unbound entry binds to
    /// `authority` whatever the nonce; a bound one accepts only its own authority
    /// and a nonce above the last one.
    pub fn consume(&mut self, authority: &Pubkey, nonce: u64) -> (r: Result<(), PoolError>)
        ensures
            (r, *final(self)) == consume_spec(*old(self), *authority, nonce),
    {
        if self.authority.is_zero() {
            self.authority = *authority;
            self.last_nonce = nonce;
            return Ok(());
        } else if self.authority != *authority {
            return Err(PoolError::UnauthorizedAuthorityForSignature);
        }
        if nonce <= self.last_nonce {
            return Err(PoolError::AuthorizationNonceNotIncreasing);
        }
        self.last_nonce = nonce;
        Ok(())
    }
}

} // verus!
