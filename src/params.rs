use vstd::prelude::*;

verus! {

/// What an admin signs off-chain to approve one privileged operation.
#[derive(Clone, Copy, Debug)]
pub struct AuthorizationPayload {
    pub signature: [u8; 64],
    pub nonce: u64,
    pub expiry_slot: u64,
}

impl AuthorizationPayload {
    pub fn new(signature: [u8; 64], nonce: u64, expiry_slot: u64) -> (r: AuthorizationPayload)
        ensures
            r.signature == signature,
            r.nonce == nonce,
            r.expiry_slot == expiry_slot,
    {
        AuthorizationPayload { signature, nonce, expiry_slot }
    }
}

/// The operation that a payload authorizes.
#[derive(Clone, Copy, Debug, PartialEq, Eq, Structural)]
pub enum AuthorizationAction {
    InitializePool,
    Swap,
}

impl AuthorizationAction {
    /// The action's stable numeric tag, the first byte of the signed message.
    pub open spec fn tag_spec(self) -> u8 {
        match self {
            AuthorizationAction::InitializePool => 1,
            AuthorizationAction::Swap => 2,
        }
    }

    pub fn tag(self) -> (r: u8)
        ensures
            r == self.tag_spec(),
    {
        match self {
            AuthorizationAction::InitializePool => 1,
            AuthorizationAction::Swap => 2,
        }
    }
}

} // verus!
