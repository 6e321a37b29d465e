//! Admin-signed authorization of privileged operations: a canonical signing
//! message, two signature-verification paths against a set of trusted keys, an
//! expiry bound, and a per-authority nonce ledger that rejects replays.
pub mod keys;
pub mod params;
pub mod state;
pub mod message;
pub mod delegated;
pub mod signature;
pub mod verify;
pub mod guarantees;
