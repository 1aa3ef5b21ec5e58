//! The Security Manager of a Bluetooth LE host: the Security Manager Protocol commands,
//! their encoding, and the verified state machine of LE Secure Connections pairing on
//! the responder side.
use vstd::prelude::*;

pub mod bytes;
pub mod error;
pub mod security_manager;
mod slice_write;

pub use error::{Error, SecurityManagerError};
pub use security_manager::{
    encode_sm_data, make_auth_req, Address, DhKey, IoCap, Outgoing, PairingState, PeerKeyData,
    Pending, PublicKey, SecretKey, SecurityManager, SmAction, SmEvent,
};

verus! {
} // verus!
