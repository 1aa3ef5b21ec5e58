//! The Pairing Random command.
use vstd::prelude::*;

use super::SmCommandData;
use crate::bytes::array_from_slice;

verus! {

/// The data of a Pairing Random command: the sender's nonce, least significant byte first.
#[derive(Debug, Clone, Copy)]
pub struct PairingRandom(pub [u8; 16]);

impl PairingRandom {
    /// The wire bytes of this command's data.
    pub fn as_bytes(&self) -> (r: [u8; 16])
        ensures
            r == self.0,
    {
        self.0
    }

    /// The data whose wire bytes are `bytes`.
    pub fn from_bytes(bytes: [u8; 16]) -> (r: Self)
        ensures
            r.0 == bytes,
    {
        PairingRandom(bytes)
    }

    /// Decodes the data from exactly sixteen bytes; any other length gives `None`.
    pub fn try_from_slice(slice: &[u8]) -> (r: Option<Self>)
        ensures
            r is Some <==> slice@.len() == 16,
            r matches Some(v) ==> v.0@ == slice@,
    {
        if slice.len() != 16 {
            return None;
        }
        let bytes: [u8; 16] = array_from_slice(slice, 0);
        assert(bytes@ =~= slice@);
        Some(Self::from_bytes(bytes))
    }
}

impl SmCommandData for PairingRandom {
    open spec fn spec_code() -> u8 {
        0x04
    }

    open spec fn spec_len() -> nat {
        16
    }

    open spec fn spec_data_bytes(&self) -> Seq<u8> {
        self.0@
    }

    proof fn lemma_data_bytes(a: Self, b: Self) {
        if a.0@ == b.0@ {
            assert(a.0 =~= b.0);
        }
    }

    fn code() -> (c: super::SmCode) {
        super::SmCode::pairing_random()
    }

    fn data_bytes(&self) -> (r: Vec<u8>) {
        let mut v = Vec::new();
        crate::bytes::push_bytes(&mut v, &self.0);
        v
    }

    fn from_data_slice(slice: &[u8]) -> (r: Option<Self>) {
        Self::try_from_slice(slice)
    }
}

} // verus!
