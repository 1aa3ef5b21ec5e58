//! The Pairing Public Key command.
use vstd::prelude::*;

use super::SmCommandData;
use crate::bytes::array_from_slice;

verus! {

/// The data of a Pairing Public Key command: the two coordinates of the sender's P-256
/// public key, each least significant byte first.
#[derive(Debug, Clone, Copy)]
pub struct PairingPublicKey {
    pub public_key_x: [u8; 32],
    pub public_key_y: [u8; 32],
}

impl PairingPublicKey {
    /// The wire bytes of a Pairing Public Key's data: X, then Y.
    pub open spec fn spec_bytes(self) -> Seq<u8> {
        self.public_key_x@ + self.public_key_y@
    }

    /// The wire bytes of this key's data.
    pub fn as_bytes(&self) -> (r: [u8; 64])
        ensures
            r@ == self.spec_bytes(),
    {
        let mut r = [0u8; 64];
        let mut i: usize = 0;
        while i < 32
            invariant
                i <= 32,
                r@.len() == 64,
                forall|j: int| 0 <= j < i ==> r@[j] == self.public_key_x@[j],
                forall|j: int| 0 <= j < i ==> r@[32 + j] == self.public_key_y@[j],
            decreases 32 - i,
        {
            r[i] = self.public_key_x[i];
            r[32 + i] = self.public_key_y[i];
            i = i + 1;
        }
        assert(r@ =~= self.spec_bytes());
        r
    }

    /// The key whose wire bytes are `bytes`.
    pub fn from_bytes(bytes: [u8; 64]) -> (r: Self)
        ensures
            r.spec_bytes() == bytes@,
    {
        let public_key_x: [u8; 32] = array_from_slice(&bytes, 0);
        let public_key_y: [u8; 32] = array_from_slice(&bytes, 32);
        let r = PairingPublicKey { public_key_x, public_key_y };
        assert(r.spec_bytes() =~= bytes@);
        r
    }

    /// Decodes a key from exactly 64 bytes; any other length gives `None`.
    pub fn try_from_slice(slice: &[u8]) -> (r: Option<Self>)
        ensures
            r is Some <==> slice@.len() == 64,
            r matches Some(v) ==> v.spec_bytes() == slice@,
    {
        if slice.len() != 64 {
            return None;
        }
        let bytes: [u8; 64] = array_from_slice(slice, 0);
        assert(bytes@ =~= slice@);
        Some(Self::from_bytes(bytes))
    }
}

impl SmCommandData for PairingPublicKey {
    open spec fn spec_code() -> u8 {
        0x0c
    }

    open spec fn spec_len() -> nat {
        64
    }

    open spec fn spec_data_bytes(&self) -> Seq<u8> {
        self.spec_bytes()
    }

    proof fn lemma_data_bytes(a: Self, b: Self) {
        if a.spec_bytes() == b.spec_bytes() {
            assert(a.public_key_x@ =~= a.spec_bytes().subrange(0, 32));
            assert(b.public_key_x@ =~= b.spec_bytes().subrange(0, 32));
            assert(a.public_key_y@ =~= a.spec_bytes().subrange(32, 64));
            assert(b.public_key_y@ =~= b.spec_bytes().subrange(32, 64));
            assert(a.public_key_x =~= b.public_key_x);
            assert(a.public_key_y =~= b.public_key_y);
        }
    }

    fn code() -> (c: super::SmCode) {
        super::SmCode::pairing_public_key()
    }

    fn data_bytes(&self) -> (r: Vec<u8>) {
        let mut v = Vec::new();
        crate::bytes::push_bytes(&mut v, &self.public_key_x);
        crate::bytes::push_bytes(&mut v, &self.public_key_y);
        v
    }

    fn from_data_slice(slice: &[u8]) -> (r: Option<Self>) {
        Self::try_from_slice(slice)
    }
}

} // verus!
