//! The Pairing Response command.
use vstd::prelude::*;

use super::{AuthReq, IoCapability, OobDataFlag, SmCommandData};
use crate::bytes::array_from_slice;

verus! {

/// The data of a Pairing Response, in wire order.
#[derive(Debug, Clone, Copy, PartialEq, Eq, Structural)]
pub struct PairingResponse {
    pub io_capability: IoCapability,
    pub oob_data_flag: OobDataFlag,
    pub auth_req: AuthReq,
    pub maximum_encryption_key_size: u8,
    pub initiator_key_distribution: u8,
    pub responder_key_distribution: u8,
}

impl PairingResponse {
    /// The wire bytes of a Pairing Response's data.
    pub open spec fn spec_bytes(self) -> Seq<u8> {
        seq![
            self.io_capability.0,
            self.oob_data_flag.0,
            self.auth_req.0,
            self.maximum_encryption_key_size,
            self.initiator_key_distribution,
            self.responder_key_distribution,
        ]
    }

    /// The Pairing Response whose wire bytes are the six bytes `s`.
    pub open spec fn spec_from_bytes(s: Seq<u8>) -> PairingResponse {
        PairingResponse {
            io_capability: IoCapability(s[0]),
            oob_data_flag: OobDataFlag(s[1]),
            auth_req: AuthReq(s[2]),
            maximum_encryption_key_size: s[3],
            initiator_key_distribution: s[4],
            responder_key_distribution: s[5],
        }
    }

    /// The wire bytes of this response's data.
    pub fn as_bytes(&self) -> (r: [u8; 6])
        ensures
            r@ == self.spec_bytes(),
    {
        let r = [
            self.io_capability.0,
            self.oob_data_flag.0,
            self.auth_req.0,
            self.maximum_encryption_key_size,
            self.initiator_key_distribution,
            self.responder_key_distribution,
        ];
        assert(r@ =~= self.spec_bytes());
        r
    }

    /// The response whose wire bytes are `bytes`.
    pub fn from_bytes(bytes: [u8; 6]) -> (r: Self)
        ensures
            r == Self::spec_from_bytes(bytes@),
    {
        PairingResponse {
            io_capability: IoCapability(bytes[0]),
            oob_data_flag: OobDataFlag(bytes[1]),
            auth_req: AuthReq(bytes[2]),
            maximum_encryption_key_size: bytes[3],
            initiator_key_distribution: bytes[4],
            responder_key_distribution: bytes[5],
        }
    }

    /// Decodes a response from exactly six bytes; any other length gives `None`.
    pub fn try_from_slice(slice: &[u8]) -> (r: Option<Self>)
        ensures
            r is Some <==> slice@.len() == 6,
            r matches Some(v) ==> v == Self::spec_from_bytes(slice@),
    {
        if slice.len() != 6 {
            return None;
        }
        let bytes: [u8; 6] = array_from_slice(slice, 0);
        assert(bytes@ =~= slice@);
        Some(Self::from_bytes(bytes))
    }
}

/// Decoding the bytes of a response gives the response back, and six bytes are the bytes
/// of the response they decode to.
pub proof fn lemma_pairing_response_roundtrip(r: PairingResponse, s: Seq<u8>)
    ensures
        PairingResponse::spec_from_bytes(r.spec_bytes()) == r,
        s.len() == 6 ==> PairingResponse::spec_from_bytes(s).spec_bytes() == s,
{
    if s.len() == 6 {
        assert(PairingResponse::spec_from_bytes(s).spec_bytes() =~= s);
    }
}

impl SmCommandData for PairingResponse {
    open spec fn spec_code() -> u8 {
        0x02
    }

    open spec fn spec_len() -> nat {
        6
    }

    open spec fn spec_data_bytes(&self) -> Seq<u8> {
        self.spec_bytes()
    }

    proof fn lemma_data_bytes(a: Self, b: Self) {
        lemma_pairing_response_roundtrip(a, a.spec_bytes());
        lemma_pairing_response_roundtrip(b, b.spec_bytes());
    }

    fn code() -> (c: super::SmCode) {
        super::SmCode::pairing_response()
    }

    fn data_bytes(&self) -> (r: Vec<u8>) {
        let b = self.as_bytes();
        let mut v = Vec::new();
        crate::bytes::push_bytes(&mut v, &b);
        v
    }

    fn from_data_slice(slice: &[u8]) -> (r: Option<Self>) {
        let r = Self::try_from_slice(slice);
        proof {
            lemma_pairing_response_roundtrip(PairingResponse::spec_from_bytes(slice@), slice@);
        }
        r
    }
}

} // verus!
