//! The Pairing Request command and the fields it shares with the Pairing Response:
//! the I/O capability, the OOB data flag and the authentication requirements.
use vstd::prelude::*;

use super::SmCommandData;
use crate::bytes::array_from_slice;

verus! {

/// The data of a Pairing Request, in wire order.
#[derive(Debug, Clone, Copy, PartialEq, Eq, Structural)]
pub struct PairingRequest {
    pub io_capability: IoCapability,
    pub oob_data_flag: OobDataFlag,
    pub auth_req: u8,
    pub maximum_encryption_key_size: u8,
    pub initiator_key_distribution: u8,
    pub responder_key_distribution: u8,
}

impl PairingRequest {
    /// The wire bytes of a Pairing Request's data.
    pub open spec fn spec_bytes(self) -> Seq<u8> {
        seq![
            self.io_capability.0,
            self.oob_data_flag.0,
            self.auth_req,
            self.maximum_encryption_key_size,
            self.initiator_key_distribution,
            self.responder_key_distribution,
        ]
    }

    /// The Pairing Request whose wire bytes are the six bytes `s`.
    pub open spec fn spec_from_bytes(s: Seq<u8>) -> PairingRequest {
        PairingRequest {
            io_capability: IoCapability(s[0]),
            oob_data_flag: OobDataFlag(s[1]),
            auth_req: s[2],
            maximum_encryption_key_size: s[3],
            initiator_key_distribution: s[4],
            responder_key_distribution: s[5],
        }
    }

    /// The wire bytes of this request's data.
    pub fn as_bytes(&self) -> (r: [u8; 6])
        ensures
            r@ == self.spec_bytes(),
    {
        let r = [
            self.io_capability.0,
            self.oob_data_flag.0,
            self.auth_req,
            self.maximum_encryption_key_size,
            self.initiator_key_distribution,
            self.responder_key_distribution,
        ];
        assert(r@ =~= self.spec_bytes());
        r
    }

    /// The request whose wire bytes are `bytes`.
    pub fn from_bytes(bytes: [u8; 6]) -> (r: Self)
        ensures
            r == Self::spec_from_bytes(bytes@),
    {
        PairingRequest {
            io_capability: IoCapability(bytes[0]),
            oob_data_flag: OobDataFlag(bytes[1]),
            auth_req: bytes[2],
            maximum_encryption_key_size: bytes[3],
            initiator_key_distribution: bytes[4],
            responder_key_distribution: bytes[5],
        }
    }

    /// Decodes a request from exactly six bytes; any other length gives `None`.
    pub fn try_from_slice(slice: &[u8]) -> (r: Option<Self>)
        ensures
            r is Some <==> slice@.len() == 6,
            r matches Some(v) ==> v == Self::spec_from_bytes(slice@),
    {
        if slice.len() != 6 {
            return None;
        }
        let bytes: [u8; 6] = array_from_slice(slice, 0);
        assert(bytes@ =~= slice@);
        Some(Self::from_bytes(bytes))
    }
}

/// Decoding the bytes of a request gives the request back, and six bytes are the bytes
/// of the request they decode to.
pub proof fn lemma_pairing_request_roundtrip(r: PairingRequest, s: Seq<u8>)
    ensures
        PairingRequest::spec_from_bytes(r.spec_bytes()) == r,
        s.len() == 6 ==> PairingRequest::spec_from_bytes(s).spec_bytes() == s,
{
    if s.len() == 6 {
        assert(PairingRequest::spec_from_bytes(s).spec_bytes() =~= s);
    }
}

impl SmCommandData for PairingRequest {
    open spec fn spec_code() -> u8 {
        0x01
    }

    open spec fn spec_len() -> nat {
        6
    }

    open spec fn spec_data_bytes(&self) -> Seq<u8> {
        self.spec_bytes()
    }

    proof fn lemma_data_bytes(a: Self, b: Self) {
        lemma_pairing_request_roundtrip(a, a.spec_bytes());
        lemma_pairing_request_roundtrip(b, b.spec_bytes());
    }

    fn code() -> (c: super::SmCode) {
        super::SmCode::pairing_request()
    }

    fn data_bytes(&self) -> (r: Vec<u8>) {
        let b = self.as_bytes();
        let mut v = Vec::new();
        crate::bytes::push_bytes(&mut v, &b);
        assert(v@ =~= self.spec_bytes());
        v
    }

    fn from_data_slice(slice: &[u8]) -> (r: Option<Self>) {
        let r = Self::try_from_slice(slice);
        proof {
            lemma_pairing_request_roundtrip(PairingRequest::spec_from_bytes(slice@), slice@);
        }
        r
    }
}

/// The I/O capability of a device. For example whether it has a display/keyboard.
#[derive(Debug, Clone, Copy, PartialEq, Eq, Structural)]
pub struct IoCapability(pub u8);

impl IoCapability {
    /// The device has a display, but no input capability.
    pub fn display_only() -> (r: IoCapability)
        ensures
            r == IoCapability(0x00),
    {
        IoCapability(0x00)
    }

    /// The device has a display, and a yes/no input capability.
    pub fn display_yes_no() -> (r: IoCapability)
        ensures
            r == IoCapability(0x01),
    {
        IoCapability(0x01)
    }

    /// The device has no display, but it has a keyboard.
    pub fn keyboard_only() -> (r: IoCapability)
        ensures
            r == IoCapability(0x02),
    {
        IoCapability(0x02)
    }

    /// The device has no inputs and no outputs.
    pub fn no_input_no_output() -> (r: IoCapability)
        ensures
            r == IoCapability(0x03),
    {
        IoCapability(0x03)
    }

    /// The device has a keyboard and a display.
    pub fn keyboard_display() -> (r: IoCapability)
        ensures
            r == IoCapability(0x04),
    {
        IoCapability(0x04)
    }

    /// The wire value of this capability.
    pub fn as_u8(&self) -> (r: u8)
        ensures
            r == self.0,
    {
        self.0
    }
}

/// Whether out-of-band authentication data is present.
#[derive(Debug, Clone, Copy, PartialEq, Eq, Structural)]
pub struct OobDataFlag(pub u8);

impl OobDataFlag {
    /// No out-of-band authentication data.
    pub fn auth_data_not_present() -> (r: OobDataFlag)
        ensures
            r == OobDataFlag(0x00),
    {
        OobDataFlag(0x00)
    }

    /// Out-of-band authentication data from the remote device is present.
    pub fn auth_data_present() -> (r: OobDataFlag)
        ensures
            r == OobDataFlag(0x01),
    {
        OobDataFlag(0x01)
    }

    /// The wire value of this flag.
    pub fn as_u8(&self) -> (r: u8)
        ensures
            r == self.0,
    {
        self.0
    }
}

/// The authentication requirements, a byte of bit fields, least significant first:
/// bonding flags (2 bits), MITM (1), secure connections (1), keypress (1), CT2 (1)
/// and two reserved bits.
#[derive(Debug, Clone, Copy, PartialEq, Eq, Structural)]
pub struct AuthReq(pub u8);

impl AuthReq {
    /// The bonding flags field.
    pub open spec fn spec_bonding_flags(self) -> u8 {
        self.0 & 0x03
    }

    /// The MITM protection bit.
    pub open spec fn spec_mitm(self) -> bool {
        self.0 & 0x04 != 0
    }

    /// The LE Secure Connections bit.
    pub open spec fn spec_sc(self) -> bool {
        self.0 & 0x08 != 0
    }

    /// The keypress notification bit.
    pub open spec fn spec_keypress(self) -> bool {
        self.0 & 0x10 != 0
    }

    /// The CT2 bit.
    pub open spec fn spec_ct2(self) -> bool {
        self.0 & 0x20 != 0
    }

    /// The two reserved bits.
    pub open spec fn spec_rfu(self) -> u8 {
        self.0 >> 6
    }

    /// All fields zero.
    pub fn new() -> (r: AuthReq)
        ensures
            r == AuthReq(0),
            r.spec_bonding_flags() == 0,
            !r.spec_mitm(),
            !r.spec_sc(),
            !r.spec_keypress(),
            !r.spec_ct2(),
            r.spec_rfu() == 0,
    {
        assert((0u8 & 0x03) == 0 && (0u8 & 0x04) == 0 && (0u8 & 0x08) == 0 && (0u8 & 0x10) == 0
            && (0u8 & 0x20) == 0 && (0u8 >> 6u8) == 0) by (bit_vector);
        AuthReq(0)
    }

    /// The byte that holds all fields.
    pub fn into_bits(self) -> (r: u8)
        ensures
            r == self.0,
    {
        self.0
    }

    /// The requirements that the byte `bits` holds.
    pub fn from_bits(bits: u8) -> (r: AuthReq)
        ensures
            r == AuthReq(bits),
    {
        AuthReq(bits)
    }

    /// The bonding flags field.
    pub fn bonding_flags(&self) -> (r: u8)
        ensures
            r == self.spec_bonding_flags(),
    {
        self.0 & 0x03
    }

    /// The MITM protection bit.
    pub fn mitm(&self) -> (r: bool)
        ensures
            r == self.spec_mitm(),
    {
        self.0 & 0x04 != 0
    }

    /// The LE Secure Connections bit.
    pub fn sc(&self) -> (r: bool)
        ensures
            r == self.spec_sc(),
    {
        self.0 & 0x08 != 0
    }

    /// The keypress notification bit.
    pub fn keypress(&self) -> (r: bool)
        ensures
            r == self.spec_keypress(),
    {
        self.0 & 0x10 != 0
    }

    /// The CT2 bit.
    pub fn ct2(&self) -> (r: bool)
        ensures
            r == self.spec_ct2(),
    {
        self.0 & 0x20 != 0
    }

    /// The two reserved bits.
    pub fn rfu(&self) -> (r: u8)
        ensures
            r == self.spec_rfu(),
    {
        self.0 >> 6
    }

    /// These requirements with the bonding flags set to `value`, which must fit in two bits.
    pub fn with_bonding_flags(self, value: u8) -> (r: AuthReq)
        requires
            value <= 3,
        ensures
            r.0 == (self.0 & 0xfc) | value,
            r.spec_bonding_flags() == value,
            r.spec_mitm() == self.spec_mitm(),
            r.spec_sc() == self.spec_sc(),
            r.spec_keypress() == self.spec_keypress(),
            r.spec_ct2() == self.spec_ct2(),
            r.spec_rfu() == self.spec_rfu(),
    {
        let a = self.0;
        let b = (a & 0xfc) | value;
        assert(value <= 3 ==> {
            &&& (((a & 0xfc) | value) & 0x03) == value
            &&& (((a & 0xfc) | value) & 0x04) == (a & 0x04)
            &&& (((a & 0xfc) | value) & 0x08) == (a & 0x08)
            &&& (((a & 0xfc) | value) & 0x10) == (a & 0x10)
            &&& (((a & 0xfc) | value) & 0x20) == (a & 0x20)
            &&& (((a & 0xfc) | value) >> 6u8) == (a >> 6u8)
        }) by (bit_vector);
        AuthReq(b)
    }

    /// These requirements with the MITM bit set to `value`.
    pub fn with_mitm(self, value: bool) -> (r: AuthReq)
        ensures
            r.0 == (if value { self.0 | 0x04 } else { self.0 & 0xfb }),
            r.spec_mitm() == value,
            r.spec_bonding_flags() == self.spec_bonding_flags(),
            r.spec_sc() == self.spec_sc(),
            r.spec_keypress() == self.spec_keypress(),
            r.spec_ct2() == self.spec_ct2(),
            r.spec_rfu() == self.spec_rfu(),
    {
        let a = self.0;
        proof {
            lemma_set_bit(a, 0x04);
        }
        if value {
            AuthReq(a | 0x04)
        } else {
            AuthReq(a & 0xfb)
        }
    }

    /// These requirements with the LE Secure Connections bit set to `value`.
    pub fn with_sc(self, value: bool) -> (r: AuthReq)
        ensures
            r.0 == (if value { self.0 | 0x08 } else { self.0 & 0xf7 }),
            r.spec_sc() == value,
            r.spec_bonding_flags() == self.spec_bonding_flags(),
            r.spec_mitm() == self.spec_mitm(),
            r.spec_keypress() == self.spec_keypress(),
            r.spec_ct2() == self.spec_ct2(),
            r.spec_rfu() == self.spec_rfu(),
    {
        let a = self.0;
        proof {
            lemma_set_bit(a, 0x08);
        }
        if value {
            AuthReq(a | 0x08)
        } else {
            AuthReq(a & 0xf7)
        }
    }

    /// These requirements with the keypress notification bit set to `value`.
    pub fn with_keypress(self, value: bool) -> (r: AuthReq)
        ensures
            r.0 == (if value { self.0 | 0x10 } else { self.0 & 0xef }),
            r.spec_keypress() == value,
            r.spec_bonding_flags() == self.spec_bonding_flags(),
            r.spec_mitm() == self.spec_mitm(),
            r.spec_sc() == self.spec_sc(),
            r.spec_ct2() == self.spec_ct2(),
            r.spec_rfu() == self.spec_rfu(),
    {
        let a = self.0;
        proof {
            lemma_set_bit(a, 0x10);
        }
        if value {
            AuthReq(a | 0x10)
        } else {
            AuthReq(a & 0xef)
        }
    }

    /// These requirements with the CT2 bit set to `value`.
    pub fn with_ct2(self, value: bool) -> (r: AuthReq)
        ensures
            r.0 == (if value { self.0 | 0x20 } else { self.0 & 0xdf }),
            r.spec_ct2() == value,
            r.spec_bonding_flags() == self.spec_bonding_flags(),
            r.spec_mitm() == self.spec_mitm(),
            r.spec_sc() == self.spec_sc(),
            r.spec_keypress() == self.spec_keypress(),
            r.spec_rfu() == self.spec_rfu(),
    {
        let a = self.0;
        proof {
            lemma_set_bit(a, 0x20);
        }
        if value {
            AuthReq(a | 0x20)
        } else {
            AuthReq(a & 0xdf)
        }
    }

    /// These requirements with the reserved bits set to `value`, which must fit in two bits.
    pub fn with_rfu(self, value: u8) -> (r: AuthReq)
        requires
            value <= 3,
        ensures
            r.0 == (self.0 & 0x3f) | (value << 6u8),
            r.spec_rfu() == value,
            r.spec_bonding_flags() == self.spec_bonding_flags(),
            r.spec_mitm() == self.spec_mitm(),
            r.spec_sc() == self.spec_sc(),
            r.spec_keypress() == self.spec_keypress(),
            r.spec_ct2() == self.spec_ct2(),
    {
        let a = self.0;
        assert(value <= 3 ==> {
            &&& (((a & 0x3f) | (value << 6u8)) >> 6u8) == value
            &&& (((a & 0x3f) | (value << 6u8)) & 0x03) == (a & 0x03)
            &&& (((a & 0x3f) | (value << 6u8)) & 0x04) == (a & 0x04)
            &&& (((a & 0x3f) | (value << 6u8)) & 0x08) == (a & 0x08)
            &&& (((a & 0x3f) | (value << 6u8)) & 0x10) == (a & 0x10)
            &&& (((a & 0x3f) | (value << 6u8)) & 0x20) == (a & 0x20)
        }) by (bit_vector);
        AuthReq((a & 0x3f) | (value << 6))
    }
}

/// Setting or clearing the single bit `m` of `a` changes that bit and keeps every other
/// bit field of the authentication requirements.
proof fn lemma_set_bit(a: u8, m: u8)
    by (bit_vector)
    requires
        m == 0x04 || m == 0x08 || m == 0x10 || m == 0x20,
    ensures
        (a | m) & m != 0,
        (a & !m) & m == 0,
        m != 0x04 ==> (a | m) & 0x04 == a & 0x04 && (a & !m) & 0x04 == a & 0x04,
        m != 0x08 ==> (a | m) & 0x08 == a & 0x08 && (a & !m) & 0x08 == a & 0x08,
        m != 0x10 ==> (a | m) & 0x10 == a & 0x10 && (a & !m) & 0x10 == a & 0x10,
        m != 0x20 ==> (a | m) & 0x20 == a & 0x20 && (a & !m) & 0x20 == a & 0x20,
        (a | m) & 0x03 == a & 0x03 && (a & !m) & 0x03 == a & 0x03,
        (a | m) >> 6u8 == a >> 6u8 && (a & !m) >> 6u8 == a >> 6u8,
        !0x04u8 == 0xfbu8 && !0x08u8 == 0xf7u8 && !0x10u8 == 0xefu8 && !0x20u8 == 0xdfu8,
{
}

} // verus!
