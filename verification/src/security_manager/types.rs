//! Security Manager Protocol commands: their codes, their data and their encoding.
//! A command on the wire is its one-byte code followed by the bytes of its data.
use vstd::prelude::*;

mod pairing_confirm;
mod pairing_dhkey_check;
mod pairing_failed;
mod pairing_public_key;
mod pairing_random_data;
mod pairing_request;
mod pairing_response;

pub use pairing_confirm::PairingConfirm;
pub use pairing_dhkey_check::PairingDhKeyCheck;
pub use pairing_failed::PairingFailed;
pub use pairing_public_key::PairingPublicKey;
pub use pairing_random_data::PairingRandom;
pub use pairing_request::{
    lemma_pairing_request_roundtrip, AuthReq, IoCapability, OobDataFlag, PairingRequest,
};
pub use pairing_response::PairingResponse;

verus! {

/// Security Manager Code.
///
/// Determines the type of an SMP command.
#[derive(Debug, Clone, Copy, PartialEq, Eq, Structural)]
pub struct SmCode(pub u8);

impl SmCode {
    /// Pairing Request.
    pub fn pairing_request() -> (r: SmCode)
        ensures
            r == SmCode(0x01),
    {
        SmCode(0x01)
    }

    /// Pairing Response.
    pub fn pairing_response() -> (r: SmCode)
        ensures
            r == SmCode(0x02),
    {
        SmCode(0x02)
    }

    /// Pairing Confirm.
    pub fn pairing_confirm() -> (r: SmCode)
        ensures
            r == SmCode(0x03),
    {
        SmCode(0x03)
    }

    /// Pairing Random.
    pub fn pairing_random() -> (r: SmCode)
        ensures
            r == SmCode(0x04),
    {
        SmCode(0x04)
    }

    /// Pairing Failed.
    pub fn pairing_failed() -> (r: SmCode)
        ensures
            r == SmCode(0x05),
    {
        SmCode(0x05)
    }

    /// Encryption Information.
    pub fn encryption_information() -> (r: SmCode)
        ensures
            r == SmCode(0x06),
    {
        SmCode(0x06)
    }

    /// Central Identification.
    pub fn central_identification() -> (r: SmCode)
        ensures
            r == SmCode(0x07),
    {
        SmCode(0x07)
    }

    /// Identity Information.
    pub fn identity_information() -> (r: SmCode)
        ensures
            r == SmCode(0x08),
    {
        SmCode(0x08)
    }

    /// Identity Address Information.
    pub fn identity_address_information() -> (r: SmCode)
        ensures
            r == SmCode(0x09),
    {
        SmCode(0x09)
    }

    /// Signing Information.
    pub fn signing_information() -> (r: SmCode)
        ensures
            r == SmCode(0x0a),
    {
        SmCode(0x0a)
    }

    /// Security Request.
    pub fn security_request() -> (r: SmCode)
        ensures
            r == SmCode(0x0b),
    {
        SmCode(0x0b)
    }

    /// Pairing Public Key.
    pub fn pairing_public_key() -> (r: SmCode)
        ensures
            r == SmCode(0x0c),
    {
        SmCode(0x0c)
    }

    /// Pairing DHKey Check.
    pub fn pairing_dhkey_check() -> (r: SmCode)
        ensures
            r == SmCode(0x0d),
    {
        SmCode(0x0d)
    }

    /// Pairing Keypress Notification.
    pub fn pairing_keypress_notification() -> (r: SmCode)
        ensures
            r == SmCode(0x0e),
    {
        SmCode(0x0e)
    }

    /// The wire value of this code.
    pub fn as_u8(&self) -> (r: u8)
        ensures
            r == self.0,
    {
        self.0
    }

    /// The code whose wire value is `byte`.
    pub fn from_u8(byte: u8) -> (r: Self)
        ensures
            r == SmCode(byte),
    {
        SmCode(byte)
    }
}

/// The data of a Security Manager command of a fixed code and length.
pub trait SmCommandData: Sized {
    /// The code that identifies the commands that carry this data.
    spec fn spec_code() -> u8;

    /// The length of the data on the wire, in bytes.
    spec fn spec_len() -> nat;

    /// The wire bytes of the data.
    spec fn spec_data_bytes(&self) -> Seq<u8>;

    /// The wire bytes have the fixed length, and different data have different bytes.
    proof fn lemma_data_bytes(a: Self, b: Self)
        ensures
            a.spec_data_bytes().len() == Self::spec_len(),
            a.spec_data_bytes() == b.spec_data_bytes() ==> a == b,
    ;

    /// The code that identifies the commands that carry this data.
    fn code() -> (c: SmCode)
        ensures
            c == SmCode(Self::spec_code()),
    ;

    /// The wire bytes of the data.
    fn data_bytes(&self) -> (r: Vec<u8>)
        ensures
            r@ == self.spec_data_bytes(),
    ;

    /// Decodes the data from exactly its wire length of bytes; any other length gives `None`.
    fn from_data_slice(slice: &[u8]) -> (r: Option<Self>)
        ensures
            r is Some <==> slice@.len() == Self::spec_len(),
            r matches Some(v) ==> v.spec_data_bytes() == slice@,
    ;
}

/// A Security Manager command: a code and the data that follows it.
#[derive(Debug, Clone, Copy)]
pub struct SmCommand<D> {
    pub code: SmCode,
    pub data: D,
}

impl<D: SmCommandData> SmCommand<D> {
    /// The wire bytes of the command: its code, then its data.
    pub open spec fn spec_bytes(self) -> Seq<u8> {
        seq![self.code.0] + self.data.spec_data_bytes()
    }

    /// The command that carries `data`, with the code of its kind.
    pub fn new(data: D) -> (r: Self)
        ensures
            r.code == SmCode(D::spec_code()),
            r.data == data,
    {
        Self { code: D::code(), data }
    }

    /// The wire bytes of the command.
    pub fn to_bytes(&self) -> (r: Vec<u8>)
        ensures
            r@ == self.spec_bytes(),
    {
        let mut v = Vec::new();
        v.push(self.code.0);
        let d = self.data.data_bytes();
        crate::bytes::push_bytes(&mut v, d.as_slice());
        v
    }

    /// Decodes a command from its wire bytes, checking both the code and the length.
    pub fn try_from_slice(slice: &[u8]) -> (r: Option<Self>)
        ensures
            r is Some <==> (slice@.len() == 1 + D::spec_len() && slice@[0] == D::spec_code()),
            r matches Some(c) ==> c.spec_bytes() == slice@,
    {
        if slice.len() == 0 {
            return None;
        }
        let code = slice[0];
        if code != D::code().0 {
            return None;
        }
        let data = vstd::slice::slice_subrange(slice, 1, slice.len());
        let r = Self::try_from_data_slice(data);
        assert(slice@ =~= seq![code] + data@);
        r
    }

    /// Decodes a command from the wire bytes of its data alone, which carry no code;
    /// only the length is checked, and the command gets the code of its kind.
    pub fn try_from_data_slice(slice: &[u8]) -> (r: Option<Self>)
        ensures
            r is Some <==> slice@.len() == D::spec_len(),
            r matches Some(c) ==> c.code == SmCode(D::spec_code()) && c.data.spec_data_bytes()
                == slice@,
    {
        match D::from_data_slice(slice) {
            Some(data) => Some(Self::new(data)),
            None => None,
        }
    }
}

/// Two commands with the same wire bytes are the same command, so decoding the bytes of
/// a command gives that command back.
pub proof fn lemma_command_bytes_injective<D: SmCommandData>(a: SmCommand<D>, b: SmCommand<D>)
    requires
        a.spec_bytes() == b.spec_bytes(),
    ensures
        a == b,
{
    assert(a.spec_bytes()[0] == a.code.0);
    assert(b.spec_bytes()[0] == b.code.0);
    assert(a.data.spec_data_bytes() =~= a.spec_bytes().drop_first());
    assert(b.data.spec_data_bytes() =~= b.spec_bytes().drop_first());
    D::lemma_data_bytes(a.data, b.data);
}

} // verus!
