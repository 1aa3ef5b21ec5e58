//! The Pairing Failed command and its reason codes.
use vstd::prelude::*;

use super::SmCommandData;

verus! {

/// The data of a Pairing Failed command: the reason code.
#[derive(Debug, Clone, Copy, PartialEq, Eq, Structural)]
pub struct PairingFailed(pub u8);

impl PairingFailed {
    /// The user input of passkey failed, for example, the user cancelled the operation.
    pub fn passkey_entry_failed() -> (r: Self)
        ensures
            r == PairingFailed(0x01),
    {
        Self(0x01)
    }

    /// The OOB data is not available.
    pub fn oob_not_available() -> (r: Self)
        ensures
            r == PairingFailed(0x02),
    {
        Self(0x02)
    }

    /// The pairing procedure cannot be performed as authentication requirements cannot be met due
    /// to IO capabilities of one or both devices.
    pub fn authentication_requirements() -> (r: Self)
        ensures
            r == PairingFailed(0x03),
    {
        Self(0x03)
    }

    /// The confirm value does not match the calculated compare value.
    pub fn confirm_value_failed() -> (r: Self)
        ensures
            r == PairingFailed(0x04),
    {
        Self(0x04)
    }

    /// Pairing is not supported by the device.
    pub fn pairing_not_supported() -> (r: Self)
        ensures
            r == PairingFailed(0x05),
    {
        Self(0x05)
    }

    /// The resultant encryption key size is not long enough for the security requirements of this
    /// device.
    pub fn encryption_key_size() -> (r: Self)
        ensures
            r == PairingFailed(0x06),
    {
        Self(0x06)
    }

    /// The SMP command received is not supported on this device.
    pub fn command_not_supported() -> (r: Self)
        ensures
            r == PairingFailed(0x07),
    {
        Self(0x07)
    }

    /// Pairing failed due to an unspecified reason.
    pub fn unspecified_reason() -> (r: Self)
        ensures
            r == PairingFailed(0x08),
    {
        Self(0x08)
    }

    /// Pairing or authentication procedure is disallowed because too little time has elapsed since
    /// last pairing request or security request.
    pub fn repeated_attempts() -> (r: Self)
        ensures
            r == PairingFailed(0x09),
    {
        Self(0x09)
    }

    /// The Invalid Parameters error code indicates that the command length is invalid or that a
    /// parameter is outside of the specified range.
    pub fn invalid_parameters() -> (r: Self)
        ensures
            r == PairingFailed(0x0a),
    {
        Self(0x0a)
    }

    /// Indicates to the remote device that the DHKey Check value received doesn't match the one
    /// calculated by the local device.
    pub fn dhkey_check_failed() -> (r: Self)
        ensures
            r == PairingFailed(0x0b),
    {
        Self(0x0b)
    }

    /// Indicates that the confirm values in the numeric comparison protocol do not match.
    pub fn numeric_comparison_failed() -> (r: Self)
        ensures
            r == PairingFailed(0x0c),
    {
        Self(0x0c)
    }

    /// Indicates that the pairing over the LE transport failed due to a Pairing Request sent over
    /// the BR/EDR transport in progress.
    pub fn br_edr_pairing_in_progress() -> (r: Self)
        ensures
            r == PairingFailed(0x0d),
    {
        Self(0x0d)
    }

    /// Indicates that the BR/EDR Link Key generated on the BR/EDR transport cannot be used to
    /// derive and distribute keys for the LE transport or the LE LTK generated on the LE transport
    /// cannot be used to derive a key for the BR/EDR transport.
    pub fn cross_transport_key_derivation_generation_not_allowed() -> (r: Self)
        ensures
            r == PairingFailed(0x0e),
    {
        Self(0x0e)
    }

    /// Indicates that the device chose not to accept a distributed key.
    pub fn key_rejected() -> (r: Self)
        ensures
            r == PairingFailed(0x0f),
    {
        Self(0x0f)
    }

    /// The wire value of this reason.
    pub fn as_u8(&self) -> (r: u8)
        ensures
            r == self.0,
    {
        self.0
    }

    /// The reason whose wire value is `byte`.
    pub fn from_u8(byte: u8) -> (r: Self)
        ensures
            r == PairingFailed(byte),
    {
        Self(byte)
    }

    /// Decodes a reason from exactly one byte; any other length gives `None`.
    pub fn try_from_slice(slice: &[u8]) -> (r: Option<Self>)
        ensures
            r is Some <==> slice@.len() == 1,
            r matches Some(v) ==> v == PairingFailed(slice@[0]),
    {
        if slice.len() == 1 {
            Some(Self::from_u8(slice[0]))
        } else {
            None
        }
    }
}

impl SmCommandData for PairingFailed {
    open spec fn spec_code() -> u8 {
        0x05
    }

    open spec fn spec_len() -> nat {
        1
    }

    open spec fn spec_data_bytes(&self) -> Seq<u8> {
        seq![self.0]
    }

    proof fn lemma_data_bytes(a: Self, b: Self) {
        if seq![a.0] == seq![b.0] {
            assert(seq![a.0][0] == seq![b.0][0]);
        }
    }

    fn code() -> (c: super::SmCode) {
        super::SmCode::pairing_failed()
    }

    fn data_bytes(&self) -> (r: Vec<u8>) {
        let mut v = Vec::new();
        v.push(self.0);
        assert(v@ =~= seq![self.0]);
        v
    }

    fn from_data_slice(slice: &[u8]) -> (r: Option<Self>) {
        let r = Self::try_from_slice(slice);
        proof {
            if slice@.len() == 1 {
                assert(slice@ =~= seq![slice@[0]]);
            }
        }
        r
    }
}

} // verus!
