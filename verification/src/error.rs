//! Errors of the host and the reasons for which the Security Manager fails a pairing.
use vstd::prelude::*;

verus! {

/// Reasons for which the Security Manager fails a pairing. Each one is carried on the
/// wire by a Pairing Failed command whose reason code is given by [`reason_code`].
#[derive(Debug, Clone, Copy, PartialEq, Eq, Structural)]
pub enum SecurityManagerError {
    PasskeyEntryFailed,
    OobNotAvailable,
    AuthenticationRequirements,
    ConfirmValueFailed,
    PairingNotSupported,
    EncryptionKeySize,
    CommandNotSupported,
    UnspecifiedReason,
    RepeatedAttempts,
    InvalidParameters,
    DHKeyCheckFailed,
    NumericComparisonFailed,
    BrEdrPairingInProgress,
    GenerationNotAllowed,
    KeyRejected,
}

/// The Pairing Failed reason code of an error: the errors are numbered from 1 in the
/// order in which they are declared.
pub open spec fn reason_code(e: SecurityManagerError) -> u8 {
    match e {
        SecurityManagerError::PasskeyEntryFailed => 0x01,
        SecurityManagerError::OobNotAvailable => 0x02,
        SecurityManagerError::AuthenticationRequirements => 0x03,
        SecurityManagerError::ConfirmValueFailed => 0x04,
        SecurityManagerError::PairingNotSupported => 0x05,
        SecurityManagerError::EncryptionKeySize => 0x06,
        SecurityManagerError::CommandNotSupported => 0x07,
        SecurityManagerError::UnspecifiedReason => 0x08,
        SecurityManagerError::RepeatedAttempts => 0x09,
        SecurityManagerError::InvalidParameters => 0x0a,
        SecurityManagerError::DHKeyCheckFailed => 0x0b,
        SecurityManagerError::NumericComparisonFailed => 0x0c,
        SecurityManagerError::BrEdrPairingInProgress => 0x0d,
        SecurityManagerError::GenerationNotAllowed => 0x0e,
        SecurityManagerError::KeyRejected => 0x0f,
    }
}

impl SecurityManagerError {
    /// The Pairing Failed reason code that carries this error.
    pub fn as_u8(&self) -> (r: u8)
        ensures
            r == reason_code(*self),
    {
        match self {
            SecurityManagerError::PasskeyEntryFailed => 0x01,
            SecurityManagerError::OobNotAvailable => 0x02,
            SecurityManagerError::AuthenticationRequirements => 0x03,
            SecurityManagerError::ConfirmValueFailed => 0x04,
            SecurityManagerError::PairingNotSupported => 0x05,
            SecurityManagerError::EncryptionKeySize => 0x06,
            SecurityManagerError::CommandNotSupported => 0x07,
            SecurityManagerError::UnspecifiedReason => 0x08,
            SecurityManagerError::RepeatedAttempts => 0x09,
            SecurityManagerError::InvalidParameters => 0x0a,
            SecurityManagerError::DHKeyCheckFailed => 0x0b,
            SecurityManagerError::NumericComparisonFailed => 0x0c,
            SecurityManagerError::BrEdrPairingInProgress => 0x0d,
            SecurityManagerError::GenerationNotAllowed => 0x0e,
            SecurityManagerError::KeyRejected => 0x0f,
        }
    }
}

/// Two errors with the same reason code are the same error.
pub proof fn lemma_reason_code_injective(a: SecurityManagerError, b: SecurityManagerError)
    ensures
        reason_code(a) == reason_code(b) ==> a == b,
{
}

/// The reason code of each error is the one that the Security Manager specification
/// assigns to the Pairing Failed reason of the same name, 0x01 to 0x0f in the order in
/// which the reasons are listed: Passkey Entry Failed is 0x01, Confirm Value Failed 0x04,
/// Unspecified Reason 0x08, DHKey Check Failed 0x0b, Numeric Comparison Failed 0x0c, Key
/// Rejected 0x0f.
pub proof fn lemma_reason_codes(e: SecurityManagerError)
    ensures
        1 <= reason_code(e) <= 15,
        e == SecurityManagerError::PasskeyEntryFailed <==> reason_code(e) == 0x01,
        e == SecurityManagerError::OobNotAvailable <==> reason_code(e) == 0x02,
        e == SecurityManagerError::AuthenticationRequirements <==> reason_code(e) == 0x03,
        e == SecurityManagerError::ConfirmValueFailed <==> reason_code(e) == 0x04,
        e == SecurityManagerError::PairingNotSupported <==> reason_code(e) == 0x05,
        e == SecurityManagerError::EncryptionKeySize <==> reason_code(e) == 0x06,
        e == SecurityManagerError::CommandNotSupported <==> reason_code(e) == 0x07,
        e == SecurityManagerError::UnspecifiedReason <==> reason_code(e) == 0x08,
        e == SecurityManagerError::RepeatedAttempts <==> reason_code(e) == 0x09,
        e == SecurityManagerError::InvalidParameters <==> reason_code(e) == 0x0a,
        e == SecurityManagerError::DHKeyCheckFailed <==> reason_code(e) == 0x0b,
        e == SecurityManagerError::NumericComparisonFailed <==> reason_code(e) == 0x0c,
        e == SecurityManagerError::BrEdrPairingInProgress <==> reason_code(e) == 0x0d,
        e == SecurityManagerError::GenerationNotAllowed <==> reason_code(e) == 0x0e,
        e == SecurityManagerError::KeyRejected <==> reason_code(e) == 0x0f,
{
}

/// Errors of the host.
#[derive(Debug, Clone, Copy, PartialEq, Eq, Structural)]
pub enum Error {
    /// A received value could not be decoded or was not expected.
    InvalidValue,
    /// No buffer or queue space was left to send a packet.
    OutOfMemory,
    /// Any other failure, such as a packet that does not fit its buffer.
    Other,
    /// The Security Manager failed the pairing for the given reason.
    Security(SecurityManagerError),
}

impl From<SecurityManagerError> for Error {
    fn from(e: SecurityManagerError) -> (r: Error) {
        Error::Security(e)
    }
}

impl vstd::std_specs::convert::FromSpecImpl<SecurityManagerError> for Error {
    open spec fn obeys_from_spec() -> bool {
        true
    }

    open spec fn from_spec(e: SecurityManagerError) -> Error {
        Error::Security(e)
    }
}

} // verus!
