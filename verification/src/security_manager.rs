//! The Security Manager: the responder side of LE Secure Connections pairing.
//!
//! The pairing logic is a state machine. [`SecurityManager::receive`] takes a Security
//! Manager PDU from the peer and [`SecurityManager::resume`] takes the outcome of the
//! last requested action; each returns the next [`SmAction`]: a command to send, a
//! cryptographic value to produce, or the end of the exchange with its result. The
//! caller performs each action and answers with the matching [`SmEvent`] until the
//! action is [`SmAction::Done`].
use vstd::prelude::*;

pub mod laws;
pub mod types;

use crate::bytes::{array_from_slice, le_bytes, le_value, u128_from_le_bytes, u128_to_le_bytes};
use crate::error::{reason_code, Error, SecurityManagerError};
use crate::slice_write::write_all_at;
use types::{
    AuthReq, IoCapability, OobDataFlag, PairingConfirm, PairingDhKeyCheck, PairingFailed,
    PairingPublicKey, PairingRandom, PairingRequest, PairingResponse, SmCode, SmCommand,
};

verus! {

/// The L2CAP channel of the Security Manager.
pub const L2CAP_CID_SM: u16 = 0x0006;

/// The basic L2CAP header of a frame whose payload is `len` bytes long on the Security
/// Manager channel: the payload length, then the channel, each as two little-endian bytes.
pub open spec fn sm_l2cap_header(len: nat) -> Seq<u8> {
    seq![(len % 256) as u8, (len / 256) as u8, (L2CAP_CID_SM % 256) as u8, (L2CAP_CID_SM / 256) as u8]
}

/// Frames the Security Manager command `data` for L2CAP into `target`: the basic header,
/// then the command. Returns the number of bytes written. A command longer than an L2CAP
/// length can say, or a frame that does not fit `target`, is refused with
/// `Error::Other`; in the second case `target` holds as much of the frame as fits.
pub fn encode_sm_data(data: &[u8], target: &mut [u8]) -> (r: Result<usize, Error>)
    ensures
        final(target)@.len() == old(target)@.len(),
        data@.len() > 0xffff ==> r == Err::<usize, Error>(Error::Other) && final(target)@ == old(
            target,
        )@,
        data@.len() <= 0xffff && 4 + data@.len() <= old(target)@.len() ==> r == Ok::<
            usize,
            Error,
        >((4 + data@.len()) as usize) && final(target)@ == sm_l2cap_header(data@.len()) + data@
            + old(target)@.subrange(4 + data@.len() as int, old(target)@.len() as int),
        data@.len() <= 0xffff && 4 + data@.len() > old(target)@.len() ==> r == Err::<
            usize,
            Error,
        >(Error::Other) && final(target)@ == (sm_l2cap_header(data@.len()) + data@).subrange(
            0,
            old(target)@.len() as int,
        ),
{
    let ghost t0 = target@;
    let len = data.len();
    if len > 0xffff {
        return Err(Error::Other);
    }
    let length = len as u16;
    let header: [u8; 4] = [
        (length % 256) as u8,
        (length / 256) as u8,
        (L2CAP_CID_SM % 256) as u8,
        (L2CAP_CID_SM / 256) as u8,
    ];
    assert(header@ =~= sm_l2cap_header(len as nat));
    let ghost frame = sm_l2cap_header(len as nat) + data@;
    match write_all_at(target, 0, &header) {
        Ok(()) => {},
        Err(_) => {
            assert(target@ =~= frame.subrange(0, t0.len() as int));
            return Err(Error::Other);
        },
    }
    match write_all_at(target, 4, data) {
        Ok(()) => {
            assert(target@ =~= sm_l2cap_header(len as nat) + data@ + t0.subrange(
                4 + len,
                t0.len() as int,
            ));
            Ok(4 + len)
        },
        Err(_) => {
            assert(target@ =~= frame.subrange(0, t0.len() as int));
            Err(Error::Other)
        },
    }
}

/// A device address: its type and its six bytes, least significant first.
#[derive(Debug, Clone, Copy)]
pub struct Address {
    pub kind: u8,
    pub addr: [u8; 6],
}

/// A P-256 public key: its two coordinates, each least significant byte first.
#[derive(Debug, Clone, Copy)]
pub struct PublicKey {
    pub x: [u8; 32],
    pub y: [u8; 32],
}

/// A P-256 secret key, least significant byte first. It has no `Debug`, so that no log
/// shows it; neither have the types that hold one.
#[derive(Clone, Copy)]
pub struct SecretKey(pub [u8; 32]);

/// A Diffie-Hellman shared secret, least significant byte first.
#[derive(Clone, Copy)]
pub struct DhKey(pub [u8; 32]);

/// The I/O capabilities of a device as the check function f6 takes them.
#[derive(Debug, Clone, Copy)]
pub struct IoCap {
    pub auth_req: u8,
    pub oob_data: bool,
    pub io_capability: u8,
}

/// The keys of a pairing once both public keys are exchanged.
#[derive(Clone, Copy)]
pub struct PeerKeyData {
    /// Their public key.
    pub pka: PublicKey,
    /// Our public key.
    pub pkb: PublicKey,
    /// Our secret key.
    pub skb: SecretKey,
    /// Our confirm value.
    pub confirm: u128,
    /// Our nonce.
    pub nb: u128,
    /// The shared secret.
    pub dh_key: DhKey,
}

/// How far a pairing has come.
#[derive(Clone, Copy)]
pub enum PairingState {
    /// No pairing has been initiated.
    NoPairing,
    /// Pairing Step 1. We've received a Pairing Request.
    ReceivedPairingRequest {
        /// Contains data received from the peer who initiated the peering.
        pairing_request: PairingRequest,
    },
    /// Pairing Step 2. We've received a Pairing Public Key.
    ReceivedPublicKey {
        /// Contains data received from the peer who initiated the peering.
        pairing_request: PairingRequest,
        keys: PeerKeyData,
    },
    /// Pairing Step 3. We've received a Pairing Random.
    ReceivedRandomData {
        pairing_request: PairingRequest,
        keys: PeerKeyData,
        mac_key: u128,
        ltk: u128,
        eb: u128,
        na: u128,
    },
    /// We are paired.
    Paired {},
}

/// The name of a pairing state as its `Debug` form shows it: the data a state holds is
/// shown as `(..)`.
pub open spec fn state_name(p: PairingState) -> Seq<char> {
    match p {
        PairingState::NoPairing => "None"@,
        PairingState::ReceivedPairingRequest { .. } => "ReceivedPairingRequest(..)"@,
        PairingState::ReceivedPublicKey { .. } => "ReceivedPublicKey(..)"@,
        PairingState::ReceivedRandomData { .. } => "ReceivedRandomData(..)"@,
        PairingState::Paired {  } => "Paired(..)"@,
    }
}

impl PairingState {
    /// The name of the state, for logs; the keys and values it holds are not shown.
    pub fn name(&self) -> (r: &'static str)
        ensures
            r@ == state_name(*self),
    {
        match self {
            PairingState::NoPairing => "None",
            PairingState::ReceivedPairingRequest { .. } => "ReceivedPairingRequest(..)",
            PairingState::ReceivedPublicKey { .. } => "ReceivedPublicKey(..)",
            PairingState::ReceivedRandomData { .. } => "ReceivedRandomData(..)",
            PairingState::Paired {  } => "Paired(..)",
        }
    }

    /// Takes the state out, leaving `None` behind.
    pub fn take(&mut self) -> (r: Self)
        ensures
            r == *old(self),
            *final(self) == PairingState::NoPairing,
    {
        let mut take = PairingState::NoPairing;
        core::mem::swap(self, &mut take);
        take
    }
}

/// A command that the Security Manager sends, by what it carries.
#[derive(Debug, Clone, Copy)]
pub enum Outgoing {
    /// A Pairing Response.
    Response(PairingResponse),
    /// A Pairing Public Key with our public key.
    PublicKey(PublicKey),
    /// A Pairing Confirm with our confirm value.
    Confirm(u128),
    /// A Pairing Random with our nonce.
    Random(u128),
    /// A Pairing Failed with its reason.
    Failed(PairingFailed),
    /// A Pairing DHKey Check with our check value.
    DhKeyCheck(u128),
}

impl Outgoing {
    /// The wire bytes of the command: its code, then its data, 128-bit values least
    /// significant byte first.
    pub open spec fn spec_bytes(self) -> Seq<u8> {
        match self {
            Outgoing::Response(r) => seq![0x02u8] + r.spec_bytes(),
            Outgoing::PublicKey(k) => seq![0x0cu8] + k.x@ + k.y@,
            Outgoing::Confirm(c) => seq![0x03u8] + le_bytes(c as nat, 16),
            Outgoing::Random(n) => seq![0x04u8] + le_bytes(n as nat, 16),
            Outgoing::Failed(f) => seq![0x05u8, f.0],
            Outgoing::DhKeyCheck(e) => seq![0x0du8] + le_bytes(e as nat, 16),
        }
    }

    /// The wire bytes of the command.
    pub fn to_bytes(&self) -> (r: Vec<u8>)
        ensures
            r@ == self.spec_bytes(),
    {
        match *self {
            Outgoing::Response(r) => SmCommand::new(r).to_bytes(),
            Outgoing::PublicKey(k) => SmCommand::new(
                PairingPublicKey { public_key_x: k.x, public_key_y: k.y },
            ).to_bytes(),
            Outgoing::Confirm(c) => SmCommand::new(PairingConfirm(u128_to_le_bytes(c))).to_bytes(),
            Outgoing::Random(n) => SmCommand::new(PairingRandom(u128_to_le_bytes(n))).to_bytes(),
            Outgoing::Failed(f) => SmCommand::new(f).to_bytes(),
            Outgoing::DhKeyCheck(e) => SmCommand::new(
                PairingDhKeyCheck { dhkey_check: u128_to_le_bytes(e) },
            ).to_bytes(),
        }
    }
}

/// What the Security Manager asks of its caller next.
#[derive(Clone, Copy)]
pub enum SmAction {
    /// Send the command to the peer; answer `Sent` or `SendFailed`.
    Send(Outgoing),
    /// Generate a fresh P-256 key pair; answer `KeyPairGenerated`.
    GenerateKeyPair,
    /// Compute the Diffie-Hellman key of `secret` and the peer's key `peer`, or find that
    /// `peer` is not a valid key; answer `DhKeyComputed`.
    ComputeDhKey { secret: SecretKey, peer: PublicKey },
    /// Generate a fresh 128-bit nonce; answer `NonceGenerated`.
    GenerateNonce,
    /// Compute the confirm value f4(u, v, x, z); answer `ConfirmComputed`.
    ComputeConfirm { u: [u8; 32], v: [u8; 32], x: u128, z: u8 },
    /// Compute the MAC key and long term key f5(dh_key, n1, n2, a1, a2); answer `KeysDerived`.
    DeriveKeys { dh_key: DhKey, n1: u128, n2: u128, a1: Address, a2: Address },
    /// Compute the check value f6(mac_key, n1, n2, r, io_cap, a1, a2); answer `CheckComputed`.
    ComputeCheck {
        mac_key: u128,
        n1: u128,
        n2: u128,
        r: u128,
        io_cap: IoCap,
        a1: Address,
        a2: Address,
    },
    /// The handling of the received PDU is over, with this result.
    Done(Result<(), Error>),
}

/// The outcome of the last action, handed back to the Security Manager.
#[derive(Clone, Copy)]
pub enum SmEvent {
    /// The command was sent.
    Sent,
    /// The command could not be sent.
    SendFailed(Error),
    /// A fresh key pair.
    KeyPairGenerated { secret: SecretKey, public: PublicKey },
    /// The Diffie-Hellman key, or `None` when the peer's key was rejected.
    DhKeyComputed(Option<DhKey>),
    /// A fresh nonce.
    NonceGenerated(u128),
    /// The confirm value.
    ConfirmComputed(u128),
    /// The MAC key and the long term key.
    KeysDerived { mac_key: u128, ltk: u128 },
    /// The check value.
    CheckComputed(u128),
}

/// Where the handling of a received PDU stands between two actions.
#[derive(Clone, Copy)]
pub enum Pending {
    /// No PDU is being handled.
    Idle,
    /// A Pairing Failed is being sent; the handling then fails with `error`.
    Failing { error: SecurityManagerError },
    /// The Pairing Response is being sent.
    Responding { pairing_request: PairingRequest },
    /// Our key pair is being generated.
    KeyPair { pairing_request: PairingRequest, pka: PublicKey },
    /// Our public key is being sent.
    PublicKeySent {
        pairing_request: PairingRequest,
        pka: PublicKey,
        skb: SecretKey,
        pkb: PublicKey,
    },
    /// The Diffie-Hellman key is being computed.
    DhKey { pairing_request: PairingRequest, pka: PublicKey, skb: SecretKey, pkb: PublicKey },
    /// Our nonce is being generated.
    Nonce {
        pairing_request: PairingRequest,
        pka: PublicKey,
        skb: SecretKey,
        pkb: PublicKey,
        dh_key: DhKey,
    },
    /// Our confirm value is being computed.
    Confirm {
        pairing_request: PairingRequest,
        pka: PublicKey,
        skb: SecretKey,
        pkb: PublicKey,
        dh_key: DhKey,
        nb: u128,
    },
    /// Our confirm value is being sent.
    Confirming { pairing_request: PairingRequest, keys: PeerKeyData },
    /// Our nonce is being sent.
    RandomSent {
        pairing_request: PairingRequest,
        keys: PeerKeyData,
        na: u128,
        local: Address,
        peer: Address,
    },
    /// The MAC key and long term key are being derived.
    KeysDerived {
        pairing_request: PairingRequest,
        keys: PeerKeyData,
        na: u128,
        local: Address,
        peer: Address,
    },
    /// Our check value is being computed.
    LocalCheck {
        pairing_request: PairingRequest,
        keys: PeerKeyData,
        na: u128,
        mac_key: u128,
        ltk: u128,
    },
    /// The check value expected from the peer is being computed; `ea` is the value
    /// received, or `None` when it was not 16 bytes long.
    RemoteCheck { ea: Option<u128>, eb: u128 },
    /// Our check value is being sent.
    Checking,
}

/// The Security Manager of a connection.
pub struct SecurityManager {
    /// The I/O capability of this device. For example whether it has a display/keyboard.
    io_capability: IoCapability,
    pairing: PairingState,
    pending: Pending,
}

/// What a Security Manager holds.
pub struct SecurityManagerView {
    pub io_capability: IoCapability,
    pub pairing: PairingState,
    pub pending: Pending,
}

impl View for SecurityManager {
    type V = SecurityManagerView;

    closed spec fn view(&self) -> SecurityManagerView {
        SecurityManagerView {
            io_capability: self.io_capability,
            pairing: self.pairing,
            pending: self.pending,
        }
    }
}

/// The authentication requirements that this device states: bonding, MITM protection,
/// LE Secure Connections and CT2, without keypress notifications.
pub open spec fn local_auth_req() -> AuthReq {
    AuthReq(0x2d)
}

/// Builds the authentication requirements that this device states.
pub fn make_auth_req() -> (r: AuthReq)
    ensures
        r == local_auth_req(),
        r.spec_bonding_flags() == 1,
        r.spec_mitm(),
        r.spec_sc(),
        !r.spec_keypress(),
        r.spec_ct2(),
        r.spec_rfu() == 0,
{
    let r = AuthReq::new().with_bonding_flags(1).with_mitm(true).with_sc(true).with_keypress(
        false,
    ).with_ct2(true);
    assert(((((((0u8 & 0xfc) | 1u8) | 0x04u8) | 0x08u8) & 0xefu8) | 0x20u8) == 0x2du8)
        by (bit_vector);
    r
}

/// The Pairing Response that a device of I/O capability `io` answers a request with.
pub open spec fn response_for(io: IoCapability) -> PairingResponse {
    PairingResponse {
        io_capability: io,
        oob_data_flag: OobDataFlag(0x00),
        auth_req: local_auth_req(),
        maximum_encryption_key_size: 0x10,
        initiator_key_distribution: 0,
        responder_key_distribution: 0,
    }
}

/// The Security Manager with state `sm` after it has moved to pairing state `pairing` and
/// ended the handling of a PDU with `result`.
pub open spec fn done(sm: SecurityManagerView, pairing: PairingState, result: Result<(), Error>) -> (
    SecurityManagerView,
    SmAction,
) {
    (
        SecurityManagerView { io_capability: sm.io_capability, pairing, pending: Pending::Idle },
        SmAction::Done(result),
    )
}

/// The Security Manager with state `sm` after it has moved to pairing state `pairing` and
/// started to answer with a Pairing Failed for `error`.
pub open spec fn failing(
    sm: SecurityManagerView,
    pairing: PairingState,
    error: SecurityManagerError,
) -> (SecurityManagerView, SmAction) {
    (
        SecurityManagerView {
            io_capability: sm.io_capability,
            pairing,
            pending: Pending::Failing { error },
        },
        SmAction::Send(Outgoing::Failed(PairingFailed(reason_code(error)))),
    )
}

/// The Security Manager with state `sm` after it has moved to pairing state `pairing` and
/// to the point `pending`, asking for `action`.
pub open spec fn next(
    sm: SecurityManagerView,
    pairing: PairingState,
    pending: Pending,
    action: SmAction,
) -> (SecurityManagerView, SmAction) {
    (SecurityManagerView { io_capability: sm.io_capability, pairing, pending }, action)
}

/// A Pairing Request with data `data`.
pub open spec fn on_pairing_request(sm: SecurityManagerView, data: Seq<u8>) -> (
    SecurityManagerView,
    SmAction,
) {
    if data.len() != 6 {
        done(sm, sm.pairing, Err(Error::InvalidValue))
    } else if sm.pairing is NoPairing {
        next(
            sm,
            sm.pairing,
            Pending::Responding { pairing_request: PairingRequest::spec_from_bytes(data) },
            SmAction::Send(Outgoing::Response(response_for(sm.io_capability))),
        )
    } else {
        failing(sm, sm.pairing, SecurityManagerError::UnspecifiedReason)
    }
}

/// A Pairing Public Key with data `data`. A key that is not 64 bytes long is answered
/// with a Pairing Failed for an unspecified reason, and the pairing stays as it was.
pub open spec fn on_pairing_public_key(
    sm: SecurityManagerView,
    data: Seq<u8>,
    post: SecurityManagerView,
    action: SmAction,
) -> bool {
    if data.len() != 64 {
        (post, action) == failing(sm, sm.pairing, SecurityManagerError::UnspecifiedReason)
    } else {
    match sm.pairing {
        PairingState::ReceivedPairingRequest { pairing_request } => {
            &&& post.io_capability == sm.io_capability
            &&& post.pairing == PairingState::NoPairing
            &&& action == SmAction::GenerateKeyPair
            &&& post.pending matches Pending::KeyPair { pairing_request: r, pka }
            &&& r == pairing_request
            &&& pka.x@ == data.subrange(0, 32)
            &&& pka.y@ == data.subrange(32, 64)
        },
        _ => (post, action) == failing(
            sm,
            PairingState::NoPairing,
            SecurityManagerError::UnspecifiedReason,
        ),
    }
    }
}

/// A Pairing Random with data `data`.
pub open spec fn on_pairing_random(
    sm: SecurityManagerView,
    data: Seq<u8>,
    local: Address,
    peer: Address,
) -> (SecurityManagerView, SmAction) {
    if data.len() != 16 {
        done(sm, sm.pairing, Err(Error::InvalidValue))
    } else {
        match sm.pairing {
            PairingState::ReceivedPublicKey { pairing_request, keys } => next(
                sm,
                PairingState::NoPairing,
                Pending::RandomSent {
                    pairing_request,
                    keys,
                    na: le_value(data) as u128,
                    local,
                    peer,
                },
                SmAction::Send(Outgoing::Random(keys.nb)),
            ),
            _ => failing(sm, PairingState::NoPairing, SecurityManagerError::UnspecifiedReason),
        }
    }
}

/// The I/O capabilities that the initiator stated in its Pairing Request.
pub open spec fn initiator_io_cap(r: PairingRequest) -> IoCap {
    IoCap {
        auth_req: r.auth_req,
        oob_data: r.oob_data_flag.0 != 0,
        io_capability: r.io_capability.0,
    }
}

/// The I/O capabilities that this device states.
pub open spec fn responder_io_cap(io: IoCapability) -> IoCap {
    IoCap { auth_req: local_auth_req().0, oob_data: false, io_capability: io.0 }
}

/// A Pairing DHKey Check with data `data`.
pub open spec fn on_pairing_dhkey_check(
    sm: SecurityManagerView,
    data: Seq<u8>,
    local: Address,
    peer: Address,
) -> (SecurityManagerView, SmAction) {
    match sm.pairing {
        PairingState::ReceivedRandomData { pairing_request, keys, mac_key, ltk, eb, na } => next(
            sm,
            PairingState::NoPairing,
            Pending::RemoteCheck {
                ea: if data.len() == 16 {
                    Some(le_value(data) as u128)
                } else {
                    None
                },
                eb,
            },
            SmAction::ComputeCheck {
                mac_key,
                n1: na,
                n2: keys.nb,
                r: 0,
                io_cap: initiator_io_cap(pairing_request),
                a1: peer,
                a2: local,
            },
        ),
        _ => failing(sm, PairingState::NoPairing, SecurityManagerError::UnspecifiedReason),
    }
}

/// A Pairing Failed with data `data`.
pub open spec fn on_pairing_failed(sm: SecurityManagerView, data: Seq<u8>) -> (
    SecurityManagerView,
    SmAction,
) {
    if data.len() != 1 {
        done(sm, sm.pairing, Err(Error::InvalidValue))
    } else {
        done(sm, PairingState::NoPairing, Ok(()))
    }
}

/// What receiving the PDU `payload` does to a Security Manager in state `sm` that is not
/// handling a PDU: `post` is its state after, and `action` what it asks for.
pub open spec fn receive_spec(
    sm: SecurityManagerView,
    payload: Seq<u8>,
    local: Address,
    peer: Address,
    post: SecurityManagerView,
    action: SmAction,
) -> bool {
    if payload.len() == 0 {
        (post, action) == done(sm, sm.pairing, Err(Error::InvalidValue))
    } else {
        let code = payload[0];
        let data = payload.drop_first();
        if code == 0x01 {
            (post, action) == on_pairing_request(sm, data)
        } else if code == 0x04 {
            (post, action) == on_pairing_random(sm, data, local, peer)
        } else if code == 0x05 {
            (post, action) == on_pairing_failed(sm, data)
        } else if code == 0x0c {
            on_pairing_public_key(sm, data, post, action)
        } else if code == 0x0d {
            (post, action) == on_pairing_dhkey_check(sm, data, local, peer)
        } else {
            (post, action) == done(sm, sm.pairing, Err(Error::InvalidValue))
        }
    }
}

/// The points at which a command is being sent.
pub open spec fn is_sending(p: Pending) -> bool {
    match p {
        Pending::Failing { .. } => true,
        Pending::Responding { .. } => true,
        Pending::PublicKeySent { .. } => true,
        Pending::Confirming { .. } => true,
        Pending::RandomSent { .. } => true,
        Pending::Checking => true,
        _ => false,
    }
}

/// Whether the Security Manager, at point `p`, takes the event `e`: the outcome of the
/// action it asked for there.
pub open spec fn accepts(p: Pending, e: SmEvent) -> bool {
    match e {
        SmEvent::Sent => is_sending(p),
        SmEvent::SendFailed(_) => is_sending(p),
        SmEvent::KeyPairGenerated { .. } => p is KeyPair,
        SmEvent::DhKeyComputed(_) => p is DhKey,
        SmEvent::NonceGenerated(_) => p is Nonce,
        SmEvent::ConfirmComputed(_) => p is Confirm,
        SmEvent::KeysDerived { .. } => p is KeysDerived,
        SmEvent::CheckComputed(_) => p is LocalCheck || p is RemoteCheck,
    }
}

/// Whether the event `e` is an outcome of the action `a`.
pub open spec fn answers(a: SmAction, e: SmEvent) -> bool {
    match a {
        SmAction::Send(_) => e is Sent || e is SendFailed,
        SmAction::GenerateKeyPair => e is KeyPairGenerated,
        SmAction::ComputeDhKey { .. } => e is DhKeyComputed,
        SmAction::GenerateNonce => e is NonceGenerated,
        SmAction::ComputeConfirm { .. } => e is ConfirmComputed,
        SmAction::DeriveKeys { .. } => e is KeysDerived,
        SmAction::ComputeCheck { .. } => e is CheckComputed,
        SmAction::Done(_) => false,
    }
}

/// The point `p` fits the action `a` that was asked for there: no PDU is being handled
/// after `Done`, and every outcome of any other action is taken.
pub open spec fn fits(p: Pending, a: SmAction) -> bool {
    &&& (a is Done <==> p is Idle)
    &&& forall|e: SmEvent| #[trigger] answers(a, e) ==> accepts(p, e)
}

/// What the event `e` does to a Security Manager in state `sm` that takes it: its state
/// after, and what it asks for next.
pub open spec fn resume_spec(sm: SecurityManagerView, e: SmEvent) -> (SecurityManagerView, SmAction) {
    match (sm.pending, e) {
        (Pending::Failing { error }, SmEvent::Sent) => done(
            sm,
            sm.pairing,
            Err(Error::Security(error)),
        ),
        (Pending::Responding { pairing_request }, SmEvent::Sent) => done(
            sm,
            PairingState::ReceivedPairingRequest { pairing_request },
            Ok(()),
        ),
        (Pending::KeyPair { pairing_request, pka }, SmEvent::KeyPairGenerated { secret, public }) =>
            next(
            sm,
            sm.pairing,
            Pending::PublicKeySent { pairing_request, pka, skb: secret, pkb: public },
            SmAction::Send(Outgoing::PublicKey(public)),
        ),
        (Pending::PublicKeySent { pairing_request, pka, skb, pkb }, SmEvent::Sent) => next(
            sm,
            sm.pairing,
            Pending::DhKey { pairing_request, pka, skb, pkb },
            SmAction::ComputeDhKey { secret: skb, peer: pka },
        ),
        (Pending::DhKey { pairing_request, pka, skb, pkb }, SmEvent::DhKeyComputed(dh)) => match dh {
            Some(dh_key) => next(
                sm,
                sm.pairing,
                Pending::Nonce { pairing_request, pka, skb, pkb, dh_key },
                SmAction::GenerateNonce,
            ),
            None => failing(sm, sm.pairing, SecurityManagerError::KeyRejected),
        },
        (Pending::Nonce { pairing_request, pka, skb, pkb, dh_key }, SmEvent::NonceGenerated(nb)) =>
            next(
            sm,
            sm.pairing,
            Pending::Confirm { pairing_request, pka, skb, pkb, dh_key, nb },
            SmAction::ComputeConfirm { u: pkb.x, v: pka.x, x: nb, z: 0 },
        ),
        (
            Pending::Confirm { pairing_request, pka, skb, pkb, dh_key, nb },
            SmEvent::ConfirmComputed(confirm),
        ) => next(
            sm,
            sm.pairing,
            Pending::Confirming {
                pairing_request,
                keys: PeerKeyData { pka, pkb, skb, confirm, nb, dh_key },
            },
            SmAction::Send(Outgoing::Confirm(confirm)),
        ),
        (Pending::Confirming { pairing_request, keys }, SmEvent::Sent) => done(
            sm,
            PairingState::ReceivedPublicKey { pairing_request, keys },
            Ok(()),
        ),
        (Pending::RandomSent { pairing_request, keys, na, local, peer }, SmEvent::Sent) => next(
            sm,
            sm.pairing,
            Pending::KeysDerived { pairing_request, keys, na, local, peer },
            SmAction::DeriveKeys { dh_key: keys.dh_key, n1: na, n2: keys.nb, a1: peer, a2: local },
        ),
        (
            Pending::KeysDerived { pairing_request, keys, na, local, peer },
            SmEvent::KeysDerived { mac_key, ltk },
        ) => next(
            sm,
            sm.pairing,
            Pending::LocalCheck { pairing_request, keys, na, mac_key, ltk },
            SmAction::ComputeCheck {
                mac_key,
                n1: keys.nb,
                n2: na,
                r: 0,
                io_cap: responder_io_cap(sm.io_capability),
                a1: local,
                a2: peer,
            },
        ),
        (
            Pending::LocalCheck { pairing_request, keys, na, mac_key, ltk },
            SmEvent::CheckComputed(eb),
        ) => done(
            sm,
            PairingState::ReceivedRandomData { pairing_request, keys, mac_key, ltk, eb, na },
            Ok(()),
        ),
        (Pending::RemoteCheck { ea, eb }, SmEvent::CheckComputed(expected)) => if ea == Some(
            expected,
        ) {
            next(sm, sm.pairing, Pending::Checking, SmAction::Send(Outgoing::DhKeyCheck(eb)))
        } else {
            failing(sm, sm.pairing, SecurityManagerError::DHKeyCheckFailed)
        },
        (Pending::Checking, SmEvent::Sent) => done(sm, PairingState::Paired {  }, Ok(())),
        (_, SmEvent::SendFailed(error)) => done(sm, sm.pairing, Err(error)),
        _ => (sm, SmAction::Done(Err(Error::InvalidValue))),
    }
}

impl SecurityManager {
    /// A Security Manager of a device with a display and yes/no input, with no pairing
    /// and no PDU being handled.
    pub fn new() -> (r: Self)
        ensures
            r@ == (SecurityManagerView {
                io_capability: IoCapability(0x01),
                pairing: PairingState::NoPairing,
                pending: Pending::Idle,
            }),
    {
        Self {
            io_capability: IoCapability::display_yes_no(),
            pairing: PairingState::NoPairing,
            pending: Pending::Idle,
        }
    }

    /// The I/O capability of this device.
    pub fn io_capability(&self) -> (r: IoCapability)
        ensures
            r == self@.io_capability,
    {
        self.io_capability
    }

    /// How far the pairing has come.
    pub fn pairing_state(&self) -> (r: PairingState)
        ensures
            r == self@.pairing,
    {
        self.pairing
    }

    /// Whether no PDU is being handled, so that the next PDU can be received.
    pub fn is_idle(&self) -> (r: bool)
        ensures
            r == self@.pending is Idle,
    {
        match self.pending {
            Pending::Idle => true,
            _ => false,
        }
    }

    /// Whether the Security Manager takes the event `e` now.
    pub fn accepts(&self, e: &SmEvent) -> (r: bool)
        ensures
            r == accepts(self@.pending, *e),
    {
        let sending = match self.pending {
            Pending::Failing { .. } => true,
            Pending::Responding { .. } => true,
            Pending::PublicKeySent { .. } => true,
            Pending::Confirming { .. } => true,
            Pending::RandomSent { .. } => true,
            Pending::Checking => true,
            _ => false,
        };
        match e {
            SmEvent::Sent => sending,
            SmEvent::SendFailed(_) => sending,
            SmEvent::KeyPairGenerated { .. } => matches!(self.pending, Pending::KeyPair { .. }),
            SmEvent::DhKeyComputed(_) => matches!(self.pending, Pending::DhKey { .. }),
            SmEvent::NonceGenerated(_) => matches!(self.pending, Pending::Nonce { .. }),
            SmEvent::ConfirmComputed(_) => matches!(self.pending, Pending::Confirm { .. }),
            SmEvent::KeysDerived { .. } => matches!(self.pending, Pending::KeysDerived { .. }),
            SmEvent::CheckComputed(_) => matches!(
                self.pending,
                Pending::LocalCheck { .. } | Pending::RemoteCheck { .. }
            ),
        }
    }
}


impl SecurityManager {
    /// Receives the Security Manager PDU `payload` from the peer `peer_address`, over the
    /// connection whose local address is `local_address`, and returns what it asks for.
    /// An empty PDU, an unknown command or data of the wrong length end the handling at
    /// once with `Error::InvalidValue`; a command that does not fit the pairing state is
    /// answered with a Pairing Failed for an unspecified reason.
    pub fn receive(&mut self, payload: &[u8], local_address: Address, peer_address: Address) -> (r:
        SmAction)
        requires
            old(self)@.pending is Idle,
        ensures
            receive_spec(old(self)@, payload@, local_address, peer_address, final(self)@, r),
            fits(final(self)@.pending, r),
    {
        if payload.len() == 0 {
            return SmAction::Done(Err(Error::InvalidValue));
        }
        let command = SmCode::from_u8(payload[0]);
        let data = vstd::slice::slice_subrange(payload, 1, payload.len());
        assert(data@ =~= payload@.drop_first());
        if command == SmCode::pairing_request() {
            self.handle_pairing_request(data)
        } else if command == SmCode::pairing_random() {
            self.handle_pairing_random(data, local_address, peer_address)
        } else if command == SmCode::pairing_failed() {
            self.handle_pairing_failed(data)
        } else if command == SmCode::pairing_public_key() {
            self.handle_pairing_public_key(data)
        } else if command == SmCode::pairing_dhkey_check() {
            self.handle_pairing_dhkey_check(data, local_address, peer_address)
        } else {
            SmAction::Done(Err(Error::InvalidValue))
        }
    }

    /// Starts to answer with a Pairing Failed for `error`.
    fn write_error(&mut self, error: SecurityManagerError) -> (r: SmAction)
        ensures
            (final(self)@, r) == failing(old(self)@, old(self)@.pairing, error),
    {
        self.pending = Pending::Failing { error };
        SmAction::Send(Outgoing::Failed(PairingFailed::from_u8(error.as_u8())))
    }

    /// Handles the data of a Pairing Request: the PDU without its code.
    pub fn handle_pairing_request(&mut self, data: &[u8]) -> (r: SmAction)
        requires
            old(self)@.pending is Idle,
        ensures
            (final(self)@, r) == on_pairing_request(old(self)@, data@),
            fits(final(self)@.pending, r),
    {
        let pairing_request = match PairingRequest::try_from_slice(data) {
            Some(pairing_request) => pairing_request,
            None => return SmAction::Done(Err(Error::InvalidValue)),
        };
        match self.pairing {
            PairingState::NoPairing => {},
            _ => return self.write_error(SecurityManagerError::UnspecifiedReason),
        }
        let response = PairingResponse {
            io_capability: self.io_capability,
            oob_data_flag: OobDataFlag::auth_data_not_present(),
            auth_req: make_auth_req(),
            maximum_encryption_key_size: 0x10,
            initiator_key_distribution: 0,
            responder_key_distribution: 0,
        };
        self.pending = Pending::Responding { pairing_request };
        SmAction::Send(Outgoing::Response(response))
    }

    /// Handles the data of a Pairing Public Key: the PDU without its code.
    pub fn handle_pairing_public_key(&mut self, data: &[u8]) -> (r: SmAction)
        requires
            old(self)@.pending is Idle,
        ensures
            on_pairing_public_key(old(self)@, data@, final(self)@, r),
            fits(final(self)@.pending, r),
    {
        let pka = match PairingPublicKey::try_from_slice(data) {
            Some(key) => PublicKey { x: key.public_key_x, y: key.public_key_y },
            None => return self.write_error(SecurityManagerError::UnspecifiedReason),
        };
        proof {
            assert(pka.x@ =~= data@.subrange(0, 32));
            assert(pka.y@ =~= data@.subrange(32, 64));
        }
        match self.pairing.take() {
            PairingState::ReceivedPairingRequest { pairing_request } => {
                self.pending = Pending::KeyPair { pairing_request, pka };
                SmAction::GenerateKeyPair
            },
            _ => self.write_error(SecurityManagerError::UnspecifiedReason),
        }
    }

    /// Handles the data of a Pairing Random: the PDU without its code.
    pub fn handle_pairing_random(&mut self, data: &[u8], local: Address, peer: Address) -> (r:
        SmAction)
        requires
            old(self)@.pending is Idle,
        ensures
            (final(self)@, r) == on_pairing_random(old(self)@, data@, local, peer),
            fits(final(self)@.pending, r),
    {
        let random = match PairingRandom::try_from_slice(data) {
            Some(PairingRandom(random)) => random,
            None => return SmAction::Done(Err(Error::InvalidValue)),
        };
        match self.pairing.take() {
            PairingState::ReceivedPublicKey { pairing_request, keys } => {
                let na = u128_from_le_bytes(random);
                self.pending = Pending::RandomSent { pairing_request, keys, na, local, peer };
                SmAction::Send(Outgoing::Random(keys.nb))
            },
            _ => self.write_error(SecurityManagerError::UnspecifiedReason),
        }
    }

    /// Handles the data of a Pairing DHKey Check: the PDU without its code.
    pub fn handle_pairing_dhkey_check(&mut self, ea: &[u8], local: Address, peer: Address) -> (r:
        SmAction)
        requires
            old(self)@.pending is Idle,
        ensures
            (final(self)@, r) == on_pairing_dhkey_check(old(self)@, ea@, local, peer),
            fits(final(self)@.pending, r),
    {
        match self.pairing.take() {
            PairingState::ReceivedRandomData { pairing_request, keys, mac_key, ltk, eb, na } => {
                let received = if ea.len() == 16 {
                    Some(u128_from_le_bytes(array_from_slice(ea, 0)))
                } else {
                    None
                };
                proof {
                    if ea@.len() == 16 {
                        assert(ea@.subrange(0, 16) =~= ea@);
                    }
                }
                let io_cap = IoCap {
                    auth_req: pairing_request.auth_req,
                    oob_data: pairing_request.oob_data_flag.as_u8() != 0,
                    io_capability: pairing_request.io_capability.as_u8(),
                };
                self.pending = Pending::RemoteCheck { ea: received, eb };
                SmAction::ComputeCheck {
                    mac_key,
                    n1: na,
                    n2: keys.nb,
                    r: 0,
                    io_cap,
                    a1: peer,
                    a2: local,
                }
            },
            _ => self.write_error(SecurityManagerError::UnspecifiedReason),
        }
    }

    /// Handles the data of a Pairing Failed: the PDU without its code.
    pub fn handle_pairing_failed(&mut self, data: &[u8]) -> (r: SmAction)
        requires
            old(self)@.pending is Idle,
        ensures
            (final(self)@, r) == on_pairing_failed(old(self)@, data@),
            fits(final(self)@.pending, r),
    {
        match PairingFailed::try_from_slice(data) {
            Some(_reason) => {
                self.pairing = PairingState::NoPairing;
                SmAction::Done(Ok(()))
            },
            None => SmAction::Done(Err(Error::InvalidValue)),
        }
    }

    /// Hands the outcome `event` of the last action back and returns what the Security
    /// Manager asks for next.
    pub fn resume(&mut self, event: SmEvent) -> (r: SmAction)
        requires
            accepts(old(self)@.pending, event),
        ensures
            (final(self)@, r) == resume_spec(old(self)@, event),
            fits(final(self)@.pending, r),
    {
        match (self.pending, event) {
            (Pending::Failing { error }, SmEvent::Sent) => {
                self.pending = Pending::Idle;
                SmAction::Done(Err(Error::Security(error)))
            },
            (Pending::Responding { pairing_request }, SmEvent::Sent) => {
                self.pairing = PairingState::ReceivedPairingRequest { pairing_request };
                self.pending = Pending::Idle;
                SmAction::Done(Ok(()))
            },
            (Pending::KeyPair { pairing_request, pka }, SmEvent::KeyPairGenerated { secret, public }) => {
                self.pending = Pending::PublicKeySent { pairing_request, pka, skb: secret, pkb: public };
                SmAction::Send(Outgoing::PublicKey(public))
            },
            (Pending::PublicKeySent { pairing_request, pka, skb, pkb }, SmEvent::Sent) => {
                self.pending = Pending::DhKey { pairing_request, pka, skb, pkb };
                SmAction::ComputeDhKey { secret: skb, peer: pka }
            },
            (Pending::DhKey { pairing_request, pka, skb, pkb }, SmEvent::DhKeyComputed(dh)) => {
                match dh {
                    Some(dh_key) => {
                        self.pending = Pending::Nonce { pairing_request, pka, skb, pkb, dh_key };
                        SmAction::GenerateNonce
                    },
                    None => self.write_error(SecurityManagerError::KeyRejected),
                }
            },
            (Pending::Nonce { pairing_request, pka, skb, pkb, dh_key }, SmEvent::NonceGenerated(nb)) => {
                self.pending = Pending::Confirm { pairing_request, pka, skb, pkb, dh_key, nb };
                SmAction::ComputeConfirm { u: pkb.x, v: pka.x, x: nb, z: 0 }
            },
            (
                Pending::Confirm { pairing_request, pka, skb, pkb, dh_key, nb },
                SmEvent::ConfirmComputed(confirm),
            ) => {
                let keys = PeerKeyData { pka, pkb, skb, confirm, nb, dh_key };
                self.pending = Pending::Confirming { pairing_request, keys };
                SmAction::Send(Outgoing::Confirm(confirm))
            },
            (Pending::Confirming { pairing_request, keys }, SmEvent::Sent) => {
                self.pairing = PairingState::ReceivedPublicKey { pairing_request, keys };
                self.pending = Pending::Idle;
                SmAction::Done(Ok(()))
            },
            (Pending::RandomSent { pairing_request, keys, na, local, peer }, SmEvent::Sent) => {
                self.pending = Pending::KeysDerived { pairing_request, keys, na, local, peer };
                SmAction::DeriveKeys { dh_key: keys.dh_key, n1: na, n2: keys.nb, a1: peer, a2: local }
            },
            (
                Pending::KeysDerived { pairing_request, keys, na, local, peer },
                SmEvent::KeysDerived { mac_key, ltk },
            ) => {
                let io_cap = IoCap {
                    auth_req: make_auth_req().into_bits(),
                    oob_data: false,
                    io_capability: self.io_capability.as_u8(),
                };
                self.pending = Pending::LocalCheck { pairing_request, keys, na, mac_key, ltk };
                SmAction::ComputeCheck { mac_key, n1: keys.nb, n2: na, r: 0, io_cap, a1: local, a2: peer }
            },
            (
                Pending::LocalCheck { pairing_request, keys, na, mac_key, ltk },
                SmEvent::CheckComputed(eb),
            ) => {
                self.pairing = PairingState::ReceivedRandomData { pairing_request, keys, mac_key, ltk, eb, na };
                self.pending = Pending::Idle;
                SmAction::Done(Ok(()))
            },
            (Pending::RemoteCheck { ea, eb }, SmEvent::CheckComputed(expected)) => {
                let matched = match ea {
                    Some(ea) => ea == expected,
                    None => false,
                };
                if matched {
                    self.pending = Pending::Checking;
                    SmAction::Send(Outgoing::DhKeyCheck(eb))
                } else {
                    self.write_error(SecurityManagerError::DHKeyCheckFailed)
                }
            },
            (Pending::Checking, SmEvent::Sent) => {
                self.pairing = PairingState::Paired {  };
                self.pending = Pending::Idle;
                SmAction::Done(Ok(()))
            },
            (_, SmEvent::SendFailed(error)) => {
                self.pending = Pending::Idle;
                SmAction::Done(Err(error))
            },
            _ => SmAction::Done(Err(Error::InvalidValue)),
        }
    }
}

} // verus!
