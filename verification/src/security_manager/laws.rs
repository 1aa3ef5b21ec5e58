//! Properties of the pairing state machine that hold across its transitions.
use vstd::prelude::*;

use super::types::{
    IoCapability, OobDataFlag, PairingConfirm, PairingDhKeyCheck, PairingFailed, PairingPublicKey,
    PairingRandom, PairingRequest, PairingResponse, SmCode, SmCommand, SmCommandData,
};
use super::{
    accepts, done, initiator_io_cap, is_sending, on_pairing_dhkey_check, on_pairing_failed,
    on_pairing_public_key, on_pairing_random, on_pairing_request, receive_spec, response_for,
    resume_spec, Address, DhKey, IoCap, Outgoing, PairingState, PeerKeyData, Pending, PublicKey,
    SecretKey, SecurityManagerView, SmAction, SmEvent,
};
use crate::bytes::{le_bytes, le_value};
use crate::error::{Error, SecurityManagerError};
use crate::bytes::{lemma_le_bytes_len, lemma_le_bytes_of_le_value, lemma_u128_le_roundtrip};

verus! {

/// How many more events the handling of a PDU takes at most from the point `p`.
pub open spec fn steps_left(p: Pending) -> nat {
    match p {
        Pending::Idle => 0,
        Pending::Failing { .. } => 1,
        Pending::Responding { .. } => 1,
        Pending::Checking => 1,
        Pending::Confirming { .. } => 1,
        Pending::LocalCheck { .. } => 1,
        Pending::RemoteCheck { .. } => 2,
        Pending::Confirm { .. } => 2,
        Pending::KeysDerived { .. } => 2,
        Pending::Nonce { .. } => 3,
        Pending::RandomSent { .. } => 3,
        Pending::DhKey { .. } => 4,
        Pending::PublicKeySent { .. } => 5,
        Pending::KeyPair { .. } => 6,
    }
}

/// Every event that the Security Manager takes brings the handling of the PDU closer to
/// its end, so a caller that answers every action reaches `Done`.
pub proof fn lemma_resume_progresses(sm: SecurityManagerView, e: SmEvent)
    requires
        accepts(sm.pending, e),
    ensures
        steps_left(resume_spec(sm, e).0.pending) < steps_left(sm.pending),
{
}

/// Receiving a PDU starts a handling that ends after at most six more events.
pub proof fn lemma_receive_bounded(
    sm: SecurityManagerView,
    payload: Seq<u8>,
    local: Address,
    peer: Address,
    post: SecurityManagerView,
    action: SmAction,
)
    requires
        receive_spec(sm, payload, local, peer, post, action),
    ensures
        steps_left(post.pending) <= 6,
{
}

/// The lengths of data that a command must have to be decoded.
pub open spec fn data_len_fits(code: u8, len: nat) -> bool {
    &&& code == 0x01 ==> len == 6
    &&& code == 0x04 ==> len == 16
    &&& code == 0x05 ==> len == 1
}

/// The commands that the Security Manager handles.
pub open spec fn is_handled_code(code: u8) -> bool {
    code == 0x01 || code == 0x04 || code == 0x05 || code == 0x0c || code == 0x0d
}

/// An empty PDU, a command that the Security Manager does not handle, or a command whose
/// data does not have the length it must have, is refused with `InvalidValue` and changes
/// nothing.
pub proof fn lemma_invalid_pdu_is_refused(
    sm: SecurityManagerView,
    payload: Seq<u8>,
    local: Address,
    peer: Address,
    post: SecurityManagerView,
    action: SmAction,
)
    requires
        sm.pending is Idle,
        receive_spec(sm, payload, local, peer, post, action),
        payload.len() == 0 || !is_handled_code(payload[0]) || !data_len_fits(
            payload[0],
            (payload.len() - 1) as nat,
        ),
    ensures
        post == sm,
        action == SmAction::Done(Err(Error::InvalidValue)),
{
}

/// The pairing state in which each pairing command is expected.
pub open spec fn expected_in(code: u8, p: PairingState) -> bool {
    &&& code == 0x01 ==> p is NoPairing
    &&& code == 0x0c ==> p is ReceivedPairingRequest
    &&& code == 0x04 ==> p is ReceivedPublicKey
    &&& code == 0x0d ==> p is ReceivedRandomData
}

/// A well-formed pairing command that does not fit the pairing state is answered with a
/// Pairing Failed for an unspecified reason, and the handling then fails with that
/// reason. A Pairing Request leaves the pairing as it was; the later commands abandon it.
pub proof fn lemma_out_of_order_is_failed(
    sm: SecurityManagerView,
    payload: Seq<u8>,
    local: Address,
    peer: Address,
    post: SecurityManagerView,
    action: SmAction,
)
    requires
        sm.pending is Idle,
        receive_spec(sm, payload, local, peer, post, action),
        payload.len() > 0,
        payload[0] == 0x01 || payload[0] == 0x04 || payload[0] == 0x0c || payload[0] == 0x0d,
        data_len_fits(payload[0], (payload.len() - 1) as nat),
        payload[0] == 0x0c ==> payload.len() == 65,
        !expected_in(payload[0], sm.pairing),
    ensures
        action == SmAction::Send(Outgoing::Failed(PairingFailed(0x08))),
        post.pending == (Pending::Failing { error: SecurityManagerError::UnspecifiedReason }),
        post.pairing == (if payload[0] == 0x01 {
            sm.pairing
        } else {
            PairingState::NoPairing
        }),
        resume_spec(post, SmEvent::Sent) == done(
            post,
            post.pairing,
            Err(Error::Security(SecurityManagerError::UnspecifiedReason)),
        ),
{
}

/// A Pairing Public Key whose key is not 64 bytes long is answered with a Pairing Failed
/// for an unspecified reason, the handling then fails with that reason, and the pairing
/// stays as it was.
pub proof fn lemma_public_key_of_wrong_length_is_failed(
    sm: SecurityManagerView,
    payload: Seq<u8>,
    local: Address,
    peer: Address,
    post: SecurityManagerView,
    action: SmAction,
)
    requires
        sm.pending is Idle,
        receive_spec(sm, payload, local, peer, post, action),
        payload.len() > 0,
        payload[0] == 0x0c,
        payload.len() != 65,
    ensures
        action == SmAction::Send(Outgoing::Failed(PairingFailed(0x08))),
        post.pending == (Pending::Failing { error: SecurityManagerError::UnspecifiedReason }),
        post.pairing == sm.pairing,
        resume_spec(post, SmEvent::Sent) == done(
            post,
            sm.pairing,
            Err(Error::Security(SecurityManagerError::UnspecifiedReason)),
        ),
{
}

/// A Pairing Failed from the peer abandons any pairing.
pub proof fn lemma_pairing_failed_resets(
    sm: SecurityManagerView,
    reason: u8,
    local: Address,
    peer: Address,
    post: SecurityManagerView,
    action: SmAction,
)
    requires
        sm.pending is Idle,
        receive_spec(sm, seq![0x05u8, reason], local, peer, post, action),
    ensures
        post.pairing == PairingState::NoPairing,
        post.pending is Idle,
        action == SmAction::Done(Ok(())),
{
    assert(seq![0x05u8, reason].drop_first() =~= seq![reason]);
}

/// A Pairing Request received with no pairing under way is answered with a Pairing
/// Response that states this device's I/O capability, no OOB data, the authentication
/// requirements 0x2d, a maximum key size of 16 and no key distribution; once it is sent,
/// the request is recorded.
pub proof fn lemma_pairing_request_is_answered(
    sm: SecurityManagerView,
    data: Seq<u8>,
    local: Address,
    peer: Address,
    post: SecurityManagerView,
    action: SmAction,
)
    requires
        sm.pending is Idle,
        sm.pairing is NoPairing,
        data.len() == 6,
        receive_spec(sm, seq![0x01u8] + data, local, peer, post, action),
    ensures
        action matches SmAction::Send(o) && o.spec_bytes() == seq![
            0x02u8,
            sm.io_capability.0,
            0x00u8,
            0x2du8,
            0x10u8,
            0x00u8,
            0x00u8,
        ],
        resume_spec(post, SmEvent::Sent) == done(
            post,
            PairingState::ReceivedPairingRequest {
                pairing_request: PairingRequest::spec_from_bytes(data),
            },
            Ok(()),
        ),
{
    assert((seq![0x01u8] + data).drop_first() =~= data);
    let o = Outgoing::Response(response_for(sm.io_capability));
    assert(o.spec_bytes() =~= seq![
        0x02u8,
        sm.io_capability.0,
        0x00u8,
        0x2du8,
        0x10u8,
        0x00u8,
        0x00u8,
    ]);
}

/// A command that cannot be sent ends the handling with the error of the send, and
/// leaves the pairing state as it is.
pub proof fn lemma_send_failure_aborts(sm: SecurityManagerView, error: Error)
    requires
        is_sending(sm.pending),
    ensures
        resume_spec(sm, SmEvent::SendFailed(error)) == done(sm, sm.pairing, Err(error)),
{
}

/// The DHKey check that the initiator sends is accepted exactly when its bytes are the
/// little-endian bytes of the check value computed for it: then this device's check value
/// is sent back; otherwise a Pairing Failed for a failed DHKey check is sent, and the
/// handling fails with that reason.
pub proof fn lemma_dhkey_check_compares_bytes(
    sm: SecurityManagerView,
    ea: Seq<u8>,
    local: Address,
    peer: Address,
    expected: u128,
)
    requires
        sm.pending is Idle,
        sm.pairing is ReceivedRandomData,
    ensures
        ({
            let post = on_pairing_dhkey_check(sm, ea, local, peer).0;
            let (after, action) = resume_spec(post, SmEvent::CheckComputed(expected));
            &&& ea == le_bytes(expected as nat, 16) ==> action == SmAction::Send(
                Outgoing::DhKeyCheck(sm.pairing->eb),
            ) && after.pending is Checking
            &&& ea != le_bytes(expected as nat, 16) ==> action == SmAction::Send(
                Outgoing::Failed(PairingFailed(0x0b)),
            ) && after.pending == (Pending::Failing {
                error: SecurityManagerError::DHKeyCheckFailed,
            })
        }),
{
    lemma_le_bytes_len(expected as nat, 16);
    lemma_u128_le_roundtrip(expected);
    if ea.len() == 16 {
        lemma_le_bytes_of_le_value(ea);
        crate::bytes::lemma_le_value_bound(ea);
        crate::bytes::lemma_byte_bound_16();
    }
}

/// While a PDU is being handled, the pairing state is `NoPairing`, except while a Pairing
/// Failed is being sent: the handlers that go on take the pairing state out and only put
/// the new one back at the end.
pub open spec fn consistent(sm: SecurityManagerView) -> bool {
    !(sm.pending is Idle) && !(sm.pending is Failing) ==> sm.pairing is NoPairing
}

/// Receiving a PDU in a consistent state leads to a consistent state.
pub proof fn lemma_receive_keeps_consistent(
    sm: SecurityManagerView,
    payload: Seq<u8>,
    local: Address,
    peer: Address,
    post: SecurityManagerView,
    action: SmAction,
)
    requires
        sm.pending is Idle,
        receive_spec(sm, payload, local, peer, post, action),
    ensures
        consistent(post),
{
}

/// Every event taken in a consistent state leads to a consistent state.
pub proof fn lemma_resume_keeps_consistent(sm: SecurityManagerView, e: SmEvent)
    requires
        consistent(sm),
        accepts(sm.pending, e),
    ensures
        consistent(resume_spec(sm, e).0),
{
}

/// When the handling of a PDU ends well, the pairing has moved at most one step: a sent
/// Pairing Response records the request, a sent confirm value records the keys, our
/// computed check value records the random data, and a sent DHKey check completes the
/// pairing.
pub proof fn lemma_success_moves_one_step(sm: SecurityManagerView, e: SmEvent)
    requires
        consistent(sm),
        accepts(sm.pending, e),
        resume_spec(sm, e).1 == SmAction::Done(Ok(())),
    ensures
        ({
            let after = resume_spec(sm, e).0.pairing;
            &&& sm.pending is Responding ==> after is ReceivedPairingRequest
            &&& sm.pending is Confirming ==> after is ReceivedPublicKey
            &&& sm.pending is LocalCheck ==> after is ReceivedRandomData
            &&& sm.pending is Checking ==> after is Paired
            &&& (sm.pending is Responding || sm.pending is Confirming || sm.pending is LocalCheck
                || sm.pending is Checking)
        }),
{
}

/// Receiving a PDU is handling its data by the handler of its code: what `receive`
/// states of `[code] + data` is what the handler of that code states of `data`, and any
/// other code is refused with `InvalidValue`.
pub proof fn lemma_receive_dispatches(
    sm: SecurityManagerView,
    code: u8,
    data: Seq<u8>,
    local: Address,
    peer: Address,
    post: SecurityManagerView,
    action: SmAction,
)
    requires
        receive_spec(sm, seq![code] + data, local, peer, post, action),
    ensures
        code == 0x01 ==> (post, action) == on_pairing_request(sm, data),
        code == 0x04 ==> (post, action) == on_pairing_random(sm, data, local, peer),
        code == 0x05 ==> (post, action) == on_pairing_failed(sm, data),
        code == 0x0c ==> on_pairing_public_key(sm, data, post, action),
        code == 0x0d ==> (post, action) == on_pairing_dhkey_check(sm, data, local, peer),
        !is_handled_code(code) ==> (post, action) == done(
            sm,
            sm.pairing,
            Err(Error::InvalidValue),
        ),
{
    assert((seq![code] + data).drop_first() =~= data);
}

/// Step `i` of a handling: the state `states[i]` takes the event `events[i]`, which leads
/// to the state `states[i + 1]` and the action `actions[i + 1]`.
pub open spec fn step_taken(
    states: Seq<SecurityManagerView>,
    actions: Seq<SmAction>,
    events: Seq<SmEvent>,
    i: int,
) -> bool {
    &&& accepts(states[i].pending, events[i])
    &&& (states[i + 1], actions[i + 1]) == resume_spec(states[i], events[i])
}

/// The record of the handling of the PDU `payload` by a Security Manager in state `sm`:
/// the states it goes through, the actions it asks for, and the events that answer them.
pub open spec fn handling(
    sm: SecurityManagerView,
    payload: Seq<u8>,
    local: Address,
    peer: Address,
    states: Seq<SecurityManagerView>,
    actions: Seq<SmAction>,
    events: Seq<SmEvent>,
) -> bool {
    &&& sm.pending is Idle
    &&& states.len() == actions.len()
    &&& actions.len() == events.len() + 1
    &&& receive_spec(sm, payload, local, peer, states[0], actions[0])
    &&& forall|i: int| 0 <= i < events.len() ==> #[trigger] step_taken(states, actions, events, i)
}

/// What a state met while handling the PDU `payload` from state `sm` keeps of both: each
/// point belongs to the handler of one code, entered from the pairing state that handler
/// goes on from, and the pairing is taken out meanwhile.
pub open spec fn handling_inv(sm: SecurityManagerView, payload: Seq<u8>, st: SecurityManagerView) -> bool {
    let data = payload.drop_first();
    &&& st.io_capability == sm.io_capability
    &&& match st.pending {
        Pending::Idle => true,
        Pending::Failing { .. } => st.pairing == sm.pairing || st.pairing is NoPairing,
        Pending::Responding { .. } => payload.len() > 0 && payload[0] == 0x01
            && sm.pairing is NoPairing && st.pairing is NoPairing,
        Pending::KeyPair { .. } | Pending::PublicKeySent { .. } | Pending::DhKey { .. }
        | Pending::Nonce { .. } | Pending::Confirm { .. } | Pending::Confirming { .. } =>
            payload.len() > 0 && payload[0] == 0x0c && sm.pairing is ReceivedPairingRequest
            && st.pairing is NoPairing,
        Pending::RandomSent { .. } | Pending::KeysDerived { .. } | Pending::LocalCheck { .. } =>
            payload.len() > 0 && payload[0] == 0x04 && sm.pairing is ReceivedPublicKey
            && st.pairing is NoPairing,
        Pending::RemoteCheck { ea, eb } => payload.len() > 0 && payload[0] == 0x0d
            && st.pairing is NoPairing && (sm.pairing matches PairingState::ReceivedRandomData {
            eb: sm_eb,
            ..
        } && eb == sm_eb) && ea == (if data.len() == 16 {
            Some(le_value(data) as u128)
        } else {
            None
        }),
        Pending::Checking => payload.len() > 0 && payload[0] == 0x0d
            && sm.pairing is ReceivedRandomData && st.pairing is NoPairing,
    }
}

/// Every state met while handling a PDU keeps the handling invariant.
pub proof fn lemma_handling_inv(
    sm: SecurityManagerView,
    payload: Seq<u8>,
    local: Address,
    peer: Address,
    states: Seq<SecurityManagerView>,
    actions: Seq<SmAction>,
    events: Seq<SmEvent>,
    k: int,
)
    requires
        handling(sm, payload, local, peer, states, actions, events),
        0 <= k < states.len(),
    ensures
        handling_inv(sm, payload, states[k]),
    decreases k,
{
    if k == 0 {
    } else {
        lemma_handling_inv(sm, payload, local, peer, states, actions, events, k - 1);
        assert(step_taken(states, actions, events, k - 1));
    }
}

/// The waiting for the peer's check value is only entered on receiving the PDU.
proof fn lemma_remote_check_only_first(
    sm: SecurityManagerView,
    payload: Seq<u8>,
    local: Address,
    peer: Address,
    states: Seq<SecurityManagerView>,
    actions: Seq<SmAction>,
    events: Seq<SmEvent>,
    k: int,
)
    requires
        handling(sm, payload, local, peer, states, actions, events),
        0 < k < states.len(),
    ensures
        !(states[k].pending is RemoteCheck),
{
    assert(step_taken(states, actions, events, k - 1));
}

/// Our DHKey check value is only ever sent as the answer, at the second step, to a
/// Pairing DHKey Check received while the random data are recorded, once the check value
/// computed from the recorded keys, the initiator's I/O capabilities and both addresses
/// has come back equal to the received bytes read little-endian; it is the recorded one.
pub proof fn lemma_dhkey_check_sent_only_when_matched(
    sm: SecurityManagerView,
    payload: Seq<u8>,
    local: Address,
    peer: Address,
    states: Seq<SecurityManagerView>,
    actions: Seq<SmAction>,
    events: Seq<SmEvent>,
    i: int,
)
    requires
        handling(sm, payload, local, peer, states, actions, events),
        0 <= i < actions.len(),
        (actions[i] matches SmAction::Send(Outgoing::DhKeyCheck(_))),
    ensures
        i == 1,
        payload.len() == 17,
        payload[0] == 0x0d,
        (sm.pairing matches PairingState::ReceivedRandomData {
            pairing_request,
            keys,
            mac_key,
            eb,
            na,
            ..
        } && actions[1] == SmAction::Send(Outgoing::DhKeyCheck(eb)) && actions[0]
            == (SmAction::ComputeCheck {
            mac_key,
            n1: na,
            n2: keys.nb,
            r: 0,
            io_cap: initiator_io_cap(pairing_request),
            a1: peer,
            a2: local,
        })),
        (events[0] matches SmEvent::CheckComputed(c) && payload.drop_first() == le_bytes(
            c as nat,
            16,
        )),
{
    if i == 0 {
        assert(!(actions[0] matches SmAction::Send(Outgoing::DhKeyCheck(_))));
    }
    assert(step_taken(states, actions, events, i - 1));
    assert(states[i - 1].pending is RemoteCheck);
    if i - 1 > 0 {
        lemma_remote_check_only_first(sm, payload, local, peer, states, actions, events, i - 1);
    }
    lemma_handling_inv(sm, payload, local, peer, states, actions, events, 0);
    let data = payload.drop_first();
    if let SmEvent::CheckComputed(c) = events[0] {
        lemma_le_bytes_of_le_value(data);
        crate::bytes::lemma_le_value_bound(data);
        crate::bytes::lemma_byte_bound_16();
        assert(le_value(data) == c as nat);
    }
}

/// The step that the handling of a PDU with code `code` makes the pairing take when it
/// succeeds.
pub open spec fn pairing_step(code: u8, before: PairingState, after: PairingState) -> bool {
    ||| code == 0x01 && before is NoPairing && after is ReceivedPairingRequest
    ||| code == 0x0c && before is ReceivedPairingRequest && after is ReceivedPublicKey
    ||| code == 0x04 && before is ReceivedPublicKey && after is ReceivedRandomData
    ||| code == 0x0d && before is ReceivedRandomData && after is Paired
}

/// At the end of the handling of a PDU the pairing is as it was, or abandoned, or it has
/// moved exactly one step forward, by the PDU of that step and with success: no handling
/// skips a step or moves backwards but by abandoning the pairing.
pub proof fn lemma_handling_moves_one_step(
    sm: SecurityManagerView,
    payload: Seq<u8>,
    local: Address,
    peer: Address,
    states: Seq<SecurityManagerView>,
    actions: Seq<SmAction>,
    events: Seq<SmEvent>,
)
    requires
        handling(sm, payload, local, peer, states, actions, events),
        (actions.last() is Done),
    ensures
        ({
            let after = states.last().pairing;
            ||| after == sm.pairing
            ||| after is NoPairing
            ||| (actions.last() == SmAction::Done(Ok(())) && payload.len() > 0 && pairing_step(
                payload[0],
                sm.pairing,
                after,
            ))
        }),
{
    let n = states.len() - 1;
    if n > 0 {
        lemma_handling_inv(sm, payload, local, peer, states, actions, events, n - 1);
        assert(step_taken(states, actions, events, n - 1));
    }
}

/// The check value expected of the initiator is asked for over the I/O capabilities that
/// the initiator stated in its recorded Pairing Request (its authentication requirements,
/// whether it has OOB data, its I/O capability), with the recorded keys, the initiator's
/// nonce first and the peer's address first: it does not depend on what this device states.
pub proof fn lemma_remote_check_uses_initiator_io_cap(
    sm: SecurityManagerView,
    data: Seq<u8>,
    local: Address,
    peer: Address,
    post: SecurityManagerView,
    action: SmAction,
)
    requires
        sm.pending is Idle,
        receive_spec(sm, seq![0x0du8] + data, local, peer, post, action),
    ensures
        sm.pairing matches PairingState::ReceivedRandomData {
            pairing_request,
            keys,
            mac_key,
            na,
            ..
        } ==> action == (SmAction::ComputeCheck {
            mac_key,
            n1: na,
            n2: keys.nb,
            r: 0,
            io_cap: IoCap {
                auth_req: pairing_request.auth_req,
                oob_data: pairing_request.oob_data_flag.0 != 0,
                io_capability: pairing_request.io_capability.0,
            },
            a1: peer,
            a2: local,
        }),
{
    assert((seq![0x0du8] + data).drop_first() =~= data);
}

/// The I/O capabilities of an initiator whose Pairing Request data were the six bytes `s`
/// are read from those bytes: the authentication requirements are byte 2, OOB data is
/// present when byte 1 is not zero, and the I/O capability is byte 0.
pub proof fn lemma_initiator_io_cap_from_request_bytes(s: Seq<u8>)
    requires
        s.len() == 6,
    ensures
        initiator_io_cap(PairingRequest::spec_from_bytes(s)) == (IoCap {
            auth_req: s[2],
            oob_data: s[1] != 0,
            io_capability: s[0],
        }),
{
}

/// This device's check value is asked for over its own I/O capabilities, whatever the
/// initiator requested: the authentication requirements 0x2d, no OOB data and this
/// device's I/O capability, exactly what its Pairing Response stated; with the derived MAC
/// key, this device's nonce first and its own address first.
pub proof fn lemma_local_check_uses_own_io_cap(sm: SecurityManagerView, mac_key: u128, ltk: u128)
    requires
        sm.pending is KeysDerived,
    ensures
        sm.pending matches Pending::KeysDerived { keys, na, local, peer, .. } ==> {
            let io_cap = IoCap { auth_req: 0x2d, oob_data: false, io_capability: sm.io_capability.0 };
            let stated = response_for(sm.io_capability);
            &&& resume_spec(sm, SmEvent::KeysDerived { mac_key, ltk }).1 == (SmAction::ComputeCheck {
                mac_key,
                n1: keys.nb,
                n2: na,
                r: 0,
                io_cap,
                a1: local,
                a2: peer,
            })
            &&& io_cap.auth_req == stated.auth_req.0
            &&& io_cap.oob_data == (stated.oob_data_flag.0 != 0)
            &&& io_cap.io_capability == stated.io_capability.0
        },
{
}

/// The check value that this device computes does not depend on the Pairing Request it
/// answered: two handlings that differ only in the recorded request ask for the same one.
pub proof fn lemma_local_check_ignores_request(
    sm: SecurityManagerView,
    other_request: PairingRequest,
    mac_key: u128,
    ltk: u128,
)
    requires
        sm.pending is KeysDerived,
    ensures
        sm.pending matches Pending::KeysDerived { pairing_request, keys, na, local, peer } ==> {
            let other = SecurityManagerView {
                pending: Pending::KeysDerived { pairing_request: other_request, keys, na, local, peer },
                ..sm
            };
            resume_spec(sm, SmEvent::KeysDerived { mac_key, ltk }).1 == resume_spec(
                other,
                SmEvent::KeysDerived { mac_key, ltk },
            ).1
        },
{
}

/// The wire bytes of the command that carries `d`, as `SmCommand::new(d).to_bytes()`
/// gives them.
pub open spec fn command_bytes<D: SmCommandData>(d: D) -> Seq<u8> {
    SmCommand { code: SmCode(D::spec_code()), data: d }.spec_bytes()
}

/// Each command that the Security Manager handles, encoded as a command of its kind and
/// received, is handled as that kind: a Pairing Request by the request handler, a Pairing
/// Random by the random handler, and so on. The commands that only this device sends, a
/// Pairing Response or a Pairing Confirm, are refused when received.
pub proof fn lemma_commands_reach_their_handlers(
    sm: SecurityManagerView,
    local: Address,
    peer: Address,
    post: SecurityManagerView,
    action: SmAction,
    q: PairingRequest,
    n: PairingRandom,
    f: PairingFailed,
    k: PairingPublicKey,
    c: PairingDhKeyCheck,
    r: PairingResponse,
    m: PairingConfirm,
)
    ensures
        receive_spec(sm, command_bytes(q), local, peer, post, action) == ((post, action)
            == on_pairing_request(sm, q.spec_bytes())),
        receive_spec(sm, command_bytes(n), local, peer, post, action) == ((post, action)
            == on_pairing_random(sm, n.0@, local, peer)),
        receive_spec(sm, command_bytes(f), local, peer, post, action) == ((post, action)
            == on_pairing_failed(sm, seq![f.0])),
        receive_spec(sm, command_bytes(k), local, peer, post, action) == on_pairing_public_key(
            sm,
            k.spec_bytes(),
            post,
            action,
        ),
        receive_spec(sm, command_bytes(c), local, peer, post, action) == ((post, action)
            == on_pairing_dhkey_check(sm, c.dhkey_check@, local, peer)),
        receive_spec(sm, command_bytes(r), local, peer, post, action) == ((post, action) == done(
            sm,
            sm.pairing,
            Err(Error::InvalidValue),
        )),
        receive_spec(sm, command_bytes(m), local, peer, post, action) == ((post, action) == done(
            sm,
            sm.pairing,
            Err(Error::InvalidValue),
        )),
{
    assert(command_bytes(q).drop_first() =~= q.spec_bytes());
    assert(command_bytes(n).drop_first() =~= n.0@);
    assert(command_bytes(f).drop_first() =~= seq![f.0]);
    assert(command_bytes(k).drop_first() =~= k.spec_bytes());
    assert(command_bytes(c).drop_first() =~= c.dhkey_check@);
}

/// Every Pairing Request on the wire, its code 0x01 followed by six bytes, is one that
/// `SmCommand::<PairingRequest>::try_from_slice` accepts, and the request it gives has
/// those six bytes as its fields in order.
pub proof fn lemma_pairing_request_pdus_decode(s: Seq<u8>)
    requires
        s.len() == 6,
    ensures
        ({
            let pdu = seq![0x01u8] + s;
            &&& pdu.len() == 1 + PairingRequest::spec_len()
            &&& pdu[0] == PairingRequest::spec_code()
            &&& SmCommand { code: SmCode(pdu[0]), data: PairingRequest::spec_from_bytes(s) }.spec_bytes() == pdu
            &&& PairingRequest::spec_from_bytes(s) == (PairingRequest {
                io_capability: IoCapability(s[0]),
                oob_data_flag: OobDataFlag(s[1]),
                auth_req: s[2],
                maximum_encryption_key_size: s[3],
                initiator_key_distribution: s[4],
                responder_key_distribution: s[5],
            })
        }),
{
    assert(SmCommand {
        code: SmCode(0x01),
        data: PairingRequest::spec_from_bytes(s),
    }.spec_bytes() =~= seq![0x01u8] + s);
}

/// A Pairing Response is laid out on the wire as a Pairing Request with the same fields:
/// its code 0x02, then its six fields in declaration order, the initiator key distribution
/// before the responder key distribution; and six bytes read as a response give the same
/// fields as read as a request.
pub proof fn lemma_pairing_response_layout(r: PairingResponse, s: Seq<u8>)
    ensures
        ({
            let q = PairingRequest {
                io_capability: r.io_capability,
                oob_data_flag: r.oob_data_flag,
                auth_req: r.auth_req.0,
                maximum_encryption_key_size: r.maximum_encryption_key_size,
                initiator_key_distribution: r.initiator_key_distribution,
                responder_key_distribution: r.responder_key_distribution,
            };
            &&& r.spec_bytes() == q.spec_bytes()
            &&& command_bytes(r) == seq![
                0x02u8,
                r.io_capability.0,
                r.oob_data_flag.0,
                r.auth_req.0,
                r.maximum_encryption_key_size,
                r.initiator_key_distribution,
                r.responder_key_distribution,
            ]
            &&& Outgoing::Response(r).spec_bytes() == command_bytes(r)
        }),
        s.len() == 6 ==> {
            let a = PairingResponse::spec_from_bytes(s);
            let b = PairingRequest::spec_from_bytes(s);
            &&& a.io_capability == b.io_capability
            &&& a.oob_data_flag == b.oob_data_flag
            &&& a.auth_req.0 == b.auth_req
            &&& a.maximum_encryption_key_size == b.maximum_encryption_key_size
            &&& a.initiator_key_distribution == b.initiator_key_distribution
            &&& a.responder_key_distribution == b.responder_key_distribution
        },
{
    assert(command_bytes(r) =~= seq![
        0x02u8,
        r.io_capability.0,
        r.oob_data_flag.0,
        r.auth_req.0,
        r.maximum_encryption_key_size,
        r.initiator_key_distribution,
        r.responder_key_distribution,
    ]);
}

/// The whole handling of a Pairing Public Key received after a Pairing Request, for any
/// outcomes of the actions: the peer's key is read from the PDU, x then y; this device's
/// freshly generated public key is sent; the Diffie-Hellman key is computed from this
/// device's secret key and the peer's key; the confirm value is computed over this
/// device's public key x first, the peer's key x second and this device's nonce; that
/// confirm value is sent; and the keys are recorded in their roles.
pub proof fn lemma_public_key_handling(
    sm: SecurityManagerView,
    data: Seq<u8>,
    local: Address,
    peer: Address,
    s1: SecurityManagerView,
    a1: SmAction,
    secret: SecretKey,
    public: PublicKey,
    dh_key: DhKey,
    nb: u128,
    confirm: u128,
)
    requires
        sm.pending is Idle,
        sm.pairing is ReceivedPairingRequest,
        data.len() == 64,
        receive_spec(sm, seq![0x0cu8] + data, local, peer, s1, a1),
    ensures
        ({
            let pairing_request = sm.pairing->ReceivedPairingRequest_pairing_request;
            let pka = s1.pending->KeyPair_pka;
            let (s2, a2) = resume_spec(s1, SmEvent::KeyPairGenerated { secret, public });
            let (s3, a3) = resume_spec(s2, SmEvent::Sent);
            let (s4, a4) = resume_spec(s3, SmEvent::DhKeyComputed(Some(dh_key)));
            let (s5, a5) = resume_spec(s4, SmEvent::NonceGenerated(nb));
            let (s6, a6) = resume_spec(s5, SmEvent::ConfirmComputed(confirm));
            let (s7, a7) = resume_spec(s6, SmEvent::Sent);
            &&& a1 == SmAction::GenerateKeyPair
            &&& s1.pending is KeyPair
            &&& pka.x@ == data.subrange(0, 32)
            &&& pka.y@ == data.subrange(32, 64)
            &&& a2 == SmAction::Send(Outgoing::PublicKey(public))
            &&& a3 == (SmAction::ComputeDhKey { secret, peer: pka })
            &&& a4 == SmAction::GenerateNonce
            &&& a5 == (SmAction::ComputeConfirm { u: public.x, v: pka.x, x: nb, z: 0 })
            &&& a6 == SmAction::Send(Outgoing::Confirm(confirm))
            &&& a7 == SmAction::Done(Ok(()))
            &&& s7.pairing == (PairingState::ReceivedPublicKey {
                pairing_request,
                keys: PeerKeyData { pka, pkb: public, skb: secret, confirm, nb, dh_key },
            })
        }),
{
    assert((seq![0x0cu8] + data).drop_first() =~= data);
}

/// The whole handling of a Pairing Random received after the public keys, for any
/// outcomes of the actions: this device's recorded nonce is sent; the keys are derived
/// with the peer's nonce (read from the PDU, least significant byte first) first and this
/// device's nonce second, the peer's address first and this device's second; this
/// device's check value is computed with its own nonce first, its own capabilities and
/// its own address first; and all of it is recorded.
pub proof fn lemma_random_handling(
    sm: SecurityManagerView,
    data: Seq<u8>,
    local: Address,
    peer: Address,
    mac_key: u128,
    ltk: u128,
    eb: u128,
)
    requires
        sm.pending is Idle,
        sm.pairing is ReceivedPublicKey,
        data.len() == 16,
    ensures
        ({
            let pairing_request = sm.pairing->ReceivedPublicKey_pairing_request;
            let keys = sm.pairing->ReceivedPublicKey_keys;
            let na = le_value(data) as u128;
            let (s1, a1) = on_pairing_random(sm, data, local, peer);
            let (s2, a2) = resume_spec(s1, SmEvent::Sent);
            let (s3, a3) = resume_spec(s2, SmEvent::KeysDerived { mac_key, ltk });
            let (s4, a4) = resume_spec(s3, SmEvent::CheckComputed(eb));
            &&& a1 == SmAction::Send(Outgoing::Random(keys.nb))
            &&& a2 == (SmAction::DeriveKeys {
                dh_key: keys.dh_key,
                n1: na,
                n2: keys.nb,
                a1: peer,
                a2: local,
            })
            &&& a3 == (SmAction::ComputeCheck {
                mac_key,
                n1: keys.nb,
                n2: na,
                r: 0,
                io_cap: IoCap { auth_req: 0x2d, oob_data: false, io_capability: sm.io_capability.0 },
                a1: local,
                a2: peer,
            })
            &&& a4 == SmAction::Done(Ok(()))
            &&& s4.pairing == (PairingState::ReceivedRandomData {
                pairing_request,
                keys,
                mac_key,
                ltk,
                eb,
                na,
            })
        }),
{
}

/// What this device sends is read back as what it sent by a Security Manager that takes
/// that command: our public key is read as the same key, our nonce as the same nonce, our
/// check value as the same check value, and our Pairing Response decodes to the same
/// response.
pub proof fn lemma_sent_commands_read_back(
    sm: SecurityManagerView,
    local: Address,
    peer: Address,
    post: SecurityManagerView,
    action: SmAction,
    k: PublicKey,
    n: u128,
    e: u128,
    r: PairingResponse,
)
    ensures
        sm.pending is Idle && sm.pairing is ReceivedPairingRequest && receive_spec(
            sm,
            Outgoing::PublicKey(k).spec_bytes(),
            local,
            peer,
            post,
            action,
        ) ==> post.pending == (Pending::KeyPair {
            pairing_request: sm.pairing->ReceivedPairingRequest_pairing_request,
            pka: k,
        }),
        sm.pending is Idle && sm.pairing is ReceivedPublicKey ==> on_pairing_random(
            sm,
            Outgoing::Random(n).spec_bytes().drop_first(),
            local,
            peer,
        ).0.pending->RandomSent_na == n,
        sm.pending is Idle && sm.pairing is ReceivedRandomData ==> on_pairing_dhkey_check(
            sm,
            Outgoing::DhKeyCheck(e).spec_bytes().drop_first(),
            local,
            peer,
        ).0.pending->RemoteCheck_ea == Some(e),
        Outgoing::Response(r).spec_bytes()[0] == 0x02,
        PairingResponse::spec_from_bytes(Outgoing::Response(r).spec_bytes().drop_first()) == r,
{
    let kb = Outgoing::PublicKey(k).spec_bytes();
    assert(kb.drop_first() =~= k.x@ + k.y@);
    assert(kb.drop_first().subrange(0, 32) =~= k.x@);
    assert(kb.drop_first().subrange(32, 64) =~= k.y@);
    if sm.pending is Idle && sm.pairing is ReceivedPairingRequest && receive_spec(
        sm,
        kb,
        local,
        peer,
        post,
        action,
    ) {
        let pka = post.pending->KeyPair_pka;
        assert(pka.x =~= k.x);
        assert(pka.y =~= k.y);
    }
    lemma_le_bytes_len(n as nat, 16);
    lemma_u128_le_roundtrip(n);
    assert(Outgoing::Random(n).spec_bytes().drop_first() =~= le_bytes(n as nat, 16));
    lemma_le_bytes_len(e as nat, 16);
    lemma_u128_le_roundtrip(e);
    assert(Outgoing::DhKeyCheck(e).spec_bytes().drop_first() =~= le_bytes(e as nat, 16));
    assert(Outgoing::Response(r).spec_bytes().drop_first() =~= r.spec_bytes());
}

} // verus!
