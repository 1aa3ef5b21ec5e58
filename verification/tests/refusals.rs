use trouble_host::{
    Address, DhKey, Error, Outgoing, PairingState, PublicKey, SecretKey, SecurityManager,
    SecurityManagerError, SmAction, SmEvent,
};

fn addr(b: u8) -> Address {
    Address { kind: 0, addr: [b; 6] }
}

fn send_bytes(a: &SmAction) -> Vec<u8> {
    match a {
        SmAction::Send(o) => o.to_bytes(),
        _ => panic!("expected a command to send"),
    }
}

fn done(a: &SmAction) -> Result<(), Error> {
    match a {
        SmAction::Done(r) => *r,
        _ => panic!("expected the end of the handling"),
    }
}

fn request() -> Vec<u8> {
    vec![0x01, 0x04, 0x00, 0x2d, 0x10, 0x00, 0x00]
}

fn public_key_pdu() -> Vec<u8> {
    let mut v = vec![0x0c];
    v.extend((0u8..64).map(|i| i.wrapping_mul(3)));
    v
}

/// Brings a fresh Security Manager to the state after a Pairing Request.
fn after_request() -> SecurityManager {
    let mut sm = SecurityManager::new();
    let a = sm.receive(&request(), addr(1), addr(2));
    assert_eq!(send_bytes(&a)[0], 0x02);
    assert_eq!(done(&sm.resume(SmEvent::Sent)), Ok(()));
    sm
}

#[test]
fn new_security_manager_is_idle_with_display_yes_no() {
    let sm = SecurityManager::new();
    assert!(sm.is_idle());
    assert_eq!(sm.io_capability().as_u8(), 1);
    assert!(matches!(sm.pairing_state(), PairingState::NoPairing));
    assert_eq!(sm.pairing_state().name(), "None");
}

#[test]
fn empty_and_unknown_pdus_are_invalid() {
    let mut sm = SecurityManager::new();
    assert_eq!(done(&sm.receive(&[], addr(1), addr(2))), Err(Error::InvalidValue));
    assert_eq!(done(&sm.receive(&[0x02, 1, 2, 3, 4, 5, 6], addr(1), addr(2))), Err(Error::InvalidValue));
    assert_eq!(done(&sm.receive(&[0x0b, 0x01], addr(1), addr(2))), Err(Error::InvalidValue));
    assert!(sm.is_idle());
}

#[test]
fn malformed_commands_are_invalid() {
    let mut sm = SecurityManager::new();
    assert_eq!(done(&sm.receive(&[0x01, 1, 0, 0x2d, 0x10, 0], addr(1), addr(2))), Err(Error::InvalidValue));
    assert_eq!(done(&sm.receive(&[0x04, 1, 2, 3], addr(1), addr(2))), Err(Error::InvalidValue));
    assert_eq!(done(&sm.receive(&[0x05], addr(1), addr(2))), Err(Error::InvalidValue));
    assert_eq!(done(&sm.receive(&[0x05, 1, 2], addr(1), addr(2))), Err(Error::InvalidValue));
    assert!(matches!(sm.pairing_state(), PairingState::NoPairing));
}

#[test]
fn repeated_request_is_failed_and_keeps_the_pairing() {
    let mut sm = after_request();
    let a = sm.receive(&request(), addr(1), addr(2));
    assert_eq!(send_bytes(&a), vec![0x05, 0x08]);
    assert_eq!(done(&sm.resume(SmEvent::Sent)), Err(Error::Security(SecurityManagerError::UnspecifiedReason)));
    assert!(matches!(sm.pairing_state(), PairingState::ReceivedPairingRequest { .. }));
}

#[test]
fn public_key_before_request_is_failed() {
    let mut sm = SecurityManager::new();
    let a = sm.receive(&public_key_pdu(), addr(1), addr(2));
    assert_eq!(send_bytes(&a), vec![0x05, 0x08]);
    assert_eq!(done(&sm.resume(SmEvent::Sent)), Err(Error::Security(SecurityManagerError::UnspecifiedReason)));
    assert!(matches!(sm.pairing_state(), PairingState::NoPairing));
}

#[test]
fn random_and_dhkey_check_out_of_order_abandon_the_pairing() {
    let mut sm = after_request();
    let a = sm.receive(&[0x04; 17], addr(1), addr(2));
    assert_eq!(send_bytes(&a), vec![0x05, 0x08]);
    assert_eq!(done(&sm.resume(SmEvent::Sent)), Err(Error::Security(SecurityManagerError::UnspecifiedReason)));
    assert!(matches!(sm.pairing_state(), PairingState::NoPairing));

    let mut sm = after_request();
    let a = sm.receive(&[0x0d; 17], addr(1), addr(2));
    assert_eq!(send_bytes(&a), vec![0x05, 0x08]);
    assert_eq!(done(&sm.resume(SmEvent::SendFailed(Error::OutOfMemory))), Err(Error::OutOfMemory));
    assert!(matches!(sm.pairing_state(), PairingState::NoPairing));
}

#[test]
fn pairing_failed_resets_the_pairing() {
    let mut sm = after_request();
    assert_eq!(done(&sm.receive(&[0x05, 0x03], addr(1), addr(2))), Ok(()));
    assert!(matches!(sm.pairing_state(), PairingState::NoPairing));
}

#[test]
fn rejected_public_key_is_failed_with_key_rejected() {
    let mut sm = after_request();
    assert!(matches!(sm.receive(&public_key_pdu(), addr(1), addr(2)), SmAction::GenerateKeyPair));
    let public = PublicKey { x: [9; 32], y: [8; 32] };
    let a = sm.resume(SmEvent::KeyPairGenerated { secret: SecretKey([1; 32]), public });
    let b = send_bytes(&a);
    assert_eq!(b.len(), 65);
    assert_eq!(b[0], 0x0c);
    assert_eq!(&b[1..33], &[9; 32]);
    assert_eq!(&b[33..], &[8; 32]);
    assert!(matches!(sm.resume(SmEvent::Sent), SmAction::ComputeDhKey { .. }));
    let a = sm.resume(SmEvent::DhKeyComputed(None));
    assert_eq!(send_bytes(&a), vec![0x05, 0x0f]);
    assert_eq!(done(&sm.resume(SmEvent::Sent)), Err(Error::Security(SecurityManagerError::KeyRejected)));
    assert!(matches!(sm.pairing_state(), PairingState::NoPairing));
}

#[test]
fn failed_send_of_the_response_keeps_no_pairing() {
    let mut sm = SecurityManager::new();
    let a = sm.receive(&request(), addr(1), addr(2));
    assert_eq!(send_bytes(&a), vec![0x02, 0x01, 0x00, 0x2d, 0x10, 0x00, 0x00]);
    assert!(sm.accepts(&SmEvent::Sent));
    assert!(!sm.accepts(&SmEvent::NonceGenerated(1)));
    assert_eq!(done(&sm.resume(SmEvent::SendFailed(Error::OutOfMemory))), Err(Error::OutOfMemory));
    assert!(matches!(sm.pairing_state(), PairingState::NoPairing));
}

/// Runs a pairing up to the recorded random data, with made-up cryptographic values.
fn after_random(check: u128) -> SecurityManager {
    let mut sm = after_request();
    sm.receive(&public_key_pdu(), addr(1), addr(2));
    sm.resume(SmEvent::KeyPairGenerated { secret: SecretKey([1; 32]), public: PublicKey { x: [2; 32], y: [3; 32] } });
    sm.resume(SmEvent::Sent);
    sm.resume(SmEvent::DhKeyComputed(Some(DhKey([4; 32]))));
    sm.resume(SmEvent::NonceGenerated(5));
    let a = sm.resume(SmEvent::ConfirmComputed(6));
    assert_eq!(send_bytes(&a), Outgoing::Confirm(6).to_bytes());
    assert_eq!(done(&sm.resume(SmEvent::Sent)), Ok(()));
    let a = sm.receive(&[0x04; 17], addr(1), addr(2));
    let mut nonce = vec![0x04, 5];
    nonce.extend([0u8; 15]);
    assert_eq!(send_bytes(&a), nonce);
    sm.resume(SmEvent::Sent);
    sm.resume(SmEvent::KeysDerived { mac_key: 7, ltk: 8 });
    assert_eq!(done(&sm.resume(SmEvent::CheckComputed(check))), Ok(()));
    assert_eq!(sm.pairing_state().name(), "ReceivedRandomData(..)");
    sm
}

#[test]
fn dhkey_check_mismatch_is_failed() {
    let mut sm = after_random(0x99);
    let mut ea = vec![0x0d, 0x11];
    ea.extend([0u8; 15]);
    assert!(matches!(sm.receive(&ea, addr(1), addr(2)), SmAction::ComputeCheck { .. }));
    let a = sm.resume(SmEvent::CheckComputed(0x12));
    assert_eq!(send_bytes(&a), vec![0x05, 0x0b]);
    assert_eq!(done(&sm.resume(SmEvent::Sent)), Err(Error::Security(SecurityManagerError::DHKeyCheckFailed)));
    assert!(matches!(sm.pairing_state(), PairingState::NoPairing));
}

#[test]
fn dhkey_check_of_wrong_length_never_matches() {
    let mut sm = after_random(0x99);
    assert!(matches!(sm.receive(&[0x0d, 0x11], addr(1), addr(2)), SmAction::ComputeCheck { .. }));
    let a = sm.resume(SmEvent::CheckComputed(0x11));
    assert_eq!(send_bytes(&a), vec![0x05, 0x0b]);
}

#[test]
fn dhkey_check_match_is_answered_with_our_check() {
    let mut sm = after_random(0x99);
    let mut ea = vec![0x0d, 0x34, 0x12];
    ea.extend([0u8; 14]);
    sm.receive(&ea, addr(1), addr(2));
    let a = sm.resume(SmEvent::CheckComputed(0x1234));
    let mut ours = vec![0x0d, 0x99];
    ours.extend([0u8; 15]);
    assert_eq!(send_bytes(&a), ours);
    assert_eq!(done(&sm.resume(SmEvent::Sent)), Ok(()));
    assert!(matches!(sm.pairing_state(), PairingState::Paired {}));
    assert_eq!(sm.pairing_state().name(), "Paired(..)");
}

#[test]
fn public_key_of_wrong_length_is_failed_and_keeps_the_pairing() {
    let mut sm = after_request();
    let mut short = public_key_pdu();
    short.truncate(40);
    let a = sm.receive(&short, addr(1), addr(2));
    assert_eq!(send_bytes(&a), vec![0x05, 0x08]);
    assert_eq!(done(&sm.resume(SmEvent::Sent)), Err(Error::Security(SecurityManagerError::UnspecifiedReason)));
    assert!(matches!(sm.pairing_state(), PairingState::ReceivedPairingRequest { .. }));
    let mut long = public_key_pdu();
    long.push(0);
    let a = sm.receive(&long, addr(1), addr(2));
    assert_eq!(send_bytes(&a), vec![0x05, 0x08]);
    assert_eq!(done(&sm.resume(SmEvent::SendFailed(Error::OutOfMemory))), Err(Error::OutOfMemory));
    assert!(matches!(sm.pairing_state(), PairingState::ReceivedPairingRequest { .. }));
    assert!(matches!(sm.receive(&public_key_pdu(), addr(1), addr(2)), SmAction::GenerateKeyPair));
}

#[test]
fn take_leaves_no_pairing() {
    let sm = after_request();
    let mut state = sm.pairing_state();
    let taken = state.take();
    assert!(matches!(taken, PairingState::ReceivedPairingRequest { .. }));
    assert!(matches!(state, PairingState::NoPairing));
    assert_eq!(taken.name(), "ReceivedPairingRequest(..)");
}
