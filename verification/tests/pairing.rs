use trouble_host::bytes::{u128_from_le_bytes, u128_to_le_bytes};
use trouble_host::security_manager::types::SmCode;
use trouble_host::{
    Address, DhKey, Error, Outgoing, PairingState, PublicKey, SecretKey, SecurityManager,
    SecurityManagerError, SmAction, SmEvent,
};

fn local_address() -> Address {
    Address { kind: 1, addr: [0x41, 0x5A, 0xE3, 0x1E, 0x83, 0xE7] }
}

fn peer_address() -> Address {
    Address { kind: 1, addr: [0x41, 0xaa, 0xaa, 0xaa, 0xaa, 0xe7] }
}

fn sent_bytes(action: &SmAction) -> Vec<u8> {
    match action {
        SmAction::Send(o) => o.to_bytes(),
        _ => panic!("expected a command to send"),
    }
}

fn is_done_ok(action: &SmAction) -> bool {
    matches!(action, SmAction::Done(Ok(())))
}

fn u128_le(bytes: &[u8]) -> u128 {
    let mut b = [0u8; 16];
    b.copy_from_slice(bytes);
    u128_from_le_bytes(b)
}

fn same_address(a: &Address, b: &Address) -> bool {
    a.kind == b.kind && a.addr == b.addr
}

#[test]
fn pairing() {
    let request: &[u8] = &[0x01, 0x01, 0x00, 0x2d, 0x10, 0x0d, 0x0f];
    let public_key: &[u8] = &[
        0x0c, 0x45, 0x97, 0xf4, 0x9f, 0xcd, 0x51, 0xfd, 0xd5, 0xa1, 0x29, 0x63, 0xe5, 0x19, 0x36, 0x34, 0x03, 0xda,
        0x8f, 0x78, 0x1c, 0x7a, 0x0b, 0xcb, 0xf9, 0x0f, 0x75, 0xa9, 0xbf, 0xd7, 0x1a, 0xeb, 0x52, 0x6b, 0xf1, 0x0c,
        0x23, 0x17, 0xda, 0x73, 0x8e, 0x36, 0x2a, 0x3c, 0x90, 0x87, 0xf7, 0xcd, 0x62, 0xa3, 0xc3, 0xc9, 0x79, 0xeb,
        0x6f, 0x9e, 0xef, 0xd6, 0xda, 0xa2, 0xe7, 0x21, 0x22, 0x1d, 0x7d,
    ];
    let random: &[u8] = &[
        0x04, 0xcb, 0x26, 0x87, 0x27, 0xd1, 0x95, 0x3d, 0xd3, 0x67, 0x32, 0xc3, 0x21, 0x9c, 0x8d, 0x05, 0x33,
    ];
    let dhkey_check: &[u8] = &[
        0x0d, 0x0d, 0xbf, 0xde, 0x9e, 0x32, 0xcb, 0x07, 0xae, 0xf9, 0x33, 0x18, 0xf4, 0x85, 0xdd, 0xec, 0x56,
    ];

    // Commands that this device wrote in the recorded exchange.
    let response: Vec<u8> = vec![0x2, 0x1, 0x0, 0x2d, 0x10, 0x0, 0x0];
    let our_public_key: Vec<u8> = vec![
        0xc, 0x81, 0xb3, 0x32, 0xed, 0xe0, 0xe5, 0xae, 0xca, 0x41, 0xa4, 0x44, 0x3c, 0x7d, 0x78, 0x6b, 0xa9, 0xf8,
        0xae, 0xe2, 0x62, 0xa5, 0xec, 0xc4, 0x6d, 0xf2, 0x31, 0x3f, 0xcc, 0xd, 0x6e, 0x38, 0x6e, 0xde, 0xe, 0x66,
        0xc9, 0x63, 0xdb, 0xed, 0x9b, 0x9d, 0x4f, 0x6e, 0xc, 0x52, 0xf4, 0x1e, 0x4f, 0x25, 0x9d, 0xbc, 0x1e, 0x1e,
        0xdc, 0xf3, 0x1e, 0x53, 0x72, 0x20, 0xca, 0x1a, 0xf4, 0x42, 0x89,
    ];
    let our_confirm: Vec<u8> = vec![
        0x3, 0xd1, 0x83, 0x7, 0xec, 0x80, 0x1d, 0xbe, 0x18, 0x61, 0xb1, 0xf5, 0xe8, 0x58, 0x52, 0xbe, 0x96,
    ];
    let our_random: Vec<u8> = vec![
        0x4, 0x8d, 0x1a, 0xa7, 0xc2, 0x4a, 0xdb, 0xe0, 0x52, 0xb4, 0x9f, 0xca, 0x57, 0x81, 0x26, 0x3e, 0xf1,
    ];
    let our_dhkey_check: Vec<u8> = vec![
        0xd, 0xd6, 0x4e, 0xc9, 0x73, 0x28, 0x61, 0x67, 0xb6, 0x6d, 0x23, 0xc1, 0xb3, 0xf7, 0xbf, 0x92, 0xfd,
    ];

    let mut sm = SecurityManager::new();
    let local = local_address();
    let peer = peer_address();

    // Pairing Request -> Pairing Response.
    let a = sm.receive(request, local, peer);
    assert_eq!(sent_bytes(&a), response);
    let a = sm.resume(SmEvent::Sent);
    assert!(is_done_ok(&a));
    assert!(matches!(sm.pairing_state(), PairingState::ReceivedPairingRequest { .. }));

    // Pairing Public Key -> our public key, then our confirm value.
    let a = sm.receive(public_key, local, peer);
    assert!(matches!(a, SmAction::GenerateKeyPair));
    let mut x = [0u8; 32];
    let mut y = [0u8; 32];
    x.copy_from_slice(&our_public_key[1..33]);
    y.copy_from_slice(&our_public_key[33..65]);
    let pkb = PublicKey { x, y };
    let skb = SecretKey([0x11; 32]);
    let a = sm.resume(SmEvent::KeyPairGenerated { secret: skb, public: pkb });
    assert_eq!(sent_bytes(&a), our_public_key);
    let a = sm.resume(SmEvent::Sent);
    match a {
        SmAction::ComputeDhKey { secret, peer: pka } => {
            assert_eq!(secret.0, [0x11; 32]);
            assert_eq!(&pka.x[..], &public_key[1..33]);
            assert_eq!(&pka.y[..], &public_key[33..65]);
        },
        _ => panic!("expected the DH key to be asked for"),
    }
    let a = sm.resume(SmEvent::DhKeyComputed(Some(DhKey([0x22; 32]))));
    assert!(matches!(a, SmAction::GenerateNonce));
    let nb = u128_le(&our_random[1..17]);
    let a = sm.resume(SmEvent::NonceGenerated(nb));
    match a {
        SmAction::ComputeConfirm { u, v, x, z } => {
            assert_eq!(&u[..], &our_public_key[1..33]);
            assert_eq!(&v[..], &public_key[1..33]);
            assert_eq!(x, nb);
            assert_eq!(z, 0);
        },
        _ => panic!("expected the confirm value to be asked for"),
    }
    let confirm = u128_le(&our_confirm[1..17]);
    let a = sm.resume(SmEvent::ConfirmComputed(confirm));
    assert_eq!(sent_bytes(&a), our_confirm);
    let a = sm.resume(SmEvent::Sent);
    assert!(is_done_ok(&a));
    assert!(matches!(sm.pairing_state(), PairingState::ReceivedPublicKey { .. }));

    // Pairing Random -> our nonce, then the keys and our check value.
    let a = sm.receive(random, local, peer);
    assert_eq!(sent_bytes(&a), our_random);
    let a = sm.resume(SmEvent::Sent);
    let na = u128_le(&random[1..17]);
    match a {
        SmAction::DeriveKeys { dh_key, n1, n2, a1, a2 } => {
            assert_eq!(dh_key.0, [0x22; 32]);
            assert_eq!(n1, na);
            assert_eq!(n2, nb);
            assert!(same_address(&a1, &peer));
            assert!(same_address(&a2, &local));
        },
        _ => panic!("expected the keys to be asked for"),
    }
    let a = sm.resume(SmEvent::KeysDerived { mac_key: 0x1234, ltk: 0x5678 });
    match a {
        SmAction::ComputeCheck { mac_key, n1, n2, r, io_cap, a1, a2 } => {
            assert_eq!(mac_key, 0x1234);
            assert_eq!(n1, nb);
            assert_eq!(n2, na);
            assert_eq!(r, 0);
            assert_eq!(io_cap.auth_req, 0x2d);
            assert!(!io_cap.oob_data);
            assert_eq!(io_cap.io_capability, 0x01);
            assert!(same_address(&a1, &local));
            assert!(same_address(&a2, &peer));
        },
        _ => panic!("expected our check value to be asked for"),
    }
    let eb = u128_le(&our_dhkey_check[1..17]);
    let a = sm.resume(SmEvent::CheckComputed(eb));
    assert!(is_done_ok(&a));
    match sm.pairing_state() {
        PairingState::ReceivedRandomData { mac_key, ltk, eb: e, na: n, .. } => {
            assert_eq!(mac_key, 0x1234);
            assert_eq!(ltk, 0x5678);
            assert_eq!(e, eb);
            assert_eq!(n, na);
        },
        _ => panic!("expected the random data to be recorded"),
    }

    // Pairing DHKey Check -> our DHKey check.
    let a = sm.receive(dhkey_check, local, peer);
    match a {
        SmAction::ComputeCheck { mac_key, n1, n2, r, io_cap, a1, a2 } => {
            assert_eq!(mac_key, 0x1234);
            assert_eq!(n1, na);
            assert_eq!(n2, nb);
            assert_eq!(r, 0);
            assert_eq!(io_cap.auth_req, 0x2d);
            assert!(!io_cap.oob_data);
            assert_eq!(io_cap.io_capability, 0x01);
            assert!(same_address(&a1, &peer));
            assert!(same_address(&a2, &local));
        },
        _ => panic!("expected the peer's check value to be asked for"),
    }
    let ea = u128_le(&dhkey_check[1..17]);
    let a = sm.resume(SmEvent::CheckComputed(ea));
    assert_eq!(sent_bytes(&a), our_dhkey_check);
    let a = sm.resume(SmEvent::Sent);
    assert!(is_done_ok(&a));
    assert!(sm.is_idle());
    assert!(matches!(sm.pairing_state(), PairingState::Paired {}));
    assert_eq!(SmCode::from_u8(dhkey_check[0]), SmCode::pairing_dhkey_check());
    assert_eq!(u128_to_le_bytes(ea), dhkey_check[1..17]);
    let _ = Error::Security(SecurityManagerError::DHKeyCheckFailed);
    let _ = Outgoing::DhKeyCheck(ea);
}
