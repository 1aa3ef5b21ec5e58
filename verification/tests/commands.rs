use trouble_host::bytes::{u128_from_le_bytes, u128_to_le_bytes};
use trouble_host::security_manager::types::{
    AuthReq, IoCapability, OobDataFlag, PairingConfirm, PairingDhKeyCheck, PairingFailed,
    PairingPublicKey, PairingRandom, PairingRequest, PairingResponse, SmCode, SmCommand,
};
use trouble_host::{encode_sm_data, make_auth_req, Error, SecurityManagerError};

#[test]
fn sm_code_round_trips_its_byte() {
    assert_eq!(SmCode::from_u8(0x0c).as_u8(), 0x0c);
    assert_eq!(SmCode::from_u8(0x01), SmCode::pairing_request());
    assert_eq!(SmCode::pairing_keypress_notification().as_u8(), 0x0e);
    assert_eq!(SmCode::security_request().as_u8(), 0x0b);
}

#[test]
fn pairing_failed_decodes_one_byte_only() {
    assert_eq!(PairingFailed::try_from_slice(&[0x08]), Some(PairingFailed::unspecified_reason()));
    assert_eq!(PairingFailed::try_from_slice(&[]), None);
    assert_eq!(PairingFailed::try_from_slice(&[0x08, 0x01]), None);
    assert_eq!(PairingFailed::from_u8(0x0b), PairingFailed::dhkey_check_failed());
    assert_eq!(PairingFailed::key_rejected().as_u8(), 0x0f);
    assert_eq!(PairingFailed::passkey_entry_failed().as_u8(), 0x01);
}

#[test]
fn reason_codes_follow_the_declaration_order() {
    assert_eq!(SecurityManagerError::PasskeyEntryFailed.as_u8(), 1);
    assert_eq!(SecurityManagerError::UnspecifiedReason.as_u8(), 8);
    assert_eq!(SecurityManagerError::DHKeyCheckFailed.as_u8(), 11);
    assert_eq!(SecurityManagerError::KeyRejected.as_u8(), 15);
    assert_eq!(Error::from(SecurityManagerError::KeyRejected), Error::Security(SecurityManagerError::KeyRejected));
}

#[test]
fn auth_req_of_this_device() {
    let a = make_auth_req();
    assert_eq!(a.into_bits(), 0x2d);
    assert_eq!(a.bonding_flags(), 1);
    assert!(a.mitm());
    assert!(a.sc());
    assert!(!a.keypress());
    assert!(a.ct2());
    assert_eq!(a.rfu(), 0);
}

#[test]
fn auth_req_fields_are_independent() {
    let a = AuthReq::from_bits(0xff).with_mitm(false);
    assert_eq!(a.into_bits(), 0xfb);
    assert!(!a.mitm());
    assert_eq!(a.bonding_flags(), 3);
    let b = AuthReq::new().with_rfu(2).with_bonding_flags(2);
    assert_eq!(b.into_bits(), 0x82);
    assert_eq!(b.rfu(), 2);
    assert_eq!(b.bonding_flags(), 2);
    assert!(!b.sc());
    let c = AuthReq::new().with_keypress(true).with_sc(true).with_ct2(false);
    assert_eq!(c.into_bits(), 0x18);
}

#[test]
fn pairing_request_bytes() {
    let r = PairingRequest::try_from_slice(&[0x01, 0x00, 0x2d, 0x10, 0x0d, 0x0f]).unwrap();
    assert_eq!(r.io_capability, IoCapability::display_yes_no());
    assert_eq!(r.oob_data_flag, OobDataFlag::auth_data_not_present());
    assert_eq!(r.auth_req, 0x2d);
    assert_eq!(r.maximum_encryption_key_size, 0x10);
    assert_eq!(r.initiator_key_distribution, 0x0d);
    assert_eq!(r.responder_key_distribution, 0x0f);
    assert_eq!(r.as_bytes(), [0x01, 0x00, 0x2d, 0x10, 0x0d, 0x0f]);
    assert_eq!(PairingRequest::from_bytes(r.as_bytes()), r);
    assert_eq!(PairingRequest::try_from_slice(&[0x01, 0x00, 0x2d, 0x10, 0x0d]), None);
    assert_eq!(PairingRequest::try_from_slice(&[0; 7]), None);
    assert_eq!(r.io_capability.as_u8(), 1);
    assert_eq!(r.oob_data_flag.as_u8(), 0);
    assert_eq!(OobDataFlag::auth_data_present().as_u8(), 1);
    assert_eq!(IoCapability::keyboard_display().as_u8(), 4);
}

#[test]
fn pairing_response_command_bytes() {
    let response = PairingResponse {
        io_capability: IoCapability::display_yes_no(),
        oob_data_flag: OobDataFlag::auth_data_not_present(),
        auth_req: make_auth_req(),
        maximum_encryption_key_size: 0x10,
        initiator_key_distribution: 0,
        responder_key_distribution: 0,
    };
    let cmd = SmCommand::new(response);
    assert_eq!(cmd.code, SmCode::pairing_response());
    assert_eq!(cmd.to_bytes(), vec![0x02, 0x01, 0x00, 0x2d, 0x10, 0x00, 0x00]);
    let back = SmCommand::<PairingResponse>::try_from_slice(&cmd.to_bytes()).unwrap();
    assert_eq!(back.data, response);
    assert_eq!(PairingResponse::try_from_slice(&response.as_bytes()), Some(response));
    assert!(SmCommand::<PairingResponse>::try_from_slice(&[0x01, 0x01, 0x00, 0x2d, 0x10, 0x00, 0x00]).is_none());
    assert!(SmCommand::<PairingResponse>::try_from_slice(&[0x02, 0x01]).is_none());
    let data_only = SmCommand::<PairingResponse>::try_from_data_slice(&[0x01, 0x00, 0x2d, 0x10, 0x00, 0x00]).unwrap();
    assert_eq!(data_only.code, SmCode::pairing_response());
    assert_eq!(data_only.data, response);
}

#[test]
fn pairing_random_and_public_key_lengths() {
    let bytes: Vec<u8> = (0u8..16).collect();
    let r = PairingRandom::try_from_slice(&bytes).unwrap();
    assert_eq!(r.as_bytes().to_vec(), bytes);
    assert!(PairingRandom::try_from_slice(&bytes[..15]).is_none());
    assert_eq!(PairingRandom::from_bytes([7; 16]).0, [7; 16]);
    let key: Vec<u8> = (0u8..64).collect();
    let k = PairingPublicKey::try_from_slice(&key).unwrap();
    assert_eq!(k.public_key_x.to_vec(), key[..32].to_vec());
    assert_eq!(k.public_key_y.to_vec(), key[32..].to_vec());
    assert_eq!(k.as_bytes().to_vec(), key);
    assert!(PairingPublicKey::try_from_slice(&key[..63]).is_none());
    let cmd = SmCommand::new(PairingConfirm([0xab; 16]));
    let b = cmd.to_bytes();
    assert_eq!(b[0], 0x03);
    assert_eq!(b.len(), 17);
    let check = SmCommand::new(PairingDhKeyCheck { dhkey_check: [1; 16] }).to_bytes();
    assert_eq!(check[0], 0x0d);
    let k2 = SmCommand::<PairingPublicKey>::try_from_slice(&SmCommand::new(k).to_bytes()).unwrap();
    assert_eq!(k2.data.as_bytes().to_vec(), key);
}

#[test]
fn u128_little_endian() {
    let v: u128 = 0x0f0e0d0c0b0a09080706050403020100;
    let b = u128_to_le_bytes(v);
    assert_eq!(b, [0, 1, 2, 3, 4, 5, 6, 7, 8, 9, 10, 11, 12, 13, 14, 15]);
    assert_eq!(u128_from_le_bytes(b), v);
    assert_eq!(u128_from_le_bytes(u128_to_le_bytes(u128::MAX)), u128::MAX);
    assert_eq!(u128_to_le_bytes(1), [1, 0, 0, 0, 0, 0, 0, 0, 0, 0, 0, 0, 0, 0, 0, 0]);
}

#[test]
fn encode_sm_data_frames_with_l2cap_header() {
    let mut target = [0xee; 10];
    let n = encode_sm_data(&[0x05, 0x08], &mut target).unwrap();
    assert_eq!(n, 6);
    assert_eq!(target, [0x02, 0x00, 0x06, 0x00, 0x05, 0x08, 0xee, 0xee, 0xee, 0xee]);
}

#[test]
fn encode_sm_data_refuses_a_small_buffer() {
    let mut target = [0xee; 5];
    assert_eq!(encode_sm_data(&[0x05, 0x08], &mut target), Err(Error::Other));
    assert_eq!(target, [0x02, 0x00, 0x06, 0x00, 0x05]);
    let mut tiny = [0xee; 3];
    assert_eq!(encode_sm_data(&[0x05, 0x08], &mut tiny), Err(Error::Other));
    assert_eq!(tiny, [0x02, 0x00, 0x06]);
    let long = vec![0u8; 0x10000];
    let mut big = vec![0xee; 0x10010];
    assert_eq!(encode_sm_data(&long, &mut big), Err(Error::Other));
    assert!(big.iter().all(|b| *b == 0xee));
    let exact = vec![1u8; 300];
    let mut frame = vec![0u8; 304];
    assert_eq!(encode_sm_data(&exact, &mut frame), Ok(304));
    assert_eq!(&frame[..4], &[0x2c, 0x01, 0x06, 0x00]);
}
