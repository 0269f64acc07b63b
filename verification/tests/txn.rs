use base64::Engine;
use gateway_security::cmd::{add_gateway_output, parse_transaction, verify_output};
use gateway_security::device::{Device, KeypairAction};
use gateway_security::proto::{decode_envelope, DecodedTxn, TxnAddGateway};
use gateway_security::{DecodeError, Error};

fn fresh_keypair_bytes() -> Vec<u8> {
    let device: Device = "/tmp/key.bin".parse().expect("file device");
    match device.get_keypair(true, None) {
        Ok(KeypairAction::Ready(e)) => e.bytes,
        _ => panic!("expected ready key material"),
    }
}

fn pubkey_bytes_of(keypair_bytes: &[u8]) -> Vec<u8> {
    helium_crypto::Keypair::try_from(keypair_bytes)
        .expect("keypair decodes")
        .public_key()
        .to_vec()
}

fn empty_txn() -> TxnAddGateway {
    TxnAddGateway {
        owner: vec![],
        gateway: vec![],
        owner_signature: vec![],
        gateway_signature: vec![],
        payer: vec![],
        payer_signature: vec![],
        staking_fee: 0,
        fee: 0,
    }
}

#[test]
fn wire_form_exact_bytes() {
    let mut txn = empty_txn();
    txn.owner = vec![1, 2];
    txn.fee = 5;
    // owner is field 1 (key 0x0A, length-delimited), fee field 8 (key 0x40,
    // varint); empty fields and zero integers are omitted.
    assert_eq!(txn.encode(), vec![0x0A, 0x02, 1, 2, 0x40, 0x05]);
    // the envelope wraps the message as length-delimited field 9 (key 0x4A).
    assert_eq!(
        txn.encode_envelope(),
        vec![0x4A, 0x06, 0x0A, 0x02, 1, 2, 0x40, 0x05]
    );
}

#[test]
fn varint_two_byte_values() {
    let mut txn = empty_txn();
    txn.staking_fee = 300;
    // field 7 key is 0x38; 300 is 0xAC 0x02 in base-128 little endian.
    assert_eq!(txn.encode(), vec![0x38, 0xAC, 0x02]);
}

#[test]
fn envelope_round_trip() {
    let mut txn = empty_txn();
    txn.owner = vec![9, 8, 7];
    txn.gateway = vec![1];
    txn.gateway_signature = vec![42; 64];
    txn.staking_fee = 4000000;
    txn.fee = 65000;
    let encoded = txn.encode_envelope();
    match decode_envelope(&encoded).expect("decodes") {
        DecodedTxn::AddGateway(t) => {
            assert_eq!(t.owner, txn.owner);
            assert_eq!(t.gateway, txn.gateway);
            assert_eq!(t.owner_signature, txn.owner_signature);
            assert_eq!(t.gateway_signature, txn.gateway_signature);
            assert_eq!(t.payer, txn.payer);
            assert_eq!(t.payer_signature, txn.payer_signature);
            assert_eq!(t.staking_fee, txn.staking_fee);
            assert_eq!(t.fee, txn.fee);
        }
        DecodedTxn::Unsupported => panic!("expected the add gateway variant"),
    }
}

#[test]
fn malformed_envelope_is_decode_error() {
    // a length-delimited field that runs past the end
    let bad = vec![0x4A, 0x10, 0x00];
    assert!(matches!(
        decode_envelope(&bad),
        Err(Error::Decode(DecodeError::InvalidTransaction(_)))
    ));
    // an unsupported wire type
    let bad = vec![0x4B];
    assert!(matches!(
        decode_envelope(&bad),
        Err(Error::Decode(DecodeError::InvalidTransaction(_)))
    ));
}

#[test]
fn canonicalization_sign_then_verify() {
    let kb = fresh_keypair_bytes();
    let gw_pub = pubkey_bytes_of(&kb);
    let mut txn = empty_txn();
    txn.gateway = gw_pub.clone();
    txn.owner = vec![5; 33];
    txn.staking_fee = 4000000;
    let sig = txn.sign(&kb).expect("signing succeeds");
    txn.gateway_signature = sig.clone();
    // the signature verifies in its slot over the canonical unsigned form
    assert!(txn.verify(&gw_pub, &sig).is_ok());
    // mutating any payload field after signing breaks verification
    let mut tampered = txn.clone();
    tampered.staking_fee = 4000001;
    assert!(tampered.verify(&gw_pub, &sig).is_err());
    let mut tampered = txn.clone();
    tampered.owner = vec![6; 33];
    assert!(tampered.verify(&gw_pub, &sig).is_err());
}

#[test]
fn multi_slot_independence() {
    let kb_gw = fresh_keypair_bytes();
    let kb_owner = fresh_keypair_bytes();
    let pk_gw = pubkey_bytes_of(&kb_gw);
    let pk_owner = pubkey_bytes_of(&kb_owner);
    let mut txn = empty_txn();
    txn.gateway = pk_gw.clone();
    txn.owner = pk_owner.clone();
    txn.fee = 7;
    // each party signs the canonical form, independently of the other's slot
    let sig_gw = txn.sign(&kb_gw).expect("gateway signs");
    txn.gateway_signature = sig_gw.clone();
    let sig_owner = txn.sign(&kb_owner).expect("owner signs");
    txn.owner_signature = sig_owner.clone();
    // either slot verifies in isolation, whatever the other slot holds
    assert!(txn.verify(&pk_gw, &sig_gw).is_ok());
    assert!(txn.verify(&pk_owner, &sig_owner).is_ok());
    // and still does after the other slot is overwritten
    txn.owner_signature = vec![0xFF; 64];
    assert!(txn.verify(&pk_gw, &sig_gw).is_ok());
}

#[test]
fn verify_rejects_wrong_transaction_type() {
    // a structurally valid envelope carrying some other variant (field 2)
    let other = vec![0x12, 0x00];
    let b64 = base64::engine::general_purpose::STANDARD.encode(&other);
    let txn = parse_transaction(&b64).expect("decodes");
    let r = verify_output(&txn);
    match r {
        Err(e) => {
            assert!(matches!(e, Error::InvalidTxnType));
            assert_eq!(e.message(), "invalid transaction type");
        }
        Ok(_) => panic!("expected an invalid transaction type error"),
    }
    // an empty envelope carries no variant at all and is rejected the same
    let b64 = base64::engine::general_purpose::STANDARD.encode([] as [u8; 0]);
    let txn = parse_transaction(&b64).expect("decodes");
    assert!(matches!(verify_output(&txn), Err(Error::InvalidTxnType)));
}

#[test]
fn garbage_transport_is_decode_error() {
    assert!(matches!(
        parse_transaction("!!not base64!!"),
        Err(Error::Decode(DecodeError::InvalidTransaction(_)))
    ));
    // valid base64 of malformed envelope bytes
    let b64 = base64::engine::general_purpose::STANDARD.encode([0x4B]);
    assert!(matches!(
        parse_transaction(&b64),
        Err(Error::Decode(DecodeError::InvalidTransaction(_)))
    ));
}

#[test]
fn add_then_verify_end_to_end() {
    let kb = fresh_keypair_bytes();
    let owner_kb = fresh_keypair_bytes();
    let owner_pub = pubkey_bytes_of(&owner_kb);
    let out = add_gateway_output(&kb, &owner_pub).expect("add succeeds");
    // the address is the generated key's public string
    let expected_address = gateway_security::cmd::info_public_key(&kb).expect("public key");
    assert_eq!(out.address, expected_address);
    assert!(!out.txn.is_empty());
    // the transaction is double base64: one decode yields the transport form
    let inner = base64::engine::general_purpose::STANDARD
        .decode(&out.txn)
        .expect("outer base64");
    let inner = String::from_utf8(inner).expect("ascii");
    let txn = parse_transaction(&inner).expect("decodes");
    let report = verify_output(&txn).expect("verifies");
    assert!(report.verify);
    assert_eq!(report.address, out.address);
    // the owner field carries the owner public key's string form
    let owner_str = helium_crypto::PublicKey::try_from(&owner_pub[..])
        .expect("owner key decodes")
        .to_string();
    assert_eq!(report.owner, owner_str);
}

#[test]
fn refused_key_types_are_errors_not_crashes() {
    // A crafted RSA-tagged public key (its external parser can panic on
    // an out-of-range length header) embedded in a received transaction
    // is refused with a crypto error.
    let mut txn = empty_txn();
    txn.gateway = vec![0x04, 0x00, 0x01, 0x00, 0x05, 0xAA];
    txn.owner = vec![5; 33];
    let t = gateway_security::cmd::Transaction(DecodedTxn::AddGateway(txn.clone()));
    assert!(matches!(verify_output(&t), Err(Error::Crypto(_))));
    // Same for a secp256k1-tagged key (a well-shaped but off-curve point
    // can panic its parser).
    txn.gateway = vec![0x03; 34];
    let t = gateway_security::cmd::Transaction(DecodedTxn::AddGateway(txn.clone()));
    assert!(matches!(verify_output(&t), Err(Error::Crypto(_))));
    // And the slot-level check reports the same.
    let sig = vec![0u8; 64];
    assert!(matches!(
        txn.verify(&txn.gateway.clone(), &sig),
        Err(Error::Crypto(_))
    ));
}

#[test]
fn refused_key_types_in_stored_material() {
    // Only ed25519 key files are accepted. RSA-tagged bytes (whose
    // external parser can panic on a bad public exponent) are refused
    // with a crypto error ...
    let device: Device = "/tmp/keypair.bin".parse().expect("file device");
    let rsa_tagged = vec![0x04, 0x00, 0x01, 0x00, 0x05, 0xAA];
    assert!(matches!(
        device.get_keypair(false, Some(&rsa_tagged)),
        Err(Error::Crypto(_))
    ));
    // ... as are secp256k1-tagged bytes ...
    let secp_tagged = vec![0x03; 33];
    assert!(matches!(
        device.get_keypair(false, Some(&secp_tagged)),
        Err(Error::Crypto(_))
    ));
    // ... and ecc-compact-tagged bytes: a valid scalar whose public
    // point is not compactable would crash the external serializer.
    let mut ecc_tagged = vec![0u8; 33];
    ecc_tagged[32] = 3;
    assert!(matches!(
        device.get_keypair(false, Some(&ecc_tagged)),
        Err(Error::Crypto(_))
    ));
    assert!(matches!(
        device.get_info(Some(&rsa_tagged)),
        Err(Error::Crypto(_))
    ));
}

#[test]
fn inconsistent_keypair_file_cannot_sign() {
    // The ed25519 binary form stores both halves, and the external
    // parser does not cross-check them. A form whose public half was
    // corrupted still parses, but signing with it must be an error —
    // not a signature that fails to verify against the stored key.
    let mut kb = fresh_keypair_bytes();
    let last = kb.len() - 1;
    kb[last] ^= 0x01;
    let mut txn = empty_txn();
    txn.owner = vec![5; 33];
    assert!(matches!(txn.sign(&kb), Err(Error::Crypto(_))));
    // the corrupted form still parses and reports a public key
    assert!(gateway_security::cmd::info_public_key(&kb).is_ok());
}

#[test]
fn signing_bytes_clear_every_slot() {
    let mut txn = empty_txn();
    txn.owner = vec![1];
    txn.owner_signature = vec![2; 8];
    txn.gateway_signature = vec![3; 8];
    txn.payer_signature = vec![4; 8];
    let mut unsigned = empty_txn();
    unsigned.owner = vec![1];
    // the signed-over bytes ignore all three slots
    assert_eq!(txn.signing_bytes(), unsigned.signing_bytes());
    assert_eq!(txn.signing_bytes(), unsigned.encode());
}
