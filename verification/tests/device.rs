use gateway_security::device::{Device, KeypairAction};
use gateway_security::{DecodeError, Error};

#[test]
fn test_device_file() {
    let device: Device = "/tmp/keypair.bin".parse().expect("file device");
    assert!(matches!(device, Device::File(_)));
}

#[test]
fn test_device_nova_tz() {
    let device: Device = "nova-tz://rsa/tmp/rsa_key_blob"
        .parse()
        .expect("nova-tz device");
    assert!(matches!(device, Device::TrustZone(_)));
}

#[test]
fn test_device_ecc608() {
    let device: Device = "ecc://i2c-1:96?slot=0".parse().expect("ecc device");
    assert!(matches!(device, Device::Ecc(_)));
}

#[test]
fn ecc_locator_fields_match_components() {
    let device: Device = "ecc://i2c-1:96?slot=3".parse().expect("ecc device");
    match device {
        Device::Ecc(d) => {
            assert_eq!(d.path, "/dev/i2c-1");
            assert_eq!(d.address, 96);
            assert_eq!(d.slot, 3);
        }
        _ => panic!("wrong variant"),
    }
}

#[test]
fn ecc_locator_defaults() {
    let device: Device = "ecc://i2c-1".parse().expect("ecc device");
    match device {
        Device::Ecc(d) => {
            assert_eq!(d.path, "/dev/i2c-1");
            assert_eq!(d.address, 96);
            assert_eq!(d.slot, 0);
        }
        _ => panic!("wrong variant"),
    }
}

#[test]
fn ecc_slot_percent_encoded() {
    let device: Device = "ecc://i2c-1?slot=%31".parse().expect("ecc device");
    match device {
        Device::Ecc(d) => assert_eq!(d.slot, 1),
        _ => panic!("wrong variant"),
    }
}

#[test]
fn ecc_slot_last_occurrence_wins() {
    let device: Device = "ecc://i2c-1?slot=1&slot=2".parse().expect("ecc device");
    match device {
        Device::Ecc(d) => assert_eq!(d.slot, 2),
        _ => panic!("wrong variant"),
    }
}

#[test]
fn tpm_locator_path() {
    let device: Device = "tpm://tpm/mykey".parse().expect("tpm device");
    match device {
        Device::Tpm(d) => assert_eq!(d.path, "/mykey"),
        _ => panic!("wrong variant"),
    }
}

#[test]
fn nova_tz_locator_path() {
    let device: Device = "nova-tz://rsa/tmp/rsa_key_blob".parse().expect("nova-tz device");
    match device {
        Device::TrustZone(d) => assert_eq!(d.path, "/tmp/rsa_key_blob"),
        _ => panic!("wrong variant"),
    }
}

#[test]
fn file_scheme_locator_path() {
    let device: Device = "file:///etc/keypair.bin".parse().expect("file device");
    match device {
        Device::File(d) => assert_eq!(d.path, "/etc/keypair.bin"),
        _ => panic!("wrong variant"),
    }
}

#[test]
fn unsupported_scheme_rejected_naming_locator() {
    let r: Result<Device, Error> = "foo://bar".parse();
    match r {
        Err(Error::Decode(DecodeError::InvalidDeviceUrl(u))) => {
            assert_eq!(u, "foo://bar");
        }
        _ => panic!("expected an invalid device url error"),
    }
    let e: Error = "foo://bar".parse::<Device>().unwrap_err();
    assert_eq!(e.message(), "invalid device url: \"foo://bar\"");
}

#[test]
fn malformed_url_rejected() {
    let r: Result<Device, Error> = "://nope".parse();
    match r {
        Err(Error::Decode(DecodeError::InvalidUrl(u))) => {
            assert_eq!(u, "://nope");
            assert_eq!(
                Error::Decode(DecodeError::InvalidUrl(u)).message(),
                "invalid url: \"://nope\""
            );
        }
        _ => panic!("expected an invalid url error"),
    }
    let r: Result<Device, Error> = "ecc://i2c-1:70000".parse();
    assert!(matches!(r, Err(Error::Decode(DecodeError::InvalidUrl(_)))));
    let r: Result<Device, Error> = "ecc://i2c-1:abc".parse();
    assert!(matches!(r, Err(Error::Decode(DecodeError::InvalidUrl(_)))));
}

#[test]
fn ecc_missing_host_rejected() {
    let r: Result<Device, Error> = "ecc://".parse();
    assert!(matches!(r, Err(Error::Decode(DecodeError::InvalidDeviceUrl(_)))));
}

#[test]
fn ecc_bad_slot_names_option() {
    let r: Result<Device, Error> = "ecc://i2c-1?slot=abc".parse();
    match r {
        Err(Error::Decode(DecodeError::InvalidDeviceUrlArgument(n))) => {
            assert_eq!(n, "slot");
            assert_eq!(
                Error::Decode(DecodeError::InvalidDeviceUrlArgument(n)).message(),
                "invalid device url argument: \"slot\""
            );
        }
        _ => panic!("expected an invalid device url argument error"),
    }
    let r: Result<Device, Error> = "ecc://i2c-1?slot=300".parse();
    assert!(matches!(
        r,
        Err(Error::Decode(DecodeError::InvalidDeviceUrlArgument(_)))
    ));
}

#[test]
fn tpm_create_not_supported() {
    let device: Device = "tpm://tpm/mykey".parse().expect("tpm device");
    let r = device.get_keypair(true, None);
    assert!(matches!(r, Err(Error::CreateNotSupported)));
    assert_eq!(
        Error::CreateNotSupported.message(),
        "keypair creation not supported"
    );
    let r = device.get_keypair(false, None);
    match r {
        Ok(KeypairAction::ReadTpm(p)) => assert_eq!(p, "/mykey"),
        _ => panic!("expected a tpm read action"),
    }
}

#[test]
fn nova_tz_read_action() {
    let device: Device = "nova-tz://rsa/tmp/rsa_key_blob".parse().expect("nova-tz device");
    let r = device.get_keypair(false, None);
    match r {
        Ok(KeypairAction::ReadTrustZone(p)) => assert_eq!(p, "/tmp/rsa_key_blob"),
        _ => panic!("expected a trust zone read action"),
    }
}

#[test]
fn ecc_read_action_carries_addressing() {
    let device: Device = "ecc://i2c-1:97?slot=5".parse().expect("ecc device");
    let r = device.get_keypair(true, None);
    match r {
        Ok(KeypairAction::ReadEcc(a)) => {
            assert_eq!(a.path, "/dev/i2c-1");
            assert_eq!(a.address, 97);
            assert_eq!(a.slot, 5);
            assert!(a.create);
        }
        _ => panic!("expected a secure element read action"),
    }
}

#[test]
fn ecc_retry_rule_picks_first_success_within_bound() {
    let outcomes = vec![false, false, true, false, false, false];
    assert_eq!(
        gateway_security::device::ecc::first_successful_attempt(&outcomes),
        Some(2)
    );
    let all_bad = vec![false, false, false, false, false, false];
    assert_eq!(
        gateway_security::device::ecc::first_successful_attempt(&all_bad),
        None
    );
    let late = vec![false, false, false, false, false, false, true];
    assert_eq!(
        gateway_security::device::ecc::first_successful_attempt(&late),
        None
    );
}

#[test]
fn file_backend_idempotent_key_material() {
    let device: Device = "/tmp/keypair.bin".parse().expect("file device");
    // A missing file auto-creates on the first acquisition ...
    let first = match device.get_keypair(false, None) {
        Ok(KeypairAction::Ready(e)) => e,
        _ => panic!("expected ready key material"),
    };
    assert!(first.persist);
    // ... and the second acquisition over what was persisted returns the
    // identical key.
    let second = match device.get_keypair(false, Some(&first.bytes)) {
        Ok(KeypairAction::Ready(e)) => e,
        _ => panic!("expected ready key material"),
    };
    assert!(!second.persist);
    assert_eq!(first.bytes, second.bytes);
    let pk1 = gateway_security::cmd::info_public_key(&first.bytes).expect("public key");
    let pk2 = gateway_security::cmd::info_public_key(&second.bytes).expect("public key");
    assert_eq!(pk1, pk2);
}

#[test]
fn file_backend_rejects_garbage_contents() {
    let device: Device = "/tmp/keypair.bin".parse().expect("file device");
    let garbage = vec![0u8, 1, 2, 3];
    let r = device.get_keypair(false, Some(&garbage));
    assert!(matches!(r, Err(Error::Crypto(_))));
    let empty: Vec<u8> = vec![];
    let r = device.get_keypair(false, Some(&empty));
    assert!(matches!(r, Err(Error::Crypto(_))));
}

#[test]
fn file_info_reports_key_type_and_path() {
    let device: Device = "/etc/keypair.bin".parse().expect("file device");
    let entry = match device.get_keypair(true, None) {
        Ok(KeypairAction::Ready(e)) => e,
        _ => panic!("expected ready key material"),
    };
    let info = device.get_info(Some(&entry.bytes)).expect("info");
    match info {
        gateway_security::device::Info::File(i) => {
            assert_eq!(i.key_type, "ed25519");
            assert_eq!(i.path, "/etc/keypair.bin");
        }
        _ => panic!("wrong info variant"),
    }
}

#[test]
fn hardware_info_is_pure_addressing() {
    let device: Device = "ecc://i2c-1:96?slot=0".parse().expect("ecc device");
    match device.get_info(None).expect("info") {
        gateway_security::device::Info::Ecc(i) => {
            assert_eq!(i.path, "/dev/i2c-1");
            assert_eq!(i.address, 96);
            assert_eq!(i.slot, 0);
        }
        _ => panic!("wrong info variant"),
    }
    let device: Device = "tpm://tpm/key1".parse().expect("tpm device");
    match device.get_info(None).expect("info") {
        gateway_security::device::Info::Tpm(i) => assert_eq!(i.path, "/key1"),
        _ => panic!("wrong info variant"),
    }
}
