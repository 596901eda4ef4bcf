//! Pairing, token and device-store behavior.

use linglide::device::{Device, DeviceId, DeviceType};
use linglide::hashing::hash_token;
use linglide::pairing::{
    build_pairing_url, PairingManager, PairingSession, PairingVerifyRequest, PairingError,
    PIN_VALIDITY_SECONDS,
};
use linglide::storage::DeviceStorage;
use linglide::text::{encode, urlencoding};
use base64::Engine;
use sha2::Digest;

const NOW: u64 = 1_700_000_000_000_000;

fn manager() -> PairingManager {
    PairingManager::new(DeviceStorage::new(), "https://localhost:8443".to_string())
}

#[test]
fn test_device_type_parsing() {
    assert_eq!("ios".parse::<DeviceType>().unwrap(), DeviceType::Ios);
    assert_eq!("android".parse::<DeviceType>().unwrap(), DeviceType::Android);
    assert_eq!("browser".parse::<DeviceType>().unwrap(), DeviceType::Browser);
    assert_eq!("unknown".parse::<DeviceType>().unwrap(), DeviceType::Unknown);
}

#[test]
fn test_device_type_parsing_case_and_aliases() {
    assert_eq!(DeviceType::parse("IPhone"), DeviceType::Ios);
    assert_eq!(DeviceType::parse("IPAD"), DeviceType::Ios);
    assert_eq!(DeviceType::parse("Web"), DeviceType::Browser);
    assert_eq!(DeviceType::parse("toaster"), DeviceType::Unknown);
}

#[test]
fn test_device_id_generation() {
    let id1 = DeviceId::new();
    let id2 = DeviceId::new();
    assert_ne!(id1.0, id2.0);
}

#[test]
fn test_device_id_parse() {
    assert!(DeviceId::parse("0f8fad5b-d9cb-469f-a165-70867728950e").is_ok());
    assert!(DeviceId::parse("0F8FAD5B-D9CB-469F-A165-70867728950E").is_ok());
    assert!(DeviceId::parse("not-a-uuid").is_err());
    assert!(DeviceId::parse("0f8fad5bxd9cb-469f-a165-70867728950e").is_err());
    assert!(DeviceId::parse("").is_err());
}

#[test]
fn test_device_creation() {
    let device = Device::new(
        "Test Device".to_string(),
        DeviceType::Browser,
        "hash123".to_string(),
    );
    assert_eq!(device.name, "Test Device");
    assert_eq!(device.device_type, DeviceType::Browser);
}

#[test]
fn test_token_hashing() {
    let token = "test_token_123";
    let hash1 = hash_token(token);
    let hash2 = hash_token(token);
    assert_eq!(hash1, hash2);

    let different_hash = hash_token("different_token");
    assert_ne!(hash1, different_hash);
}

#[test]
fn test_token_hash_matches_reference_crates() {
    let token = "some token text";
    let expected = base64::engine::general_purpose::STANDARD.encode(sha2::Sha256::digest(
        token.as_bytes(),
    ));
    assert_eq!(hash_token(token), expected);
    assert_ne!(hash_token(token), token);
    assert_eq!(hash_token(token).len(), 44);
}

#[test]
fn test_pairing_flow() {
    let mut manager = manager();

    let start = manager.start_pairing(NOW);
    assert_eq!(start.pin.len(), 6);
    assert_eq!(start.expires_in, PIN_VALIDITY_SECONDS);

    let request = PairingVerifyRequest {
        session_id: start.session_id,
        pin: start.pin,
        device_name: "Test Device".to_string(),
        device_type: Some("browser".to_string()),
    };

    let response = manager.verify_pin(request, NOW + 1_000_000).unwrap();
    assert!(!response.device_id.is_empty());
    assert!(!response.token.is_empty());
    assert_eq!(response.device_id.len(), 36); // a hyphenated UUID
    assert_eq!(response.token.len(), 44); // base64 of 32 random bytes

    let device = manager.validate_token(&response.token).unwrap();
    assert_eq!(device.name, "Test Device");
    assert_eq!(device.device_type, DeviceType::Browser);
    assert_eq!(device.id.0, response.device_id);
}

#[test]
fn test_invalid_pin() {
    let mut manager = manager();

    let start = manager.start_pairing(NOW);
    let wrong = if start.pin == "000000" { "000001" } else { "000000" };

    let request = PairingVerifyRequest {
        session_id: start.session_id.clone(),
        pin: wrong.to_string(),
        device_name: "Test".to_string(),
        device_type: None,
    };

    let result = manager.verify_pin(request, NOW);
    assert!(matches!(result, Err(PairingError::InvalidPin)));

    // the session survives a wrong PIN: the right one still pairs
    let retry = PairingVerifyRequest {
        session_id: start.session_id,
        pin: start.pin,
        device_name: "Test".to_string(),
        device_type: None,
    };
    assert!(manager.verify_pin(retry, NOW).is_ok());
}

#[test]
fn test_session_not_found() {
    let mut manager = manager();

    let request = PairingVerifyRequest {
        session_id: "nonexistent".to_string(),
        pin: "123456".to_string(),
        device_name: "Test".to_string(),
        device_type: None,
    };

    let result = manager.verify_pin(request, NOW);
    assert!(matches!(result, Err(PairingError::SessionNotFound)));
}

#[test]
fn test_expired_pin_rejected_and_session_swept() {
    let mut manager = manager();
    let start = manager.start_pairing(NOW);

    // at expiry the PIN still verifies; one tick later it does not
    let session = PairingSession {
        session_id: start.session_id.clone(),
        pin: start.pin.clone(),
        expires_at_us: NOW + 60_000_000,
    };
    assert!(session.verify_pin(&start.pin, NOW + 60_000_000));
    assert!(!session.verify_pin(&start.pin, NOW + 60_000_001));

    let late = PairingVerifyRequest {
        session_id: start.session_id,
        pin: start.pin,
        device_name: "Test".to_string(),
        device_type: None,
    };
    let result = manager.verify_pin(late, NOW + 61_000_000);
    assert!(matches!(result, Err(PairingError::InvalidPin)));

    // a later start sweeps the expired session away
    let start2 = manager.start_pairing(NOW + 61_000_000);
    assert_eq!(manager.sessions.len(), 1);
    assert_eq!(manager.sessions[0].session_id, start2.session_id);
}

#[test]
fn test_pin_with_leading_zeros_accepted() {
    let session = PairingSession {
        session_id: "s".to_string(),
        pin: "000000".to_string(),
        expires_at_us: NOW + 60_000_000,
    };
    assert!(session.verify_pin("000000", NOW));
    assert!(!session.verify_pin("0", NOW));
    assert!(!session.verify_pin("", NOW));
}

#[test]
fn test_pair_validate_revoke() {
    let mut manager = manager();
    let start = manager.start_pairing(NOW);
    let request = PairingVerifyRequest {
        session_id: start.session_id,
        pin: start.pin,
        device_name: "Phone".to_string(),
        device_type: Some("android".to_string()),
    };
    let response = manager.verify_pin(request, NOW).unwrap();

    let device = manager.validate_token(&response.token).unwrap();
    assert_eq!(device.id.0, response.device_id);
    assert_eq!(device.device_type, DeviceType::Android);
    assert!(manager.has_paired_devices());

    manager.revoke_device(&response.device_id).unwrap();
    assert!(!manager.has_paired_devices());
    let result = manager.validate_token(&response.token);
    assert!(matches!(result, Err(PairingError::InvalidToken)));

    // revoking again reports that nothing carries the id
    assert!(manager.revoke_device(&response.device_id).is_err());
}

#[test]
fn test_validate_token_rejects_unknown() {
    let manager = manager();
    assert!(matches!(
        manager.validate_token("AAAA"),
        Err(PairingError::InvalidToken)
    ));
}

#[test]
fn test_storage_crud() {
    let mut storage = DeviceStorage::new();

    let device = Device::new(
        "Test".to_string(),
        DeviceType::Browser,
        "hash123".to_string(),
    );
    let id = device.id.clone();

    storage.save_device(device).unwrap();

    let loaded = storage.get_device(&id).unwrap();
    assert_eq!(loaded.name, "Test");

    let all = storage.list_devices();
    assert_eq!(all.len(), 1);

    storage.remove_device(&id).unwrap();
    assert!(storage.get_device(&id).is_none());
}

#[test]
fn test_storage_lookup_by_hash_and_counts() {
    let mut storage = DeviceStorage::new();
    assert!(!storage.has_devices());
    assert_eq!(storage.device_count(), 0);

    let device = Device::new("A".to_string(), DeviceType::Ios, "h1".to_string());
    storage.save_device(device).unwrap();
    assert_eq!(storage.device_count(), 1);
    assert!(storage.get_device_by_token_hash("h1").is_some());
    assert!(storage.get_device_by_token_hash("h2").is_none());

    storage.clear().unwrap();
    assert!(!storage.has_devices());
}

#[test]
fn test_get_session_info_and_qr_data() {
    let mut manager = manager();
    manager.set_fingerprint(Some("AB:CD:EF:01:23:45:67:89:AB:CD".to_string()));
    let start = manager.start_pairing(NOW);

    let (pin, remaining) = manager.get_session_info(&start.session_id, NOW + 10_000_000).unwrap();
    assert_eq!(pin, start.pin);
    assert_eq!(remaining, 50);
    assert!(manager.get_session_info("missing", NOW).is_none());

    let qr = manager.get_qr_data(&start.session_id).unwrap();
    assert_eq!(qr.pin, start.pin);
    assert_eq!(qr.session_id, start.session_id);
    assert_eq!(qr.url, "https://localhost:8443");
    assert_eq!(qr.fingerprint.as_deref(), Some("AB:CD:EF:01:23:45:67"));
}

#[test]
fn test_urlencoding() {
    assert_eq!(
        urlencoding("https://192.168.1.5:8443"),
        "https%3A%2F%2F192.168.1.5%3A8443"
    );
    assert_eq!(encode("abc-_.~XYZ019"), "abc-_.~XYZ019");
    assert_eq!(encode(" "), "%20");
}

#[test]
fn test_build_pairing_url() {
    let url = build_pairing_url(
        "https://10.0.0.2:8443",
        "483920",
        "session-1",
        Some("AB:CD"),
        Some("0.1.0"),
    );
    assert_eq!(
        url,
        "linglide://pair?url=https%3A%2F%2F10.0.0.2%3A8443&pin=483920&session=session-1&fp=AB:CD&v=0.1.0"
    );
    let bare = build_pairing_url("http://h", "000001", "s", None, None);
    assert_eq!(bare, "linglide://pair?url=http%3A%2F%2Fh&pin=000001&session=s");
}
