use gpg_core::colons::decode_list_key_result;
use gpg_core::enums::{Operation, TrustLevel};
use gpg_core::response::CmdResult;
use gpg_core::status::{classify_outcome, classify_status_line, decode_status, StatusEvent};
use gpg_core::version::{get_gpg_version, Version};

fn listing_result(raw: &str) -> CmdResult {
    CmdResult {
        success: true,
        raw_data: raw.to_string(),
        status_lines: Vec::new(),
        operation: Operation::ListKey,
    }
}

#[test]
fn decode_two_keys_with_subkeys_attributes_fingerprints() {
    let raw = "\
tru::1:1700000000:0:3:1:5\n\
pub:u:2048:1:KEYID0001:1111:2222::u:::scESC:\n\
fpr:::::::::FPRPRIMARY1:\n\
uid:u::::1111::HASH1::User One <one@example.test>::::\n\
uid:u::::1111::HASH2::User One Work <work@example.test>::::\n\
sub:u:2048:1:SUBID0001:1111::::::e\n\
fpr:::::::::FPRSUB1:\n\
pub:f:4096:1:KEYID0002:3333:4444::f:::scESC:\n\
fpr:::::::::FPRPRIMARY2:\n\
uid:f::::3333::HASH3::User Two <two@example.test>::::\n\
uid:f::::3333::HASH4::User Two Alt <alt@example.test>::::\n\
sub:f:4096:1:SUBID0002:3333::::::s\n\
fpr:::::::::FPRSUB2:\n";
    let keys = decode_list_key_result(&listing_result(raw));
    assert_eq!(keys.len(), 2);

    let k1 = &keys[0];
    assert_eq!(k1.key_id, "KEYID0001");
    assert_eq!(k1.fingerprint, "FPRPRIMARY1");
    assert_eq!(k1.creation_date, "1111");
    assert_eq!(k1.expiration_date, "2222");
    assert_eq!(k1.uids.len(), 2);
    assert_eq!(k1.uids[0], "User One <one@example.test>");
    assert_eq!(k1.uids[1], "User One Work <work@example.test>");
    assert_eq!(k1.subkeys.len(), 1);
    assert_eq!(k1.subkeys[0].key_id, "SUBID0001");
    assert_eq!(k1.subkeys[0].fingerprint, "FPRSUB1");
    assert_eq!(k1.subkeys[0].capabilities, "e");

    let k2 = &keys[1];
    assert_eq!(k2.key_id, "KEYID0002");
    assert_eq!(k2.fingerprint, "FPRPRIMARY2");
    assert_eq!(k2.uids.len(), 2);
    assert_eq!(k2.subkeys.len(), 1);
    assert_eq!(k2.subkeys[0].fingerprint, "FPRSUB2");
    // the fingerprints are never swapped between a key and its subkey
    assert_ne!(k1.fingerprint, k1.subkeys[0].fingerprint);
    assert_ne!(k2.fingerprint, k2.subkeys[0].fingerprint);
}

#[test]
fn decode_trust_codes() {
    let raw = "\
pub:u:2048:1:A:1:2::u:::scESC:\n\
pub:e:2048:1:B:1:2::e:::scESC:\n\
pub:n:2048:1:C:1:2::n:::scESC:\n\
pub:m:2048:1:D:1:2::m:::scESC:\n\
pub:f:2048:1:E:1:2::f:::scESC:\n\
pub:q:2048:1:F:1:2::q:::scESC:\n";
    let keys = decode_list_key_result(&listing_result(raw));
    assert_eq!(keys.len(), 6);
    assert!(matches!(keys[0].trust, TrustLevel::Ultimate));
    assert!(matches!(keys[1].trust, TrustLevel::Expired));
    assert!(matches!(keys[2].trust, TrustLevel::Never));
    assert!(matches!(keys[3].trust, TrustLevel::Marginal));
    assert!(matches!(keys[4].trust, TrustLevel::Fully));
    assert!(matches!(keys[5].trust, TrustLevel::Undefined));
}

#[test]
fn decode_keygrip_attaches_to_open_entity() {
    let raw = "\
pub:u:2048:1:KEY:1:2::u:::scESC:\n\
fpr:::::::::FPR1:\n\
grp:::::::::GRIPKEY:\n\
sub:u:2048:1:SUB:1::::::e\n\
grp:::::::::GRIPSUB:\n";
    let keys = decode_list_key_result(&listing_result(raw));
    assert_eq!(keys.len(), 1);
    assert_eq!(keys[0].keygrip.as_deref(), Some("GRIPKEY"));
    assert_eq!(keys[0].subkeys[0].keygrip.as_deref(), Some("GRIPSUB"));
}

#[test]
fn decode_empty_listing_is_empty_not_error() {
    let keys = decode_list_key_result(&listing_result(""));
    assert_eq!(keys.len(), 0);
}

#[test]
fn decode_listing_without_primary_records_is_empty() {
    let raw = "\
tru::1:1700000000:0:3:1:5\n\
fpr:::::::::ORPHAN:\n\
uid:u::::1::H::Nobody::::\n\
sub:u:2048:1:S:1::::::e\n";
    let keys = decode_list_key_result(&listing_result(raw));
    assert_eq!(keys.len(), 0);
}

#[test]
fn decode_skips_unknown_record_kinds() {
    let raw = "\
rvk:::::::::REVOKER:\n\
pub:u:2048:1:KEY:1:2::u:::scESC:\n\
xyz:unknown:record\n\
fpr:::::::::FPR:\n";
    let keys = decode_list_key_result(&listing_result(raw));
    assert_eq!(keys.len(), 1);
    assert_eq!(keys[0].fingerprint, "FPR");
}

#[test]
fn version_string_parses_to_two_component_value() {
    let v = Version::parse("2.4.6").unwrap();
    assert_eq!(v.major, 2);
    assert_eq!(v.minor, 4);
    assert_eq!(v.full, "2.4.6");
    let v = Version::parse("1.4.23").unwrap();
    assert_eq!(v.major, 1);
    assert_eq!(v.minor, 4);
    assert_eq!(v.full, "1.4.23");
}

#[test]
fn version_rejects_malformed_strings() {
    assert!(Version::parse("").is_none());
    assert!(Version::parse("2").is_none());
    assert!(Version::parse("2.").is_none());
    assert!(Version::parse("a.b").is_none());
    assert!(Version::parse("2.x.6").is_none());
}

#[test]
fn version_comparison_gates_features() {
    let v = Version::parse("2.4.6").unwrap();
    assert!(v.at_least(2, 1));
    assert!(v.at_least(2, 4));
    assert!(!v.at_least(2, 5));
    assert!(!v.at_least(3, 0));
    let old = Version::parse("1.4.23").unwrap();
    assert!(!old.at_least(2, 1));
    assert!(old.at_least(1, 4));
}

#[test]
fn probe_output_yields_version() {
    let probe = CmdResult {
        success: true,
        raw_data: "cfg:pubkeyname:RSA\ncfg:version:2.4.6\ncfg:curve:ed25519\n".to_string(),
        status_lines: Vec::new(),
        operation: Operation::Verify,
    };
    let v = get_gpg_version(&probe).unwrap();
    assert_eq!(v.major, 2);
    assert_eq!(v.minor, 4);
    assert_eq!(v.full, "2.4.6");
}

#[test]
fn probe_without_version_is_an_init_error() {
    let probe = CmdResult {
        success: true,
        raw_data: "cfg:pubkeyname:RSA\n".to_string(),
        status_lines: Vec::new(),
        operation: Operation::Verify,
    };
    let e = get_gpg_version(&probe).unwrap_err();
    assert!(matches!(
        e.error_type,
        gpg_core::errors::GPGErrorType::GPGInitError(_)
    ));
    assert!(e.cmd_result.is_some());
}

#[test]
fn status_lines_classify_to_events() {
    assert!(matches!(
        classify_status_line("[GNUPG:] BAD_PASSPHRASE 1234"),
        StatusEvent::BadPassphrase
    ));
    assert!(matches!(
        classify_status_line("[GNUPG:] MISSING_PASSPHRASE"),
        StatusEvent::MissingPassphrase
    ));
    assert!(matches!(
        classify_status_line("[GNUPG:] NO_SECKEY 42"),
        StatusEvent::NoSecretKey
    ));
    assert!(matches!(
        classify_status_line("[GNUPG:] DECRYPTION_FAILED"),
        StatusEvent::DecryptionFailed
    ));
    assert!(matches!(
        classify_status_line("[GNUPG:] GOODSIG AAAA"),
        StatusEvent::Unknown
    ));
    assert!(matches!(
        classify_status_line("gpg: warning: something"),
        StatusEvent::Unknown
    ));
    assert!(matches!(classify_status_line(""), StatusEvent::Unknown));
}

#[test]
fn first_recognized_failure_wins() {
    let lines = vec![
        "[GNUPG:] PROGRESS x".to_string(),
        "[GNUPG:] NO_PUBKEY K".to_string(),
        "[GNUPG:] BAD_PASSPHRASE K".to_string(),
    ];
    assert!(matches!(
        decode_status(&lines),
        Some(StatusEvent::NoPublicKey)
    ));
    let quiet = vec!["[GNUPG:] PROGRESS x".to_string()];
    assert!(decode_status(&quiet).is_none());
}

#[test]
fn successful_outcome_passes_through() {
    let ok = CmdResult {
        success: true,
        raw_data: "data".to_string(),
        status_lines: vec!["[GNUPG:] GOODSIG".to_string()],
        operation: Operation::Encrypt,
    };
    let r = classify_outcome(ok).unwrap();
    assert_eq!(r.raw_data, "data");
}

#[test]
fn failed_outcome_uses_specific_error_and_keeps_result() {
    let bad = CmdResult {
        success: false,
        raw_data: String::new(),
        status_lines: vec![
            "[GNUPG:] PROGRESS".to_string(),
            "[GNUPG:] BAD_PASSPHRASE 1".to_string(),
        ],
        operation: Operation::Decrypt,
    };
    let e = classify_outcome(bad).unwrap_err();
    assert!(matches!(
        e.error_type,
        gpg_core::errors::GPGErrorType::PassphraseError(_)
    ));
    assert!(e.cmd_result.is_some());
}

#[test]
fn failed_outcome_without_tokens_is_generic() {
    let bad = CmdResult {
        success: false,
        raw_data: String::new(),
        status_lines: vec!["[GNUPG:] PROGRESS".to_string()],
        operation: Operation::Encrypt,
    };
    let e = classify_outcome(bad).unwrap_err();
    assert!(matches!(
        e.error_type,
        gpg_core::errors::GPGErrorType::GPGProcessError(_)
    ));
    assert!(e.cmd_result.is_some());
}
