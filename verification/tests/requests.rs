use gpg_core::enums::{Operation, TrustLevel};
use gpg_core::errors::{GPGError, GPGErrorType};
use gpg_core::gnupg::{
    get_file_extension, set_output_without_confirmation, DecryptOption, EncryptOption, GPG,
};
use gpg_core::keygen::gen_key_input_lines;
use gpg_core::passphrase::is_passphrase_valid;
use gpg_core::request::{baseline_args, build_invocation, select_input, InputSource};
use gpg_core::response::CmdResult;
use gpg_core::version::Version;

fn modern_gpg() -> GPG {
    GPG {
        homedir: "/tmp/gnupg-home/".to_string(),
        output_dir: "/tmp/gnupg-out/".to_string(),
        env: None,
        keyrings: None,
        secret_keyring: None,
        options: None,
        armor: false,
        version: Version::parse("2.4.6").unwrap(),
    }
}

fn old_gpg() -> GPG {
    GPG {
        version: Version::parse("1.4.23").unwrap(),
        ..modern_gpg()
    }
}

#[test]
fn passphrase_validation_accepts_plain_text() {
    assert!(is_passphrase_valid("correct horse battery staple"));
    assert!(is_passphrase_valid("x"));
    let long = "a".repeat(1024);
    assert!(is_passphrase_valid(&long));
}

#[test]
fn passphrase_validation_rejects_control_bytes_and_bounds() {
    assert!(!is_passphrase_valid("line\nbreak"));
    assert!(!is_passphrase_valid("carriage\rreturn"));
    assert!(!is_passphrase_valid("nul\0byte"));
    assert!(!is_passphrase_valid(""));
    let too_long = "a".repeat(1025);
    assert!(!is_passphrase_valid(&too_long));
}

#[test]
fn key_input_opens_with_key_type_and_closes_with_commit() {
    let args: Vec<(String, String)> = Vec::new();
    let login = "tester".to_string();
    let host = "machine".to_string();
    let lines = gen_key_input_lines(&args, false, &login, &host);
    assert!(lines[0].starts_with("Key-Type: "));
    assert_eq!(lines[0], "Key-Type: RSA");
    assert_eq!(lines.last().unwrap(), "%commit");
}

#[test]
fn key_input_no_protection_iff_no_passphrase() {
    let args: Vec<(String, String)> = Vec::new();
    let login = "tester".to_string();
    let host = "machine".to_string();
    let unprotected = gen_key_input_lines(&args, false, &login, &host);
    assert!(unprotected.iter().any(|l| l == "%no-protection"));
    let protected = gen_key_input_lines(&args, true, &login, &host);
    assert!(!protected.iter().any(|l| l == "%no-protection"));
}

#[test]
fn key_input_normalizes_and_keeps_caller_parameters() {
    let args = vec![
        ("Key_Length".to_string(), " 4096 ".to_string()),
        ("Name_Real".to_string(), "Alice".to_string()),
        ("Key-Type".to_string(), "DSA".to_string()),
    ];
    let login = "tester".to_string();
    let host = "machine".to_string();
    let lines = gen_key_input_lines(&args, true, &login, &host);
    assert_eq!(lines[0], "Key-Type: DSA");
    assert!(lines.iter().any(|l| l == "Key-Length: 4096"));
    assert!(lines.iter().any(|l| l == "Name-Real: Alice"));
    // defaults for what the caller left out are present
    assert!(lines.iter().any(|l| l == "Expire-Date: 0"));
    assert!(lines.iter().any(|l| l.starts_with("Name-Email: ")));
}

#[test]
fn input_precedence_bytes_over_handle_over_path() {
    let r = select_input(Some(vec![1, 2]), true, Some("p".to_string()));
    assert!(matches!(r, InputSource::Bytes(b) if b == vec![1, 2]));
    let r = select_input(None, true, Some("p".to_string()));
    assert!(matches!(r, InputSource::Handle));
    let r = select_input(None, false, Some("p".to_string()));
    assert!(matches!(r, InputSource::Path(p) if p == "p"));
    let r = select_input(None, false, None);
    assert!(matches!(r, InputSource::NoInput));
}

#[test]
fn baseline_pins_homedir_and_status_stream() {
    let home = "/home/x/.gnupg".to_string();
    let v = Version::parse("2.4.6").unwrap();
    let args = baseline_args(&home, &v, false);
    assert_eq!(
        args,
        vec!["--batch", "--no-tty", "--status-fd", "2", "--homedir", "/home/x/.gnupg"]
    );
}

#[test]
fn baseline_routes_passphrase_over_dedicated_descriptor() {
    let home = "h".to_string();
    let modern = Version::parse("2.4.6").unwrap();
    let args = baseline_args(&home, &modern, true);
    assert_eq!(
        args,
        vec![
            "--batch",
            "--no-tty",
            "--status-fd",
            "2",
            "--homedir",
            "h",
            "--pinentry-mode",
            "loopback",
            "--passphrase-fd",
            "3"
        ]
    );
    let old = Version::parse("1.4.23").unwrap();
    let args = baseline_args(&home, &old, true);
    assert_eq!(
        args,
        vec!["--batch", "--no-tty", "--status-fd", "2", "--homedir", "h", "--passphrase-fd", "3"]
    );
    // the passphrase itself never stands on the command line
    assert!(!args.iter().any(|a| a.contains("hunter")));
}

#[test]
fn build_invocation_requires_a_data_source() {
    let v = Version::parse("2.4.6").unwrap();
    let r = build_invocation(
        vec!["--decrypt".to_string()],
        None,
        &v,
        "h".to_string(),
        None,
        None,
        false,
        None,
        None,
        true,
        Operation::Decrypt,
    );
    let e = r.unwrap_err();
    assert!(matches!(e.error_type, GPGErrorType::FileNotProvidedError(_)));
    assert!(e.cmd_result.is_none());
}

#[test]
fn build_invocation_orders_baseline_options_arguments() {
    let v = Version::parse("2.4.6").unwrap();
    let q = build_invocation(
        vec!["--list-keys".to_string()],
        None,
        &v,
        "h".to_string(),
        Some(vec!["--expert".to_string()]),
        None,
        false,
        None,
        None,
        false,
        Operation::ListKey,
    )
    .unwrap();
    assert_eq!(
        q.args,
        vec!["--batch", "--no-tty", "--status-fd", "2", "--homedir", "h", "--expert", "--list-keys"]
    );
    assert_eq!(q.homedir, "h");
    assert!(matches!(q.input, InputSource::NoInput));
}

#[test]
fn init_reads_version_from_probe() {
    let probe = CmdResult {
        success: true,
        raw_data: "cfg:version:2.4.6\n".to_string(),
        status_lines: Vec::new(),
        operation: Operation::Verify,
    };
    let g = GPG::init("home/".to_string(), "out/".to_string(), true, &probe).unwrap();
    assert_eq!(g.homedir, "home/");
    assert_eq!(g.output_dir, "out/");
    assert!(g.armor);
    assert_eq!(g.version.major, 2);
    assert_eq!(g.version.minor, 4);
    assert_eq!(g.version.full, "2.4.6");
    assert!(g.options.is_none());
}

#[test]
fn init_fails_without_version() {
    let probe = CmdResult {
        success: true,
        raw_data: "nothing useful".to_string(),
        status_lines: Vec::new(),
        operation: Operation::Verify,
    };
    let e = GPG::init("home/".to_string(), "out/".to_string(), false, &probe).unwrap_err();
    assert!(matches!(e.error_type, GPGErrorType::GPGInitError(_)));
}

#[test]
fn gen_key_rejects_invalid_passphrase() {
    let g = modern_gpg();
    let e = g
        .gen_key(Some("bad\npass".to_string()), None, None)
        .unwrap_err();
    assert!(matches!(e.error_type, GPGErrorType::PassphraseError(_)));
}

#[test]
fn gen_key_builds_request_with_input_document() {
    let g = modern_gpg();
    let q = g.gen_key(None, None, Some("alice".to_string())).unwrap();
    assert!(matches!(q.operation, Operation::GenerateKey));
    assert!(q.passphrase.is_none());
    assert_eq!(q.args.last().unwrap(), "--gen-key");
    match q.input {
        InputSource::Bytes(b) => {
            let doc = String::from_utf8(b).unwrap();
            assert!(doc.starts_with("Key-Type: "));
            assert!(doc.ends_with("%commit\n"));
            assert!(doc.contains("%no-protection\n"));
            assert!(doc.contains("alice@"));
        }
        _ => panic!("key generation must stream its input document"),
    }
}

#[test]
fn gen_key_with_passphrase_omits_no_protection() {
    let g = modern_gpg();
    let q = g
        .gen_key(Some("secret pass".to_string()), None, None)
        .unwrap();
    assert_eq!(q.passphrase.as_deref(), Some("secret pass"));
    match q.input {
        InputSource::Bytes(b) => {
            let doc = String::from_utf8(b).unwrap();
            assert!(!doc.contains("%no-protection"));
        }
        _ => panic!("key generation must stream its input document"),
    }
}

#[test]
fn list_keys_modes_and_keygrip_gating() {
    let g = modern_gpg();
    let q = g.list_keys(false, None, false);
    assert!(q.args.contains(&"--list-keys".to_string()));
    assert!(q.args.contains(&"--with-keygrip".to_string()));
    assert_eq!(
        q.args.iter().filter(|a| a.as_str() == "--fingerprint").count(),
        2
    );
    let q = g.list_keys(true, None, false);
    assert!(q.args.contains(&"--list-secret-keys".to_string()));
    let q = g.list_keys(false, None, true);
    assert!(q.args.contains(&"--list-sigs".to_string()));
    let q = old_gpg().list_keys(false, None, false);
    assert!(!q.args.contains(&"--with-keygrip".to_string()));
}

#[test]
fn list_keys_appends_requested_key_ids() {
    let g = modern_gpg();
    let q = g.list_keys(false, Some(vec!["AABB".to_string(), "CCDD".to_string()]), false);
    let n = q.args.len();
    assert_eq!(q.args[n - 2], "AABB");
    assert_eq!(q.args[n - 1], "CCDD");
}

#[test]
fn symmetric_encryption_without_passphrase_fails_before_spawn() {
    let g = modern_gpg();
    let opt = EncryptOption::with_symmetric(false, Some("f.txt".to_string()), None, None, None);
    let e = g.encrypt(opt).unwrap_err();
    assert!(matches!(e.error_type, GPGErrorType::PassphraseError(_)));
    // no process ran: there is no command result to attach
    assert!(e.cmd_result.is_none());
}

#[test]
fn encryption_needs_a_mode() {
    let g = modern_gpg();
    let opt = EncryptOption::default(false, Some("f.txt".to_string()), None, None);
    let e = g.encrypt(opt).unwrap_err();
    assert!(matches!(e.error_type, GPGErrorType::InvalidArgumentError(_)));
}

#[test]
fn encryption_needs_a_data_source() {
    let g = modern_gpg();
    let opt = EncryptOption::default(false, None, Some(vec!["KEY".to_string()]), None);
    let e = g.encrypt(opt).unwrap_err();
    assert!(matches!(e.error_type, GPGErrorType::FileNotProvidedError(_)));
}

#[test]
fn encryption_request_carries_recipients_and_output() {
    let g = modern_gpg();
    let opt = EncryptOption::default(
        false,
        Some("notes.txt".to_string()),
        Some(vec!["KEYA".to_string(), "KEYB".to_string()]),
        Some("out.gpg".to_string()),
    );
    let q = g.encrypt(opt).unwrap();
    assert!(matches!(q.operation, Operation::Encrypt));
    let args = &q.args;
    let enc = args.iter().position(|a| a == "--encrypt").unwrap();
    assert_eq!(args[enc + 1], "--recipient");
    assert_eq!(args[enc + 2], "KEYA");
    assert_eq!(args[enc + 3], "--recipient");
    assert_eq!(args[enc + 4], "KEYB");
    let yes = args.iter().position(|a| a == "--yes").unwrap();
    assert_eq!(args[yes + 1], "--output");
    assert_eq!(args[yes + 2], "out.gpg");
    assert_eq!(args[args.len() - 2], "--trust-model");
    assert_eq!(args[args.len() - 1], "always");
    assert!(matches!(q.input, InputSource::Path(p) if p == "notes.txt"));
}

#[test]
fn encryption_default_output_name_carries_mode_tag_and_extension() {
    let g = modern_gpg();
    let opt = EncryptOption::with_symmetric(
        false,
        Some("photo.jpeg".to_string()),
        None,
        Some("hunter2".to_string()),
        None,
    );
    let q = g.encrypt(opt).unwrap();
    let out = q.args.iter().position(|a| a == "--output").unwrap();
    let name = &q.args[out + 1];
    assert!(name.starts_with("/tmp/gnupg-out/pass__encrypted_file_"));
    assert!(name.ends_with(".jpeg"));
    // the dedicated passphrase channel is named on the command line
    assert!(q.args.contains(&"--passphrase-fd".to_string()));
    assert_eq!(q.passphrase.as_deref(), Some("hunter2"));
}

#[test]
fn armor_flag_is_honoured() {
    let mut g = modern_gpg();
    g.armor = true;
    let opt = EncryptOption::default(
        false,
        Some("f.txt".to_string()),
        Some(vec!["K".to_string()]),
        Some("o".to_string()),
    );
    let q = g.encrypt(opt).unwrap();
    assert!(q.args.contains(&"--armor".to_string()));
}

#[test]
fn decryption_validates_key_passphrase_first() {
    let g = modern_gpg();
    let opt = DecryptOption::default(
        false,
        Some("f.gpg".to_string()),
        None,
        Some("bad\0pass".to_string()),
        None,
    );
    let e = g.decrypt(opt).unwrap_err();
    assert!(matches!(e.error_type, GPGErrorType::PassphraseError(_)));
}

#[test]
fn decryption_request_uses_symmetric_passphrase() {
    let g = modern_gpg();
    let opt = DecryptOption::with_symmetric(
        false,
        Some("f.gpg".to_string()),
        Some("hunter2".to_string()),
        Some("plain.txt".to_string()),
    );
    let q = g.decrypt(opt).unwrap();
    assert!(matches!(q.operation, Operation::Decrypt));
    assert_eq!(q.passphrase.as_deref(), Some("hunter2"));
    assert_eq!(q.args.iter().filter(|a| a.as_str() == "--decrypt").count(), 1);
    let yes = q.args.iter().position(|a| a == "--yes").unwrap();
    assert_eq!(q.args[yes + 1], "--output");
    assert_eq!(q.args[yes + 2], "plain.txt");
    assert!(matches!(q.input, InputSource::Path(p) if p == "f.gpg"));
}

#[test]
fn decryption_default_output_inherits_extension() {
    let g = modern_gpg();
    let args = g.gen_decrypt_args(Some("secret.tar.gpg".to_string()), None, true, None, None);
    assert_eq!(args[0], "--decrypt");
    let out = args.iter().position(|a| a == "--output").unwrap();
    let name = &args[out + 1];
    assert!(name.starts_with("/tmp/gnupg-out/decrypted_file_"));
    assert!(name.ends_with(".gpg"));
}

#[test]
fn decryption_needs_a_data_source() {
    let g = modern_gpg();
    let opt = DecryptOption::default(false, None, None, None, None);
    let e = g.decrypt(opt).unwrap_err();
    assert!(matches!(e.error_type, GPGErrorType::FileNotProvidedError(_)));
}

#[test]
fn file_extension_inherits_or_defaults() {
    assert_eq!(get_file_extension(&Some("a/b.txt".to_string())), "txt");
    assert_eq!(get_file_extension(&Some("archive.tar.gz".to_string())), "gz");
    assert_eq!(get_file_extension(&Some("noext".to_string())), "gpg");
    assert_eq!(get_file_extension(&None), "gpg");
}

#[test]
fn explicit_output_overwrites_without_confirmation() {
    let mut args = vec!["--decrypt".to_string()];
    set_output_without_confirmation(&mut args, "result.txt");
    assert_eq!(args, vec!["--decrypt", "--yes", "--output", "result.txt"]);
}

#[test]
fn options_and_env_can_be_set_and_cleared() {
    let mut g = modern_gpg();
    g.set_option(vec!["--expert".to_string()]);
    assert_eq!(g.options.as_ref().unwrap()[0], "--expert");
    let q = g.list_keys(false, None, false);
    assert_eq!(q.args[6], "--expert");
    g.clear_option();
    assert!(g.options.is_none());
    g.set_env(vec![("LC_ALL".to_string(), "C".to_string())]);
    assert_eq!(g.env.as_ref().unwrap()[0].1, "C");
    g.clear_env();
    assert!(g.env.is_none());
}

#[test]
fn trust_levels_are_ordered() {
    let order = [
        TrustLevel::Expired,
        TrustLevel::Undefined,
        TrustLevel::Never,
        TrustLevel::Marginal,
        TrustLevel::Fully,
        TrustLevel::Ultimate,
    ];
    for (i, t) in order.iter().enumerate() {
        assert_eq!(t.value() as usize, i + 1);
    }
    assert!(TrustLevel::Expired.le(&TrustLevel::Ultimate));
    assert!(TrustLevel::Marginal.le(&TrustLevel::Marginal));
    assert!(!TrustLevel::Ultimate.le(&TrustLevel::Fully));
}

#[test]
fn errors_bundle_kind_and_result() {
    let r = CmdResult {
        success: false,
        raw_data: "raw".to_string(),
        status_lines: Vec::new(),
        operation: Operation::Sign,
    };
    let e = GPGError::new(
        GPGErrorType::WriteFailError("pipe closed".to_string()),
        Some(r),
    );
    assert!(matches!(e.error_type, GPGErrorType::WriteFailError(_)));
    assert_eq!(e.cmd_result.unwrap().raw_data, "raw");
}

#[test]
fn probe_args_request_machine_readable_config() {
    assert_eq!(GPG::probe_args(), vec!["--list-config", "--with-colons"]);
}
