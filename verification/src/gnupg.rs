//! The shared configuration object and the operations built on it.
//!
//! A `GPG` value is created once per home directory and shared read-only
//! across invocations: it holds the directories, environment overrides,
//! extra options, the armor flag and the tool's capability version.  Each
//! operation validates its inputs first — anything that can be rejected
//! without spawning a process is — and then assembles a complete
//! `InvocationRequest` for the embedder to run.

use vstd::prelude::*;

use crate::enums::Operation;
use crate::errors::{GPGError, GPGErrorType};
use crate::external::{machine_hostname, now_timestamp};
use crate::keygen::{gen_key_input, params_view};
use crate::passphrase::{is_passphrase_valid, passphrase_ok};
use crate::request::{
    baseline_args_spec, build_invocation, input_choice, opt_args_view, version_modern, InputSource,
    InvocationRequest,
};
use crate::response::CmdResult;
use crate::text::split_text;
use crate::version::{get_gpg_version, probe_has_version, probe_version_text, Version};

verus! {

/// View of an optional string.
pub open spec fn opt_str_view(o: Option<String>) -> Option<Seq<char>> {
    match o {
        Option::Some(s) => Option::Some(s@),
        Option::None => Option::None,
    }
}

/// Views of an optional string list; empty when absent.
pub open spec fn opt_list_view(o: Option<Vec<String>>) -> Seq<Seq<char>> {
    match o {
        Option::Some(v) => v.deep_view(),
        Option::None => Seq::empty(),
    }
}

/// View of the optional environment overrides.
pub open spec fn env_view(e: Option<Vec<(String, String)>>) -> Option<
    Seq<(Seq<char>, Seq<char>)>,
> {
    match e {
        Option::Some(v) => Option::Some(params_view(v@)),
        Option::None => Option::None,
    }
}

/// The extension a default output file inherits: the part of the input
/// path after its last dot, or the tool's own extension when the input has
/// no named path or no dot.
pub open spec fn extension_of(p: Option<Seq<char>>) -> Seq<char> {
    match p {
        Option::Some(s) => {
            let parts = split_text(s, '.');
            if parts.len() >= 2 {
                parts.last()
            } else {
                "gpg"@
            }
        },
        Option::None => "gpg"@,
    }
}

/// Read the extension off an optional input path.
pub fn get_file_extension(file_path: &Option<String>) -> (r: String)
    ensures
        r@ == extension_of(opt_str_view(*file_path)),
{
    match file_path {
        Some(p) => {
            let parts = crate::text::split_on(p.as_str(), '.');
            if parts.len() >= 2 {
                proof {
                    assert(parts.deep_view()[parts@.len() - 1] == parts@[parts@.len() - 1]@);
                }
                parts[parts.len() - 1].clone()
            } else {
                String::from_str("gpg")
            }
        },
        None => String::from_str("gpg"),
    }
}

/// Route the output to an explicit path, overwriting without confirmation.
pub fn set_output_without_confirmation(args: &mut Vec<String>, output: &str)
    ensures
        final(args).deep_view() == old(args).deep_view() + seq!["--yes"@, "--output"@, output@],
{
    let ghost before = args.deep_view();
    args.push(String::from_str("--yes"));
    args.push(String::from_str("--output"));
    args.push(output.to_owned());
    proof {
        assert(args.deep_view() =~= before + seq!["--yes"@, "--output"@, output@]);
    }
}

/// One `--recipient` pair per recipient key id, in order.
pub open spec fn recipient_args(rs: Seq<Seq<char>>) -> Seq<Seq<char>>
    decreases rs.len(),
{
    if rs.len() == 0 {
        Seq::empty()
    } else {
        seq!["--recipient"@, rs[0]] + recipient_args(rs.drop_first())
    }
}

/// The tag default output names carry for the encryption modes used.
pub open spec fn encrypt_type_tag(symmetric: bool, has_recipients: bool) -> Seq<char> {
    (if symmetric {
        "pass_"@
    } else {
        Seq::<char>::empty()
    }) + (if has_recipients {
        "keys_"@
    } else {
        Seq::<char>::empty()
    })
}

/// The default output path of an encryption.
pub open spec fn default_encrypt_output(
    output_dir: Seq<char>,
    etype: Seq<char>,
    ts: Seq<char>,
    ext: Seq<char>,
) -> Seq<char> {
    output_dir + etype + "_encrypted_file_"@ + ts + seq!['.'] + ext
}

/// The default output path of a decryption.
pub open spec fn default_decrypt_output(output_dir: Seq<char>, ts: Seq<char>, ext: Seq<char>) -> Seq<
    char,
> {
    output_dir + "decrypted_file_"@ + ts + seq!['.'] + ext
}

/// The symmetric-mode arguments.
pub open spec fn sym_args_spec(symmetric: bool, symmetric_algo: Option<Seq<char>>) -> Seq<
    Seq<char>,
> {
    if symmetric {
        seq!["--symmetric"@, "--no-symkey-cache"@] + (match symmetric_algo {
            Option::Some(a) => seq!["--personal-cipher-preferences"@, a],
            Option::None => Seq::<Seq<char>>::empty(),
        })
    } else {
        Seq::<Seq<char>>::empty()
    }
}

/// The recipient-key arguments.
pub open spec fn rec_args_spec(recipients: Option<Seq<Seq<char>>>) -> Seq<Seq<char>> {
    match recipients {
        Option::Some(rs) => seq!["--encrypt"@] + recipient_args(rs),
        Option::None => Seq::<Seq<char>>::empty(),
    }
}

/// The armor flag, when set.
pub open spec fn armor_args_spec(armor: bool) -> Seq<Seq<char>> {
    if armor {
        seq!["--armor"@]
    } else {
        Seq::<Seq<char>>::empty()
    }
}

/// The output routing: an explicit path overwritten without confirmation,
/// or a generated default name.
pub open spec fn output_args_spec(output: Option<Seq<char>>, default_name: Seq<char>) -> Seq<
    Seq<char>,
> {
    match output {
        Option::Some(o) => seq!["--yes"@, "--output"@, o],
        Option::None => seq!["--output"@, default_name],
    }
}

/// The signing arguments.
pub open spec fn sign_args_spec(sign: bool, sign_key: Option<Seq<char>>) -> Seq<Seq<char>> {
    if sign {
        match sign_key {
            Option::Some(k) => seq!["--sign"@, "--default-key"@, k],
            Option::None => seq!["--sign"@],
        }
    } else {
        Seq::<Seq<char>>::empty()
    }
}

/// The trust-model override, when keys are always trusted.
pub open spec fn trust_args_spec(always_trust: bool) -> Seq<Seq<char>> {
    if always_trust {
        seq!["--trust-model"@, "always"@]
    } else {
        Seq::<Seq<char>>::empty()
    }
}

/// The operation-specific argument sequence of an encryption, given the
/// timestamp a default output name would carry.
pub open spec fn encrypt_args_spec(
    armor: bool,
    output_dir: Seq<char>,
    file_path: Option<Seq<char>>,
    recipients: Option<Seq<Seq<char>>>,
    sign: bool,
    sign_key: Option<Seq<char>>,
    symmetric: bool,
    symmetric_algo: Option<Seq<char>>,
    always_trust: bool,
    output: Option<Seq<char>>,
    extra: Seq<Seq<char>>,
    ts: Seq<char>,
) -> Seq<Seq<char>> {
    sym_args_spec(symmetric, symmetric_algo) + rec_args_spec(recipients) + armor_args_spec(armor)
        + output_args_spec(
        output,
        default_encrypt_output(
            output_dir,
            encrypt_type_tag(symmetric, recipients is Some),
            ts,
            extension_of(file_path),
        ),
    ) + sign_args_spec(sign, sign_key) + trust_args_spec(always_trust) + extra
}

/// The operation-specific argument sequence of a decryption, given the
/// timestamp a default output name would carry.
pub open spec fn decrypt_args_spec(
    output_dir: Seq<char>,
    file_path: Option<Seq<char>>,
    recipient: Option<Seq<char>>,
    always_trust: bool,
    output: Option<Seq<char>>,
    extra: Seq<Seq<char>>,
    ts: Seq<char>,
) -> Seq<Seq<char>> {
    seq!["--decrypt"@] + (match recipient {
        Option::Some(r) => seq!["--recipient"@, r],
        Option::None => Seq::<Seq<char>>::empty(),
    }) + trust_args_spec(always_trust) + output_args_spec(
        output,
        default_decrypt_output(output_dir, ts, extension_of(file_path)),
    ) + extra
}

/// Copy an optional string.
fn clone_opt_string(o: &Option<String>) -> (r: Option<String>)
    ensures
        r == *o,
{
    match o {
        Some(s) => Some(s.clone()),
        None => None,
    }
}

/// Copy the extra options, preserving their views.
fn clone_options(o: &Option<Vec<String>>) -> (r: Option<Vec<String>>)
    ensures
        opt_args_view(r) == opt_args_view(*o),
        r is Some <==> *o is Some,
{
    match o {
        Some(v) => {
            let c = v.clone();
            proof {
                broadcast use vstd::std_specs::vec::vec_clone_deep_view_proof;

                assert(c.deep_view() == v.deep_view());
            }
            Some(c)
        },
        None => None,
    }
}

/// Copy the environment overrides, preserving their views.
fn clone_env(e: &Option<Vec<(String, String)>>) -> (r: Option<Vec<(String, String)>>)
    ensures
        env_view(r) == env_view(*e),
{
    match e {
        Some(v) => {
            let mut c: Vec<(String, String)> = Vec::new();
            let mut i: usize = 0;
            proof {
                assert(params_view(c@) =~= params_view(v@).take(0));
            }
            while i < v.len()
                invariant
                    i <= v.len(),
                    params_view(c@) == params_view(v@).take(i as int),
                decreases v.len() - i,
            {
                let p = &v[i];
                let ghost old_c = c@;
                let nk = p.0.clone();
                let nv = p.1.clone();
                let ghost pushed = (nk, nv);
                c.push((nk, nv));
                proof {
                    assert(params_view(v@).len() == v@.len());
                    assert(params_view(old_c).len() == old_c.len());
                    assert(c@ == old_c.push(pushed));
                    assert(params_view(v@)[i as int] == (v@[i as int].0@, v@[i as int].1@));
                    assert(params_view(c@) =~= params_view(v@).take(i as int + 1));
                }
                i += 1;
            }
            proof {
                assert(params_view(v@).take(v@.len() as int) =~= params_view(v@));
            }
            Some(c)
        },
        None => None,
    }
}

/// Build the `--recipient` argument pairs.
fn recipient_args_vec(rs: &Vec<String>) -> (r: Vec<String>)
    ensures
        r.deep_view() == recipient_args(rs.deep_view()),
{
    let ghost rv = rs.deep_view();
    let mut r: Vec<String> = Vec::new();
    let mut i: usize = 0;
    proof {
        assert(rv.skip(0) =~= rv);
        assert(r.deep_view() + recipient_args(rv) =~= recipient_args(rv));
    }
    while i < rs.len()
        invariant
            i <= rs.len() == rv.len(),
            rv == rs.deep_view(),
            recipient_args(rv) == r.deep_view() + recipient_args(rv.skip(i as int)),
        decreases rs.len() - i,
    {
        proof {
            assert(rv[i as int] == rs@[i as int]@);
            assert(rv.skip(i as int)[0] == rv[i as int]);
            assert(rv.skip(i as int).drop_first() =~= rv.skip(i as int + 1));
        }
        let ghost before = r.deep_view();
        r.push(String::from_str("--recipient"));
        r.push(rs[i].clone());
        proof {
            assert(r.deep_view() =~= before + seq!["--recipient"@, rv[i as int]]);
            assert(before + (seq!["--recipient"@, rv[i as int]] + recipient_args(
                rv.skip(i as int + 1),
            )) =~= (before + seq!["--recipient"@, rv[i as int]]) + recipient_args(
                rv.skip(i as int + 1),
            ));
        }
        i += 1;
    }
    proof {
        assert(recipient_args(rv.skip(i as int)) =~= Seq::<Seq<char>>::empty());
        assert(r.deep_view() + recipient_args(rv.skip(i as int)) =~= r.deep_view());
    }
    r
}

/// Options of one encryption, assembled by the caller.  The open file
/// handle, when one is used, stays with the embedder: the option only
/// records its presence.
#[derive(Debug)]
pub struct EncryptOption {
    pub file_handle: bool,
    pub file_path: Option<String>,
    pub recipients: Option<Vec<String>>,
    pub sign: bool,
    pub sign_key: Option<String>,
    pub symmetric: bool,
    pub symmetric_algo: Option<String>,
    pub always_trust: bool,
    pub passphrase: Option<String>,
    pub output: Option<String>,
    pub extra_args: Option<Vec<String>>,
}

impl EncryptOption {
    /// Encryption to recipient keys alone, trusting them always.
    pub fn default(
        file_handle: bool,
        file_path: Option<String>,
        recipients: Option<Vec<String>>,
        output: Option<String>,
    ) -> (r: EncryptOption)
        ensures
            r == (EncryptOption {
                file_handle,
                file_path,
                recipients,
                sign: false,
                sign_key: None,
                symmetric: false,
                symmetric_algo: None,
                always_trust: true,
                passphrase: None,
                output,
                extra_args: None,
            }),
    {
        EncryptOption {
            file_handle,
            file_path,
            recipients,
            sign: false,
            sign_key: None,
            symmetric: false,
            symmetric_algo: None,
            always_trust: true,
            passphrase: None,
            output,
            extra_args: None,
        }
    }

    /// Symmetric encryption under a passphrase instead of keys.
    pub fn with_symmetric(
        file_handle: bool,
        file_path: Option<String>,
        symmetric_algo: Option<String>,
        passphrase: Option<String>,
        output: Option<String>,
    ) -> (r: EncryptOption)
        ensures
            r == (EncryptOption {
                file_handle,
                file_path,
                recipients: None,
                sign: false,
                sign_key: None,
                symmetric: true,
                symmetric_algo,
                always_trust: true,
                passphrase,
                output,
                extra_args: None,
            }),
    {
        EncryptOption {
            file_handle,
            file_path,
            recipients: None,
            sign: false,
            sign_key: None,
            symmetric: true,
            symmetric_algo,
            always_trust: true,
            passphrase,
            output,
            extra_args: None,
        }
    }

    /// Encryption both to recipient keys and symmetrically under a
    /// passphrase.
    pub fn with_key_and_symmetric(
        file_handle: bool,
        file_path: Option<String>,
        recipients: Option<Vec<String>>,
        symmetric_algo: Option<String>,
        passphrase: Option<String>,
        output: Option<String>,
    ) -> (r: EncryptOption)
        ensures
            r == (EncryptOption {
                file_handle,
                file_path,
                recipients,
                sign: false,
                sign_key: None,
                symmetric: true,
                symmetric_algo,
                always_trust: true,
                passphrase,
                output,
                extra_args: None,
            }),
    {
        EncryptOption {
            file_handle,
            file_path,
            recipients,
            sign: false,
            sign_key: None,
            symmetric: true,
            symmetric_algo,
            always_trust: true,
            passphrase,
            output,
            extra_args: None,
        }
    }
}

/// Options of one decryption, assembled by the caller.
#[derive(Debug)]
pub struct DecryptOption {
    pub file_handle: bool,
    pub file_path: Option<String>,
    pub recipient: Option<String>,
    pub always_trust: bool,
    pub passphrase: Option<String>,
    pub key_passphrase: Option<String>,
    pub output: Option<String>,
    pub extra_args: Option<Vec<String>>,
}

impl DecryptOption {
    /// Decryption with a secret key, whose passphrase is given when the key
    /// is protected.
    pub fn default(
        file_handle: bool,
        file_path: Option<String>,
        recipient: Option<String>,
        key_passphrase: Option<String>,
        output: Option<String>,
    ) -> (r: DecryptOption)
        ensures
            r == (DecryptOption {
                file_handle,
                file_path,
                recipient,
                always_trust: true,
                passphrase: None,
                key_passphrase,
                output,
                extra_args: None,
            }),
    {
        DecryptOption {
            file_handle,
            file_path,
            recipient,
            always_trust: true,
            passphrase: None,
            key_passphrase,
            output,
            extra_args: None,
        }
    }

    /// Decryption of symmetrically encrypted data under its passphrase.
    pub fn with_symmetric(
        file_handle: bool,
        file_path: Option<String>,
        passphrase: Option<String>,
        output: Option<String>,
    ) -> (r: DecryptOption)
        ensures
            r == (DecryptOption {
                file_handle,
                file_path,
                recipient: None,
                always_trust: true,
                passphrase,
                key_passphrase: None,
                output,
                extra_args: None,
            }),
    {
        DecryptOption {
            file_handle,
            file_path,
            recipient: None,
            always_trust: true,
            passphrase,
            key_passphrase: None,
            output,
            extra_args: None,
        }
    }
}


/// View of optional recipients.
pub open spec fn opt_recips_view(o: Option<Vec<String>>) -> Option<Seq<Seq<char>>> {
    match o {
        Option::Some(v) => Option::Some(v.deep_view()),
        Option::None => Option::None,
    }
}

/// The shared configuration: directories, environment overrides, extra
/// options, the armor flag and the tool's capability version.  Created once
/// and shared read-only across invocations.
#[derive(Debug)]
pub struct GPG {
    /// Directory holding the local keys.
    pub homedir: String,
    /// Directory default output files are written to.
    pub output_dir: String,
    /// Environment overrides passed to every spawned process.
    pub env: Option<Vec<(String, String)>>,
    /// Keyring files to use instead of the default keyring.
    pub keyrings: Option<Vec<String>>,
    /// Secret keyring files to use.
    pub secret_keyring: Option<Vec<String>>,
    /// Extra arguments passed to every invocation.
    pub options: Option<Vec<String>>,
    /// Whether output is ASCII-armored.
    pub armor: bool,
    /// The tool's capability version, set once from the start-up probe.
    pub version: Version,
}

impl GPG {
    /// The arguments of the start-up probe whose output names the version.
    pub fn probe_args() -> (r: Vec<String>)
        ensures
            r.deep_view() == seq!["--list-config"@, "--with-colons"@],
    {
        let mut r: Vec<String> = Vec::new();
        r.push(String::from_str("--list-config"));
        r.push(String::from_str("--with-colons"));
        proof {
            assert(r.deep_view() =~= seq!["--list-config"@, "--with-colons"@]);
        }
        r
    }

    /// Build the configuration from validated directories and the completed
    /// start-up probe.  Fails exactly when the probe output names no
    /// parsable version: every later operation depends on the version.
    pub fn init(homedir: String, output_dir: String, armor: bool, probe: &CmdResult) -> (r: Result<
        GPG,
        GPGError,
    >)
        ensures
            r is Ok <==> probe_has_version(probe.raw_data@),
            r is Ok ==> ({
                let g = r.unwrap();
                &&& g.homedir == homedir
                &&& g.output_dir == output_dir
                &&& g.armor == armor
                &&& g.env is None
                &&& g.keyrings is None
                &&& g.secret_keyring is None
                &&& g.options is None
                &&& g.version.wf()
                &&& g.version.full@ == probe_version_text(probe.raw_data@)
            }),
            r is Err ==> r.unwrap_err().error_type is GPGInitError,
    {
        match get_gpg_version(probe) {
            Ok(version) => Ok(
                GPG {
                    homedir,
                    output_dir,
                    env: None,
                    keyrings: None,
                    secret_keyring: None,
                    options: None,
                    armor,
                    version,
                },
            ),
            Err(e) => Err(e),
        }
    }

    /// Assemble a key-generation invocation.  The passphrase, when given,
    /// is validated first and will protect the new key; without one the
    /// input document carries the no-protection directive.  The login name
    /// is the caller's, read from its environment; the machine's hostname
    /// completes the default e-mail address.
    pub fn gen_key(
        &self,
        key_passphrase: Option<String>,
        args: Option<Vec<(String, String)>>,
        login_name: Option<String>,
    ) -> (r: Result<InvocationRequest, GPGError>)
        ensures
            r is Err <==> (key_passphrase matches Some(p) && !passphrase_ok(p@)),
            r is Err ==> r.unwrap_err().error_type is PassphraseError,
            r is Ok ==> ({
                let q = r.unwrap();
                &&& q.operation == Operation::GenerateKey
                &&& q.passphrase == key_passphrase
                &&& q.homedir == self.homedir
                &&& env_view(q.env) == env_view(self.env)
                &&& (q.input matches InputSource::Bytes(b) && (exists|doc: Seq<char>|
                    b@ == #[trigger] vstd::utf8::encode_utf8(doc) && doc.len() >= 8 && doc.subrange(
                        doc.len() - 8,
                        doc.len() as int,
                    ) == "%commit"@ + seq!['\n'] && crate::text::has_prefix(
                        doc,
                        "Key-Type"@ + seq![':', ' '],
                    )))
                &&& q.args.deep_view() == baseline_args_spec(
                    self.homedir@,
                    version_modern(self.version),
                    key_passphrase is Some,
                ) + opt_args_view(self.options) + seq!["--gen-key"@]
            }),
    {
        let has_passphrase = match &key_passphrase {
            Some(p) => {
                if !is_passphrase_valid(p.as_str()) {
                    return Err(
                        GPGError::new(
                            GPGErrorType::PassphraseError(
                                String::from_str("key passphrase invalid"),
                            ),
                            None,
                        ),
                    );
                }
                true
            },
            None => false,
        };
        let params = match args {
            Some(v) => v,
            None => Vec::new(),
        };
        let login = match login_name {
            Some(l) => l,
            None => String::from_str("unspecified"),
        };
        let host = match machine_hostname() {
            Some(h) => h,
            None => String::from_str("unknown"),
        };
        let input = gen_key_input(&params, has_passphrase, &login, &host);
        let input_bytes = input.as_str().as_bytes_vec();
        let ghost doc = input@;
        proof {
            assert(input_bytes@ == vstd::utf8::encode_utf8(doc));
        }
        let mut cmd: Vec<String> = Vec::new();
        cmd.push(String::from_str("--gen-key"));
        proof {
            assert(cmd.deep_view() =~= seq!["--gen-key"@]);
        }
        let result = build_invocation(
            cmd,
            key_passphrase,
            &self.version,
            self.homedir.clone(),
            clone_options(&self.options),
            clone_env(&self.env),
            false,
            None,
            Some(input_bytes),
            true,
            Operation::GenerateKey,
        );
        match result {
            Ok(q) => Ok(q),
            Err(e) => Err(e),
        }
    }

    /// Assemble a key-listing invocation: public keys, secret keys, or keys
    /// with signatures; fingerprints are asked for twice so subkeys carry
    /// theirs too, and keygrips are asked for on versions that know them.
    pub fn list_keys(&self, secret: bool, keys: Option<Vec<String>>, signature: bool) -> (r:
        InvocationRequest)
        ensures
            r.operation == Operation::ListKey,
            r.passphrase is None,
            r.input is NoInput,
            r.homedir == self.homedir,
            env_view(r.env) == env_view(self.env),
            r.args.deep_view() == baseline_args_spec(
                self.homedir@,
                version_modern(self.version),
                false,
            ) + opt_args_view(self.options) + seq![
                "--list-"@ + (if secret {
                    "secret-keys"@
                } else if signature {
                    "sigs"@
                } else {
                    "keys"@
                }),
                "--fingerprint"@,
                "--fingerprint"@,
            ] + (if version_modern(self.version) {
                seq!["--with-keygrip"@]
            } else {
                Seq::<Seq<char>>::empty()
            }) + opt_list_view(keys),
    {
        let mut cmd = String::from_str("--list-");
        if secret {
            cmd.append("secret-keys");
        } else if signature {
            cmd.append("sigs");
        } else {
            cmd.append("keys");
        }
        let mut args: Vec<String> = Vec::new();
        args.push(cmd);
        args.push(String::from_str("--fingerprint"));
        args.push(String::from_str("--fingerprint"));
        if self.version.at_least(2, 1) {
            args.push(String::from_str("--with-keygrip"));
        }
        let ghost head = args.deep_view();
        match keys {
            Some(ks) => {
                let ghost ks_dv = ks.deep_view();
                let mut rest = ks;
                args.append(&mut rest);
                proof {
                    assert(args.deep_view() =~= head + ks_dv);
                }
            },
            None => {
                proof {
                    assert(args.deep_view() =~= head + Seq::<Seq<char>>::empty());
                }
            },
        }
        let result = build_invocation(
            args,
            None,
            &self.version,
            self.homedir.clone(),
            clone_options(&self.options),
            clone_env(&self.env),
            false,
            None,
            None,
            false,
            Operation::ListKey,
        );
        match result {
            Ok(q) => q,
            Err(_) => {
                // listing needs no input source, so assembly cannot refuse it
                proof {
                    assert(false);
                }
                vstd::pervasive::unreached()
            },
        }
    }
}


impl GPG {
    /// Build the operation-specific arguments of an encryption, with `ts`
    /// as the timestamp a generated default output name carries.  Symmetric
    /// encryption without a passphrase, and encryption with neither a
    /// passphrase mode nor recipients, are refused here, before any process
    /// could be spawned.
    #[verifier::rlimit(100)]
    #[verifier::spinoff_prover]
    pub fn gen_encrypt_args(
        &self,
        file_path: &Option<String>,
        recipients: &Option<Vec<String>>,
        sign: bool,
        sign_key: &Option<String>,
        symmetric: bool,
        symmetric_algo: &Option<String>,
        always_trust: bool,
        passphrase: &Option<String>,
        output: &Option<String>,
        extra_args: &Option<Vec<String>>,
        ts: &String,
    ) -> (r: Result<Vec<String>, GPGError>)
        ensures
            r is Ok <==> ((symmetric ==> *passphrase is Some) && (symmetric || *recipients
                is Some)),
            symmetric && *passphrase is None ==> r is Err && r.unwrap_err().error_type
                is PassphraseError,
            !symmetric && *recipients is None ==> r is Err && r.unwrap_err().error_type
                is InvalidArgumentError,
            r is Err ==> r.unwrap_err().cmd_result is None,
            r is Ok ==> r.unwrap().deep_view() == encrypt_args_spec(
                self.armor,
                self.output_dir@,
                opt_str_view(*file_path),
                opt_recips_view(*recipients),
                sign,
                opt_str_view(*sign_key),
                symmetric,
                opt_str_view(*symmetric_algo),
                always_trust,
                opt_str_view(*output),
                opt_list_view(*extra_args),
                ts@,
            ),
    {
        let mut args: Vec<String> = Vec::new();
        if symmetric {
            if passphrase.is_none() {
                return Err(
                    GPGError::new(
                        GPGErrorType::PassphraseError(
                            String::from_str(
                                "passphrase is required if encrypting symmetrically ",
                            ),
                        ),
                        None,
                    ),
                );
            }
            args.push(String::from_str("--symmetric"));
            args.push(String::from_str("--no-symkey-cache"));
            match symmetric_algo {
                Some(a) => {
                    args.push(String::from_str("--personal-cipher-preferences"));
                    args.push(a.clone());
                },
                None => {},
            }
        }
        proof {
            assert(args.deep_view() =~= sym_args_spec(symmetric, opt_str_view(*symmetric_algo)));
        }
        let ghost p1 = args.deep_view();
        match recipients {
            Some(rs) => {
                args.push(String::from_str("--encrypt"));
                let mut ra = recipient_args_vec(rs);
                let ghost ra_dv = ra.deep_view();
                args.append(&mut ra);
                proof {
                    assert(args.deep_view() =~= p1 + (seq!["--encrypt"@] + ra_dv));
                }
            },
            None => {
                if !symmetric {
                    return Err(
                        GPGError::new(
                            GPGErrorType::InvalidArgumentError(
                                String::from_str(
                                    "Please choose symmetric or keys to encrypt your file",
                                ),
                            ),
                            None,
                        ),
                    );
                }
                proof {
                    assert(args.deep_view() =~= p1 + Seq::<Seq<char>>::empty());
                }
            },
        }
        proof {
            assert(args.deep_view() =~= p1 + rec_args_spec(opt_recips_view(*recipients)));
        }
        let ghost p2 = args.deep_view();
        if self.armor {
            args.push(String::from_str("--armor"));
        }
        proof {
            assert(args.deep_view() =~= p2 + armor_args_spec(self.armor));
        }
        let ghost p3 = args.deep_view();
        match output {
            Some(o) => {
                set_output_without_confirmation(&mut args, o.as_str());
            },
            None => {
                let ext = get_file_extension(file_path);
                let mut name = self.output_dir.clone();
                if symmetric {
                    name.append("pass_");
                }
                if recipients.is_some() {
                    name.append("keys_");
                }
                name.append("_encrypted_file_");
                name.append(ts.as_str());
                name.append(".");
                name.append(ext.as_str());
                proof {
                    reveal_strlit(".");
                    assert("."@ =~= seq!['.']);
                    assert(name@ =~= default_encrypt_output(
                        self.output_dir@,
                        encrypt_type_tag(symmetric, *recipients is Some),
                        ts@,
                        extension_of(opt_str_view(*file_path)),
                    ));
                }
                args.push(String::from_str("--output"));
                args.push(name);
            },
        }
        proof {
            assert(args.deep_view() =~= p3 + output_args_spec(
                opt_str_view(*output),
                default_encrypt_output(
                    self.output_dir@,
                    encrypt_type_tag(symmetric, *recipients is Some),
                    ts@,
                    extension_of(opt_str_view(*file_path)),
                ),
            ));
        }
        let ghost p4 = args.deep_view();
        if sign {
            match sign_key {
                Some(k) => {
                    args.push(String::from_str("--sign"));
                    args.push(String::from_str("--default-key"));
                    args.push(k.clone());
                },
                None => {
                    args.push(String::from_str("--sign"));
                },
            }
        }
        proof {
            assert(args.deep_view() =~= p4 + sign_args_spec(sign, opt_str_view(*sign_key)));
        }
        let ghost p5 = args.deep_view();
        if always_trust {
            args.push(String::from_str("--trust-model"));
            args.push(String::from_str("always"));
        }
        proof {
            assert(args.deep_view() =~= p5 + trust_args_spec(always_trust));
        }
        let ghost p6 = args.deep_view();
        match extra_args {
            Some(e) => {
                let mut c = e.clone();
                proof {
                    broadcast use vstd::std_specs::vec::vec_clone_deep_view_proof;

                    assert(c.deep_view() == e.deep_view());
                }
                let ghost c_dv = c.deep_view();
                args.append(&mut c);
                proof {
                    assert(args.deep_view() =~= p6 + c_dv);
                }
            },
            None => {},
        }
        proof {
            assert(args.deep_view() =~= p6 + opt_list_view(*extra_args));
        }
        Ok(args)
    }

    /// Assemble an encryption invocation from caller-built options: the
    /// passphrase is validated first, the mode selection next, and the data
    /// source last; only then is a request built.  The open file handle,
    /// when the options name one, stays with the embedder.
    pub fn encrypt(&self, encryption_option: EncryptOption) -> (r: Result<
        InvocationRequest,
        GPGError,
    >)
        ensures
            r is Ok <==> ({
                &&& (encryption_option.passphrase matches Some(p) ==> passphrase_ok(p@))
                &&& (encryption_option.symmetric ==> encryption_option.passphrase is Some)
                &&& (encryption_option.symmetric || encryption_option.recipients is Some)
                &&& (encryption_option.file_handle || encryption_option.file_path is Some)
            }),
            encryption_option.passphrase matches Some(p) && !passphrase_ok(p@) ==> r is Err
                && r.unwrap_err().error_type is PassphraseError,
            encryption_option.symmetric && encryption_option.passphrase is None ==> r is Err
                && r.unwrap_err().error_type is PassphraseError,
            (encryption_option.passphrase matches Some(p) ==> passphrase_ok(p@))
                && !encryption_option.symmetric && encryption_option.recipients is None ==> r
                is Err && r.unwrap_err().error_type is InvalidArgumentError,
            r is Ok ==> ({
                let q = r.unwrap();
                &&& q.operation == Operation::Encrypt
                &&& q.passphrase == encryption_option.passphrase
                &&& q.homedir == self.homedir
                &&& env_view(q.env) == env_view(self.env)
                &&& q.input == input_choice(
                    None,
                    encryption_option.file_handle,
                    encryption_option.file_path,
                )
                &&& (exists|ts: Seq<char>|
                    q.args.deep_view() == baseline_args_spec(
                        self.homedir@,
                        version_modern(self.version),
                        encryption_option.passphrase is Some,
                    ) + opt_args_view(self.options) + #[trigger] encrypt_args_spec(
                        self.armor,
                        self.output_dir@,
                        opt_str_view(encryption_option.file_path),
                        opt_recips_view(encryption_option.recipients),
                        encryption_option.sign,
                        opt_str_view(encryption_option.sign_key),
                        encryption_option.symmetric,
                        opt_str_view(encryption_option.symmetric_algo),
                        encryption_option.always_trust,
                        opt_str_view(encryption_option.output),
                        opt_list_view(encryption_option.extra_args),
                        ts,
                    ))
            }),
    {
        match &encryption_option.passphrase {
            Some(p) => {
                if !is_passphrase_valid(p.as_str()) {
                    return Err(
                        GPGError::new(
                            GPGErrorType::PassphraseError(String::from_str("passphrase invalid")),
                            None,
                        ),
                    );
                }
            },
            None => {},
        }
        let ts = now_timestamp();
        let args = match self.gen_encrypt_args(
            &encryption_option.file_path,
            &encryption_option.recipients,
            encryption_option.sign,
            &encryption_option.sign_key,
            encryption_option.symmetric,
            &encryption_option.symmetric_algo,
            encryption_option.always_trust,
            &encryption_option.passphrase,
            &encryption_option.output,
            &encryption_option.extra_args,
            &ts,
        ) {
            Ok(a) => a,
            Err(e) => {
                return Err(e);
            },
        };
        let ghost ts_view = ts@;
        let result = build_invocation(
            args,
            encryption_option.passphrase,
            &self.version,
            self.homedir.clone(),
            clone_options(&self.options),
            clone_env(&self.env),
            encryption_option.file_handle,
            encryption_option.file_path,
            None,
            true,
            Operation::Encrypt,
        );
        match result {
            Ok(q) => {
                proof {
                    assert(q.args.deep_view() == baseline_args_spec(
                        self.homedir@,
                        version_modern(self.version),
                        encryption_option.passphrase is Some,
                    ) + opt_args_view(self.options) + encrypt_args_spec(
                        self.armor,
                        self.output_dir@,
                        opt_str_view(encryption_option.file_path),
                        opt_recips_view(encryption_option.recipients),
                        encryption_option.sign,
                        opt_str_view(encryption_option.sign_key),
                        encryption_option.symmetric,
                        opt_str_view(encryption_option.symmetric_algo),
                        encryption_option.always_trust,
                        opt_str_view(encryption_option.output),
                        opt_list_view(encryption_option.extra_args),
                        ts_view,
                    ));
                }
                Ok(q)
            },
            Err(e) => Err(e),
        }
    }
}


impl GPG {
    /// Build the operation-specific arguments of a decryption.  A generated
    /// default output name carries the moment the arguments were built, so
    /// the exact sequence is fixed only once that timestamp is; an explicit
    /// output path makes the sequence a function of the inputs alone.
    #[verifier::rlimit(60)]
    #[verifier::spinoff_prover]
    pub fn gen_decrypt_args(
        &self,
        file_path: Option<String>,
        recipient: Option<String>,
        always_trust: bool,
        output: Option<String>,
        extra_args: Option<Vec<String>>,
    ) -> (r: Vec<String>)
        ensures
            exists|ts: Seq<char>|
                r.deep_view() == #[trigger] decrypt_args_spec(
                    self.output_dir@,
                    opt_str_view(file_path),
                    opt_str_view(recipient),
                    always_trust,
                    opt_str_view(output),
                    opt_list_view(extra_args),
                    ts,
                ),
            output is Some ==> r.deep_view() == decrypt_args_spec(
                self.output_dir@,
                opt_str_view(file_path),
                opt_str_view(recipient),
                always_trust,
                opt_str_view(output),
                opt_list_view(extra_args),
                Seq::<char>::empty(),
            ),
    {
        let ts = now_timestamp();
        let ghost ts_view = ts@;
        let mut args: Vec<String> = Vec::new();
        args.push(String::from_str("--decrypt"));
        proof {
            assert(args.deep_view() =~= seq!["--decrypt"@]);
        }
        let ghost p1 = args.deep_view();
        match &recipient {
            Some(rc) => {
                args.push(String::from_str("--recipient"));
                args.push(rc.clone());
                proof {
                    assert(args.deep_view() =~= p1 + seq!["--recipient"@, rc@]);
                }
            },
            None => {},
        }
        let ghost p2 = args.deep_view();
        if always_trust {
            args.push(String::from_str("--trust-model"));
            args.push(String::from_str("always"));
        }
        proof {
            assert(args.deep_view() =~= p2 + trust_args_spec(always_trust));
        }
        let ghost p3 = args.deep_view();
        match &output {
            Some(o) => {
                set_output_without_confirmation(&mut args, o.as_str());
            },
            None => {
                let ext = get_file_extension(&file_path);
                let mut name = self.output_dir.clone();
                name.append("decrypted_file_");
                name.append(ts.as_str());
                name.append(".");
                name.append(ext.as_str());
                proof {
                    reveal_strlit(".");
                    assert("."@ =~= seq!['.']);
                    assert(name@ =~= default_decrypt_output(
                        self.output_dir@,
                        ts_view,
                        extension_of(opt_str_view(file_path)),
                    ));
                }
                args.push(String::from_str("--output"));
                args.push(name);
            },
        }
        proof {
            assert(args.deep_view() =~= p3 + output_args_spec(
                opt_str_view(output),
                default_decrypt_output(
                    self.output_dir@,
                    ts_view,
                    extension_of(opt_str_view(file_path)),
                ),
            ));
        }
        let ghost p4 = args.deep_view();
        match &extra_args {
            Some(e) => {
                let mut c = e.clone();
                proof {
                    broadcast use vstd::std_specs::vec::vec_clone_deep_view_proof;

                    assert(c.deep_view() == e.deep_view());
                }
                let ghost c_dv = c.deep_view();
                args.append(&mut c);
                proof {
                    assert(args.deep_view() =~= p4 + c_dv);
                }
            },
            None => {},
        }
        proof {
            assert(args.deep_view() =~= p4 + opt_list_view(extra_args));
            assert(args.deep_view() == decrypt_args_spec(
                self.output_dir@,
                opt_str_view(file_path),
                opt_str_view(recipient),
                always_trust,
                opt_str_view(output),
                opt_list_view(extra_args),
                ts_view,
            ));
            if output is Some {
                assert(args.deep_view() == decrypt_args_spec(
                    self.output_dir@,
                    opt_str_view(file_path),
                    opt_str_view(recipient),
                    always_trust,
                    opt_str_view(output),
                    opt_list_view(extra_args),
                    Seq::<char>::empty(),
                ));
            }
        }
        args
    }

    /// Assemble a decryption invocation from caller-built options.  A key
    /// passphrase, when given, wins over a symmetric passphrase; whichever
    /// is used is validated before anything else, and the data source is
    /// checked before a request is built.
    pub fn decrypt(&self, decrypt_option: DecryptOption) -> (r: Result<
        InvocationRequest,
        GPGError,
    >)
        ensures
            r is Ok <==> ({
                &&& (decrypt_option.key_passphrase matches Some(p) ==> passphrase_ok(p@))
                &&& (decrypt_option.key_passphrase is None ==> (decrypt_option.passphrase
                    matches Some(p) ==> passphrase_ok(p@)))
                &&& (decrypt_option.file_handle || decrypt_option.file_path is Some)
            }),
            decrypt_option.key_passphrase matches Some(p) && !passphrase_ok(p@) ==> r is Err
                && r.unwrap_err().error_type is PassphraseError,
            decrypt_option.key_passphrase is None && (decrypt_option.passphrase matches Some(p)
                && !passphrase_ok(p@)) ==> r is Err && r.unwrap_err().error_type
                is PassphraseError,
            r is Ok ==> ({
                let q = r.unwrap();
                &&& q.operation == Operation::Decrypt
                &&& q.passphrase == (if decrypt_option.key_passphrase is Some {
                    decrypt_option.key_passphrase
                } else {
                    decrypt_option.passphrase
                })
                &&& q.homedir == self.homedir
                &&& env_view(q.env) == env_view(self.env)
                &&& q.input == input_choice(
                    None,
                    decrypt_option.file_handle,
                    decrypt_option.file_path,
                )
                &&& (exists|ts: Seq<char>|
                    q.args.deep_view() == baseline_args_spec(
                        self.homedir@,
                        version_modern(self.version),
                        decrypt_option.key_passphrase is Some || decrypt_option.passphrase
                            is Some,
                    ) + opt_args_view(self.options) + #[trigger] decrypt_args_spec(
                        self.output_dir@,
                        opt_str_view(decrypt_option.file_path),
                        opt_str_view(decrypt_option.recipient),
                        decrypt_option.always_trust,
                        opt_str_view(decrypt_option.output),
                        opt_list_view(decrypt_option.extra_args),
                        ts,
                    ))
            }),
    {
        let pass: Option<String> = match decrypt_option.key_passphrase {
            Some(kp) => {
                if !is_passphrase_valid(kp.as_str()) {
                    return Err(
                        GPGError::new(
                            GPGErrorType::PassphraseError(
                                String::from_str("key passphrase invalid"),
                            ),
                            None,
                        ),
                    );
                }
                Some(kp)
            },
            None => {
                match decrypt_option.passphrase {
                    Some(p) => {
                        if !is_passphrase_valid(p.as_str()) {
                            return Err(
                                GPGError::new(
                                    GPGErrorType::PassphraseError(
                                        String::from_str("passphrase invalid"),
                                    ),
                                    None,
                                ),
                            );
                        }
                        Some(p)
                    },
                    None => None,
                }
            },
        };
        let fp = clone_opt_string(&decrypt_option.file_path);
        let args = self.gen_decrypt_args(
            fp,
            decrypt_option.recipient,
            decrypt_option.always_trust,
            decrypt_option.output,
            decrypt_option.extra_args,
        );
        let ghost args_dv = args.deep_view();
        let ghost tsw = choose|ts: Seq<char>|
            args_dv == #[trigger] decrypt_args_spec(
                self.output_dir@,
                opt_str_view(decrypt_option.file_path),
                opt_str_view(decrypt_option.recipient),
                decrypt_option.always_trust,
                opt_str_view(decrypt_option.output),
                opt_list_view(decrypt_option.extra_args),
                ts,
            );
        let result = build_invocation(
            args,
            pass,
            &self.version,
            self.homedir.clone(),
            clone_options(&self.options),
            clone_env(&self.env),
            decrypt_option.file_handle,
            decrypt_option.file_path,
            None,
            true,
            Operation::Decrypt,
        );
        match result {
            Ok(q) => {
                proof {
                    assert(q.args.deep_view() == baseline_args_spec(
                        self.homedir@,
                        version_modern(self.version),
                        pass is Some,
                    ) + opt_args_view(self.options) + decrypt_args_spec(
                        self.output_dir@,
                        opt_str_view(decrypt_option.file_path),
                        opt_str_view(decrypt_option.recipient),
                        decrypt_option.always_trust,
                        opt_str_view(decrypt_option.output),
                        opt_list_view(decrypt_option.extra_args),
                        tsw,
                    ));
                }
                Ok(q)
            },
            Err(e) => Err(e),
        }
    }

    /// Install extra arguments passed to every later invocation.
    pub fn set_option(&mut self, options: Vec<String>)
        ensures
            final(self).options == Some(options),
            final(self).homedir == old(self).homedir,
            final(self).output_dir == old(self).output_dir,
            final(self).env == old(self).env,
            final(self).keyrings == old(self).keyrings,
            final(self).secret_keyring == old(self).secret_keyring,
            final(self).armor == old(self).armor,
            final(self).version == old(self).version,
    {
        self.options = Some(options);
    }

    /// Drop the extra arguments.
    pub fn clear_option(&mut self)
        ensures
            final(self).options is None,
            final(self).homedir == old(self).homedir,
            final(self).output_dir == old(self).output_dir,
            final(self).env == old(self).env,
            final(self).keyrings == old(self).keyrings,
            final(self).secret_keyring == old(self).secret_keyring,
            final(self).armor == old(self).armor,
            final(self).version == old(self).version,
    {
        self.options = None;
    }

    /// Install environment overrides passed to every later invocation.
    pub fn set_env(&mut self, env: Vec<(String, String)>)
        ensures
            final(self).env == Some(env),
            final(self).homedir == old(self).homedir,
            final(self).output_dir == old(self).output_dir,
            final(self).options == old(self).options,
            final(self).keyrings == old(self).keyrings,
            final(self).secret_keyring == old(self).secret_keyring,
            final(self).armor == old(self).armor,
            final(self).version == old(self).version,
    {
        self.env = Some(env);
    }

    /// Drop the environment overrides.
    pub fn clear_env(&mut self)
        ensures
            final(self).env is None,
            final(self).homedir == old(self).homedir,
            final(self).output_dir == old(self).output_dir,
            final(self).options == old(self).options,
            final(self).keyrings == old(self).keyrings,
            final(self).secret_keyring == old(self).secret_keyring,
            final(self).armor == old(self).armor,
            final(self).version == old(self).version,
    {
        self.env = None;
    }
}

} // verus!
