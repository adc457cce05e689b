//! Invocation requests: everything one run of the external tool needs,
//! assembled and validated before any process is spawned.
//!
//! The baseline argument set forces non-interactive batch behaviour,
//! disables terminal prompts, directs status records to a stream of their
//! own, and pins the configured home directory; the caller's
//! operation-specific arguments follow it.  A passphrase never stands on
//! the command line and never shares the standard-input stream with file
//! content: it travels over a dedicated single-use pipe that the command
//! line names only by file descriptor.

use vstd::prelude::*;

use crate::enums::Operation;
use crate::errors::{GPGError, GPGErrorType};
use crate::version::Version;

verus! {

/// Where the data fed to the external tool comes from.  An open file handle
/// itself lives with the embedder; the request only records that one is
/// present.
#[derive(Debug)]
pub enum InputSource {
    /// An in-memory byte buffer, streamed to the tool's standard input.
    Bytes(Vec<u8>),
    /// An open file handle held by the embedder, streamed to standard input.
    Handle,
    /// A file path, opened and streamed by the embedder.
    Path(String),
    /// No data channel: the operation works from arguments alone.
    NoInput,
}

/// The input precedence: an explicit byte buffer wins over an open file
/// handle, which wins over a file path; otherwise there is no data channel.
pub open spec fn input_choice(
    bytes: Option<Vec<u8>>,
    has_handle: bool,
    path: Option<String>,
) -> InputSource {
    if bytes is Some {
        InputSource::Bytes(bytes.unwrap())
    } else if has_handle {
        InputSource::Handle
    } else if path is Some {
        InputSource::Path(path.unwrap())
    } else {
        InputSource::NoInput
    }
}

/// Pick the input source by the fixed precedence.
pub fn select_input(bytes: Option<Vec<u8>>, has_handle: bool, path: Option<String>) -> (r:
    InputSource)
    ensures
        r == input_choice(bytes, has_handle, path),
{
    match bytes {
        Some(b) => InputSource::Bytes(b),
        None => {
            if has_handle {
                InputSource::Handle
            } else {
                match path {
                    Some(p) => InputSource::Path(p),
                    None => InputSource::NoInput,
                }
            }
        },
    }
}

/// One invocation of the external tool: the full argument sequence, the
/// input source, the optional passphrase for the dedicated channel, the
/// environment overrides, the pinned home directory, and the operation tag.
/// Immutable once built; consumed exactly once.
#[derive(Debug)]
pub struct InvocationRequest {
    pub args: Vec<String>,
    pub input: InputSource,
    pub passphrase: Option<String>,
    pub env: Option<Vec<(String, String)>>,
    pub homedir: String,
    pub operation: Operation,
}

/// The baseline argument sequence: batch mode, no terminal, status records
/// to their own stream, the home directory pinned; when a passphrase is to
/// be delivered, the dedicated descriptor is named, with loopback pinentry
/// on tool versions that know it.
pub open spec fn baseline_args_spec(
    homedir: Seq<char>,
    modern: bool,
    with_passphrase: bool,
) -> Seq<Seq<char>> {
    let base = seq!["--batch"@, "--no-tty"@, "--status-fd"@, "2"@, "--homedir"@, homedir];
    if with_passphrase {
        if modern {
            base + seq!["--pinentry-mode"@, "loopback"@, "--passphrase-fd"@, "3"@]
        } else {
            base + seq!["--passphrase-fd"@, "3"@]
        }
    } else {
        base
    }
}

/// Whether a version understands loopback pinentry.
pub open spec fn version_modern(v: Version) -> bool {
    v.major > 2 || (v.major == 2 && v.minor >= 1)
}

/// Build the baseline argument sequence.
pub fn baseline_args(homedir: &String, version: &Version, with_passphrase: bool) -> (r: Vec<
    String,
>)
    ensures
        r.deep_view() == baseline_args_spec(homedir@, version_modern(*version), with_passphrase),
{
    let mut r: Vec<String> = Vec::new();
    r.push(String::from_str("--batch"));
    r.push(String::from_str("--no-tty"));
    r.push(String::from_str("--status-fd"));
    r.push(String::from_str("2"));
    r.push(String::from_str("--homedir"));
    r.push(homedir.clone());
    if with_passphrase {
        if version.at_least(2, 1) {
            r.push(String::from_str("--pinentry-mode"));
            r.push(String::from_str("loopback"));
        }
        r.push(String::from_str("--passphrase-fd"));
        r.push(String::from_str("3"));
    }
    proof {
        assert(r.deep_view() =~= baseline_args_spec(
            homedir@,
            version_modern(*version),
            with_passphrase,
        ));
    }
    r
}

/// The extra command-line options, as a sequence of views; none when absent.
pub open spec fn opt_args_view(o: Option<Vec<String>>) -> Seq<Seq<char>> {
    match o {
        Option::Some(v) => v.deep_view(),
        Option::None => Seq::empty(),
    }
}

/// Assemble a complete invocation request.  When `require_input` is set and
/// no data source at all was provided, the request is refused before any
/// process is spawned.
pub fn build_invocation(
    args: Vec<String>,
    passphrase: Option<String>,
    version: &Version,
    homedir: String,
    options: Option<Vec<String>>,
    env: Option<Vec<(String, String)>>,
    has_handle: bool,
    file_path: Option<String>,
    input_bytes: Option<Vec<u8>>,
    require_input: bool,
    operation: Operation,
) -> (r: Result<InvocationRequest, GPGError>)
    ensures
        r is Err <==> (require_input && input_bytes is None && !has_handle && file_path is None),
        r is Err ==> r.unwrap_err().error_type is FileNotProvidedError && r.unwrap_err().cmd_result
            is None,
        r is Ok ==> ({
            let q = r.unwrap();
            &&& q.args.deep_view() == baseline_args_spec(
                homedir@,
                version_modern(*version),
                passphrase is Some,
            ) + opt_args_view(options) + args.deep_view()
            &&& q.input == input_choice(input_bytes, has_handle, file_path)
            &&& q.passphrase == passphrase
            &&& q.env == env
            &&& q.homedir == homedir
            &&& q.operation == operation
        }),
{
    if require_input && input_bytes.is_none() && !has_handle && file_path.is_none() {
        return Err(
            GPGError::new(
                GPGErrorType::FileNotProvidedError(
                    String::from_str("no data source was provided"),
                ),
                None,
            ),
        );
    }
    let mut full = baseline_args(&homedir, version, passphrase.is_some());
    let ghost base = full.deep_view();
    match &options {
        Some(o) => {
            let mut extra = o.clone();
            proof {
                broadcast use vstd::std_specs::vec::vec_clone_deep_view_proof;

                assert(extra.deep_view() == o.deep_view());
            }
            let ghost before = full.deep_view();
            let ghost extra_dv = extra.deep_view();
            full.append(&mut extra);
            proof {
                assert(full.deep_view() =~= before + extra_dv);
            }
        },
        None => {},
    }
    let ghost with_opts = full.deep_view();
    let ghost args_dv = args.deep_view();
    let mut rest = args;
    full.append(&mut rest);
    proof {
        assert(full.deep_view() =~= with_opts + args_dv);
        assert(full.deep_view() =~= baseline_args_spec(
            homedir@,
            version_modern(*version),
            passphrase is Some,
        ) + opt_args_view(options) + args_dv);
    }
    let input = select_input(input_bytes, has_handle, file_path);
    Ok(InvocationRequest { args: full, input, passphrase, env, homedir, operation })
}

} // verus!
