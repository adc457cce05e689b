//! Decoder for the tool's line-oriented status channel, and the single
//! funnel that classifies an invocation's outcome.
//!
//! Every status line starts with a fixed marker followed by a token naming
//! the record kind.  Recognized terminal-failure tokens map to specific
//! error kinds; all other lines are retained verbatim for diagnostics and do
//! not by themselves indicate failure.

use vstd::prelude::*;

use crate::errors::{GPGError, GPGErrorType};
use crate::response::CmdResult;
use crate::text::{has_prefix, lemma_index_of_bounds, split_on, split_text, str_eq};

verus! {

/// A classified status event.  `Unknown` stands for every token the decoder
/// does not recognize as a terminal failure; such lines are kept, not
/// rejected, for forward compatibility with newer tool versions.
#[derive(Debug, Clone, Copy, PartialEq, Eq, Structural)]
pub enum StatusEvent {
    BadPassphrase,
    MissingPassphrase,
    NoSecretKey,
    NoPublicKey,
    DecryptionFailed,
    Unknown,
}

/// The token of a status line: the first space-separated word after the
/// status marker, or empty when the line does not carry the marker.
pub open spec fn status_token(line: Seq<char>) -> Seq<char> {
    if has_prefix(line, "[GNUPG:] "@) {
        split_text(line.skip("[GNUPG:] "@.len() as int), ' ')[0]
    } else {
        Seq::empty()
    }
}

/// The event a status token names.
pub open spec fn event_of_token(t: Seq<char>) -> StatusEvent {
    if t == "BAD_PASSPHRASE"@ {
        StatusEvent::BadPassphrase
    } else if t == "MISSING_PASSPHRASE"@ {
        StatusEvent::MissingPassphrase
    } else if t == "NO_SECKEY"@ {
        StatusEvent::NoSecretKey
    } else if t == "NO_PUBKEY"@ {
        StatusEvent::NoPublicKey
    } else if t == "DECRYPTION_FAILED"@ {
        StatusEvent::DecryptionFailed
    } else {
        StatusEvent::Unknown
    }
}

/// The event a whole status line names.
pub open spec fn event_of_line(line: Seq<char>) -> StatusEvent {
    event_of_token(status_token(line))
}

/// The first recognized terminal failure among the status lines, if any.
pub open spec fn first_failure(lines: Seq<Seq<char>>) -> Option<StatusEvent>
    decreases lines.len(),
{
    if lines.len() == 0 {
        Option::None
    } else if event_of_line(lines[0]) != StatusEvent::Unknown {
        Option::Some(event_of_line(lines[0]))
    } else {
        first_failure(lines.drop_first())
    }
}

/// Splitting leaves at least one segment.
pub proof fn lemma_split_text_nonempty(s: Seq<char>, c: char)
    ensures
        split_text(s, c).len() >= 1,
{
    lemma_index_of_bounds(s, c);
}

/// The empty token names no failure.
proof fn lemma_empty_token_unknown()
    ensures
        event_of_token(Seq::<char>::empty()) == StatusEvent::Unknown,
{
    reveal_strlit("BAD_PASSPHRASE");
    reveal_strlit("MISSING_PASSPHRASE");
    reveal_strlit("NO_SECKEY");
    reveal_strlit("NO_PUBKEY");
    reveal_strlit("DECRYPTION_FAILED");
    assert("BAD_PASSPHRASE"@.len() == 14);
    assert("MISSING_PASSPHRASE"@.len() == 18);
    assert("NO_SECKEY"@.len() == 9);
    assert("NO_PUBKEY"@.len() == 9);
    assert("DECRYPTION_FAILED"@.len() == 17);
}

/// Classify one status line.
pub fn classify_status_line(line: &str) -> (r: StatusEvent)
    ensures
        r == event_of_line(line@),
{
    let n = line.unicode_len();
    if n < 9 {
        proof {
            reveal_strlit("[GNUPG:] ");
            assert(!has_prefix(line@, "[GNUPG:] "@));
            lemma_empty_token_unknown();
        }
        return StatusEvent::Unknown;
    }
    let head = line.substring_char(0, 9);
    if !str_eq(head, "[GNUPG:] ") {
        proof {
            reveal_strlit("[GNUPG:] ");
            assert(line@.take(9) == head@);
            assert(!has_prefix(line@, "[GNUPG:] "@));
            lemma_empty_token_unknown();
        }
        return StatusEvent::Unknown;
    }
    let body = line.substring_char(9, n);
    proof {
        reveal_strlit("[GNUPG:] ");
        assert(line@.take(9) == head@);
        assert(has_prefix(line@, "[GNUPG:] "@));
        assert(body@ == line@.skip(9));
        lemma_split_text_nonempty(body@, ' ');
    }
    let parts = split_on(body, ' ');
    proof {
        assert(parts.deep_view()[0] == parts@[0]@);
    }
    let token = parts[0].as_str();
    proof {
        assert(token@ == status_token(line@));
    }
    if str_eq(token, "BAD_PASSPHRASE") {
        StatusEvent::BadPassphrase
    } else if str_eq(token, "MISSING_PASSPHRASE") {
        StatusEvent::MissingPassphrase
    } else if str_eq(token, "NO_SECKEY") {
        StatusEvent::NoSecretKey
    } else if str_eq(token, "NO_PUBKEY") {
        StatusEvent::NoPublicKey
    } else if str_eq(token, "DECRYPTION_FAILED") {
        StatusEvent::DecryptionFailed
    } else {
        StatusEvent::Unknown
    }
}

/// Scan the status lines in order and report the first recognized terminal
/// failure.  Unrecognized lines are skipped, never rejected.
pub fn decode_status(lines: &Vec<String>) -> (r: Option<StatusEvent>)
    ensures
        r == first_failure(lines.deep_view()),
{
    let ghost dv = lines.deep_view();
    let mut i: usize = 0;
    proof {
        assert(dv.skip(0) =~= dv);
    }
    while i < lines.len()
        invariant
            i <= lines.len() == dv.len(),
            dv == lines.deep_view(),
            first_failure(dv) == first_failure(dv.skip(i as int)),
        decreases lines.len() - i,
    {
        proof {
            assert(dv[i as int] == lines@[i as int]@);
            assert(dv.skip(i as int)[0] == dv[i as int]);
            assert(dv.skip(i as int).drop_first() =~= dv.skip(i as int + 1));
        }
        let ev = classify_status_line(lines[i].as_str());
        match ev {
            StatusEvent::Unknown => {},
            _ => {
                return Some(ev);
            },
        }
        i += 1;
    }
    proof {
        assert(dv.skip(i as int) =~= Seq::<Seq<char>>::empty());
    }
    None
}

/// The error kind a recognized terminal failure maps to.
pub fn error_for_event(ev: StatusEvent) -> (r: GPGErrorType)
    ensures
        ev == StatusEvent::BadPassphrase ==> (r matches GPGErrorType::PassphraseError(m) && m@
            == "bad passphrase"@),
        ev == StatusEvent::MissingPassphrase ==> (r matches GPGErrorType::PassphraseError(m) && m@
            == "missing passphrase"@),
        ev == StatusEvent::NoSecretKey ==> (r matches GPGErrorType::GPGProcessError(m) && m@
            == "secret key not found"@),
        ev == StatusEvent::NoPublicKey ==> (r matches GPGErrorType::GPGProcessError(m) && m@
            == "public key not found"@),
        ev == StatusEvent::DecryptionFailed ==> (r matches GPGErrorType::GPGProcessError(m) && m@
            == "decryption failed"@),
        ev == StatusEvent::Unknown ==> (r matches GPGErrorType::GPGProcessError(m) && m@
            == "gpg process ended in failure"@),
{
    match ev {
        StatusEvent::BadPassphrase => GPGErrorType::PassphraseError(
            String::from_str("bad passphrase"),
        ),
        StatusEvent::MissingPassphrase => GPGErrorType::PassphraseError(
            String::from_str("missing passphrase"),
        ),
        StatusEvent::NoSecretKey => GPGErrorType::GPGProcessError(
            String::from_str("secret key not found"),
        ),
        StatusEvent::NoPublicKey => GPGErrorType::GPGProcessError(
            String::from_str("public key not found"),
        ),
        StatusEvent::DecryptionFailed => GPGErrorType::GPGProcessError(
            String::from_str("decryption failed"),
        ),
        StatusEvent::Unknown => GPGErrorType::GPGProcessError(
            String::from_str("gpg process ended in failure"),
        ),
    }
}

/// The single funnel applied after every invocation: a successful exit
/// passes the result through; a failed one is converted to the specific
/// error the status channel names, or to a generic process error when it
/// names none.  The raw result is always attached to the error so callers
/// can inspect the tool's output whatever the error kind.
pub fn classify_outcome(result: CmdResult) -> (r: Result<CmdResult, GPGError>)
    ensures
        result@.success ==> (r matches Ok(c) && c@ == result@),
        !result@.success ==> (r matches Err(e) && (e.cmd_result matches Some(c) && c@ == result@)
            && (match first_failure(result@.status_lines) {
            Option::Some(StatusEvent::BadPassphrase) => e.error_type matches
                GPGErrorType::PassphraseError(m) && m@ == "bad passphrase"@,
            Option::Some(StatusEvent::MissingPassphrase) => e.error_type matches
                GPGErrorType::PassphraseError(m) && m@ == "missing passphrase"@,
            Option::Some(StatusEvent::NoSecretKey) => e.error_type matches
                GPGErrorType::GPGProcessError(m) && m@ == "secret key not found"@,
            Option::Some(StatusEvent::NoPublicKey) => e.error_type matches
                GPGErrorType::GPGProcessError(m) && m@ == "public key not found"@,
            Option::Some(StatusEvent::DecryptionFailed) => e.error_type matches
                GPGErrorType::GPGProcessError(m) && m@ == "decryption failed"@,
            Option::Some(StatusEvent::Unknown) => true,
            Option::None => e.error_type matches GPGErrorType::GPGProcessError(m) && m@
                == "gpg process ended in failure"@,
        })),
{
    if result.success {
        return Ok(result);
    }
    let kind = match decode_status(&result.status_lines) {
        Some(ev) => error_for_event(ev),
        None => error_for_event(StatusEvent::Unknown),
    };
    Err(GPGError::new(kind, Some(result)))
}

} // verus!
