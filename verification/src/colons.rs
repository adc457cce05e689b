//! Decoder for the tool's tabular (colon-separated) key-listing format.
//!
//! The format emits one record per line, the first field naming the record
//! kind.  A primary-key record opens a new key; a subkey record opens a new
//! subkey under the current key; fingerprint and keygrip records attach to
//! whichever entity — primary key or most recently opened subkey — is
//! currently open, with no backward reference in the record itself.  That
//! ownership is tracked by an explicit three-state machine.  Record kinds
//! unknown to the decoder are skipped without error, and unknown status of a
//! field leaves it empty rather than failing.

use vstd::prelude::*;

use crate::enums::{trust_of_code, TrustLevel};
use crate::response::{CmdResult, ListKeyResult, ListKeyView, SubKeyResult, SubKeyView};
use crate::text::{split_on, split_text, str_eq};

verus! {

/// The kinds of records the decoder understands.
#[derive(Debug, Clone, Copy, PartialEq, Eq, Structural)]
pub enum RecordKind {
    /// `pub` or `sec`: opens a new primary key.
    Primary,
    /// `fpr`: fingerprint of the entity opened last.
    Fingerprint,
    /// `uid`: a user id of the current primary key.
    UserId,
    /// `sub` or `ssb`: opens a new subkey under the current primary key.
    Subkey,
    /// `grp`: keygrip of the entity opened last.
    Keygrip,
    /// Anything else: skipped.
    Other,
}

/// Which entity is currently open for attachment.
#[derive(Debug, Clone, Copy, PartialEq, Eq, Structural)]
pub enum ParseState {
    NoKey,
    InKey,
    InSubkey,
}

/// Field `k` of a record, or empty when the record is too short.
pub open spec fn field_or_empty(fs: Seq<Seq<char>>, k: int) -> Seq<char> {
    if 0 <= k < fs.len() {
        fs[k]
    } else {
        Seq::empty()
    }
}

/// The kind a record's first field names.
pub open spec fn kind_of(fs: Seq<Seq<char>>) -> RecordKind {
    if fs.len() == 0 {
        RecordKind::Other
    } else if fs[0] == "pub"@ || fs[0] == "sec"@ {
        RecordKind::Primary
    } else if fs[0] == "fpr"@ {
        RecordKind::Fingerprint
    } else if fs[0] == "uid"@ {
        RecordKind::UserId
    } else if fs[0] == "sub"@ || fs[0] == "ssb"@ {
        RecordKind::Subkey
    } else if fs[0] == "grp"@ {
        RecordKind::Keygrip
    } else {
        RecordKind::Other
    }
}

/// The validity code of a primary-key record: the first character of its
/// second field, or a placeholder that decodes to undefined trust.
pub open spec fn code_char(s: Seq<char>) -> char {
    if s.len() > 0 {
        s[0]
    } else {
        '?'
    }
}

/// The key a primary-key record opens, fields not yet attached left empty.
pub open spec fn new_key_view(fs: Seq<Seq<char>>) -> ListKeyView {
    ListKeyView {
        key_id: field_or_empty(fs, 4),
        fingerprint: Seq::empty(),
        creation_date: field_or_empty(fs, 5),
        expiration_date: field_or_empty(fs, 6),
        trust: trust_of_code(code_char(field_or_empty(fs, 1))),
        uids: Seq::empty(),
        subkeys: Seq::empty(),
        keygrip: Option::None,
    }
}

/// The subkey a subkey record opens.
pub open spec fn new_sub_view(fs: Seq<Seq<char>>) -> SubKeyView {
    SubKeyView {
        key_id: field_or_empty(fs, 4),
        fingerprint: Seq::empty(),
        capabilities: field_or_empty(fs, 11),
        keygrip: Option::None,
    }
}

/// `acc` with the fingerprint of its last key set to `f`.
pub open spec fn set_key_fpr(acc: Seq<ListKeyView>, f: Seq<char>) -> Seq<ListKeyView> {
    acc.update(acc.len() - 1, ListKeyView { fingerprint: f, ..acc.last() })
}

/// `acc` with the keygrip of its last key set to `f`.
pub open spec fn set_key_grip(acc: Seq<ListKeyView>, f: Seq<char>) -> Seq<ListKeyView> {
    acc.update(acc.len() - 1, ListKeyView { keygrip: Option::Some(f), ..acc.last() })
}

/// `acc` with `u` appended to the user ids of its last key.
pub open spec fn push_key_uid(acc: Seq<ListKeyView>, u: Seq<char>) -> Seq<ListKeyView> {
    acc.update(acc.len() - 1, ListKeyView { uids: acc.last().uids.push(u), ..acc.last() })
}

/// `acc` with `s` appended to the subkeys of its last key.
pub open spec fn push_key_sub(acc: Seq<ListKeyView>, s: SubKeyView) -> Seq<ListKeyView> {
    acc.update(acc.len() - 1, ListKeyView { subkeys: acc.last().subkeys.push(s), ..acc.last() })
}

/// `acc` with the fingerprint of the last subkey of its last key set to `f`.
pub open spec fn set_sub_fpr(acc: Seq<ListKeyView>, f: Seq<char>) -> Seq<ListKeyView> {
    let k = acc.last();
    let subs = k.subkeys;
    acc.update(
        acc.len() - 1,
        ListKeyView {
            subkeys: subs.update(subs.len() - 1, SubKeyView { fingerprint: f, ..subs.last() }),
            ..k
        },
    )
}

/// `acc` with the keygrip of the last subkey of its last key set to `f`.
pub open spec fn set_sub_grip(acc: Seq<ListKeyView>, f: Seq<char>) -> Seq<ListKeyView> {
    let k = acc.last();
    let subs = k.subkeys;
    acc.update(
        acc.len() - 1,
        ListKeyView {
            subkeys: subs.update(
                subs.len() - 1,
                SubKeyView { keygrip: Option::Some(f), ..subs.last() },
            ),
            ..k
        },
    )
}

/// One transition of the decoder: the keys decoded so far and the open
/// entity, advanced by one record line.
pub open spec fn step(acc: Seq<ListKeyView>, st: ParseState, line: Seq<char>) -> (
    Seq<ListKeyView>,
    ParseState,
) {
    let fs = split_text(line, ':');
    match kind_of(fs) {
        RecordKind::Primary => (acc.push(new_key_view(fs)), ParseState::InKey),
        RecordKind::Fingerprint => match st {
            ParseState::NoKey => (acc, st),
            ParseState::InKey => (set_key_fpr(acc, field_or_empty(fs, 9)), st),
            ParseState::InSubkey => (set_sub_fpr(acc, field_or_empty(fs, 9)), st),
        },
        RecordKind::UserId => match st {
            ParseState::NoKey => (acc, st),
            _ => (push_key_uid(acc, field_or_empty(fs, 9)), st),
        },
        RecordKind::Subkey => match st {
            ParseState::NoKey => (acc, st),
            _ => (push_key_sub(acc, new_sub_view(fs)), ParseState::InSubkey),
        },
        RecordKind::Keygrip => match st {
            ParseState::NoKey => (acc, st),
            ParseState::InKey => (set_key_grip(acc, field_or_empty(fs, 9)), st),
            ParseState::InSubkey => (set_sub_grip(acc, field_or_empty(fs, 9)), st),
        },
        RecordKind::Other => (acc, st),
    }
}

/// The keys decoded from `lines`, starting from keys `acc` already decoded
/// and open entity `st`.
pub open spec fn decode_from(lines: Seq<Seq<char>>, acc: Seq<ListKeyView>, st: ParseState) -> Seq<
    ListKeyView,
>
    decreases lines.len(),
{
    if lines.len() == 0 {
        acc
    } else {
        let (acc2, st2) = step(acc, st, lines[0]);
        decode_from(lines.drop_first(), acc2, st2)
    }
}

/// The keys a whole listing transcript decodes to.
pub open spec fn decode_listing(raw: Seq<char>) -> Seq<ListKeyView> {
    decode_from(split_text(raw, '\n'), Seq::empty(), ParseState::NoKey)
}

/// Field `k` of a split record, or the empty string.
fn field_at(fields: &Vec<String>, k: usize) -> (r: String)
    ensures
        r@ == field_or_empty(fields.deep_view(), k as int),
{
    if k < fields.len() {
        proof {
            assert(fields.deep_view()[k as int] == fields@[k as int]@);
        }
        fields[k].clone()
    } else {
        String::new()
    }
}

/// The kind a split record names.
fn kind_of_fields(fields: &Vec<String>) -> (r: RecordKind)
    ensures
        r == kind_of(fields.deep_view()),
{
    if fields.len() == 0 {
        return RecordKind::Other;
    }
    proof {
        assert(fields.deep_view()[0] == fields@[0]@);
    }
    let f0 = fields[0].as_str();
    if str_eq(f0, "pub") || str_eq(f0, "sec") {
        RecordKind::Primary
    } else if str_eq(f0, "fpr") {
        RecordKind::Fingerprint
    } else if str_eq(f0, "uid") {
        RecordKind::UserId
    } else if str_eq(f0, "sub") || str_eq(f0, "ssb") {
        RecordKind::Subkey
    } else if str_eq(f0, "grp") {
        RecordKind::Keygrip
    } else {
        RecordKind::Other
    }
}

/// Build the key a primary-key record opens.
fn new_key(fields: &Vec<String>) -> (r: ListKeyResult)
    ensures
        r@ == new_key_view(fields.deep_view()),
{
    let code = field_at(fields, 1);
    let c: char = if code.as_str().unicode_len() > 0 {
        code.as_str().get_char(0)
    } else {
        '?'
    };
    let r = ListKeyResult {
        key_id: field_at(fields, 4),
        fingerprint: String::new(),
        creation_date: field_at(fields, 5),
        expiration_date: field_at(fields, 6),
        trust: TrustLevel::from_code(c),
        uids: Vec::new(),
        subkeys: Vec::new(),
        keygrip: None,
    };
    proof {
        assert(r.uids.deep_view() =~= Seq::<Seq<char>>::empty());
        assert(r.subkeys.deep_view() =~= Seq::<SubKeyView>::empty());
        assert(r@ =~= new_key_view(fields.deep_view()));
    }
    r
}

/// Build the subkey a subkey record opens.
fn new_sub(fields: &Vec<String>) -> (r: SubKeyResult)
    ensures
        r@ == new_sub_view(fields.deep_view()),
{
    SubKeyResult {
        key_id: field_at(fields, 4),
        fingerprint: String::new(),
        capabilities: field_at(fields, 11),
        keygrip: None,
    }
}

/// Decode the record lines of a key listing into one result per primary key,
/// in emission order.
pub fn decode_colon_lines(lines: &Vec<String>) -> (out: Vec<ListKeyResult>)
    ensures
        out.deep_view() == decode_from(lines.deep_view(), Seq::empty(), ParseState::NoKey),
{
    let ghost dv = lines.deep_view();
    let mut out: Vec<ListKeyResult> = Vec::new();
    let mut st = ParseState::NoKey;
    let mut i: usize = 0;
    proof {
        assert(dv.skip(0) =~= dv);
        assert(out.deep_view() =~= Seq::<ListKeyView>::empty());
    }
    while i < lines.len()
        invariant
            i <= lines.len() == dv.len(),
            dv == lines.deep_view(),
            !(st is NoKey) ==> out.len() > 0,
            st is InSubkey ==> out.len() > 0 && out@[out.len() - 1].subkeys@.len() > 0,
            decode_from(dv, Seq::empty(), ParseState::NoKey) == decode_from(
                dv.skip(i as int),
                out.deep_view(),
                st,
            ),
        decreases lines.len() - i,
    {
        proof {
            assert(dv[i as int] == lines@[i as int]@);
        }
        let fields = split_on(lines[i].as_str(), ':');
        let ghost fsv = split_text(dv[i as int], ':');
        let kind = kind_of_fields(&fields);
        let ghost old_out = out.deep_view();
        let ghost old_st = st;
        match kind {
            RecordKind::Primary => {
                let k = new_key(&fields);
                out.push(k);
                st = ParseState::InKey;
                proof {
                    assert(out.deep_view() =~= old_out.push(new_key_view(fsv)));
                }
            },
            RecordKind::Fingerprint => {
                match st {
                    ParseState::NoKey => {},
                    ParseState::InKey => {
                        let f = field_at(&fields, 9);
                        let mut k = out.pop().unwrap();
                        k.fingerprint = f;
                        out.push(k);
                        proof {
                            assert(out.deep_view() =~= set_key_fpr(
                                old_out,
                                field_or_empty(fsv, 9),
                            ));
                        }
                    },
                    ParseState::InSubkey => {
                        let f = field_at(&fields, 9);
                        let mut k = out.pop().unwrap();
                        let mut s = k.subkeys.pop().unwrap();
                        s.fingerprint = f;
                        k.subkeys.push(s);
                        out.push(k);
                        proof {
                            assert(out.deep_view() =~~= set_sub_fpr(
                                old_out,
                                field_or_empty(fsv, 9),
                            ));
                        }
                    },
                }
            },
            RecordKind::UserId => {
                match st {
                    ParseState::NoKey => {},
                    _ => {
                        let u = field_at(&fields, 9);
                        let mut k = out.pop().unwrap();
                        k.uids.push(u);
                        out.push(k);
                        proof {
                            assert(out.deep_view() =~~= push_key_uid(
                                old_out,
                                field_or_empty(fsv, 9),
                            ));
                        }
                    },
                }
            },
            RecordKind::Subkey => {
                match st {
                    ParseState::NoKey => {},
                    _ => {
                        let s = new_sub(&fields);
                        let mut k = out.pop().unwrap();
                        k.subkeys.push(s);
                        out.push(k);
                        st = ParseState::InSubkey;
                        proof {
                            assert(out.deep_view() =~~= push_key_sub(old_out, new_sub_view(fsv)));
                        }
                    },
                }
            },
            RecordKind::Keygrip => {
                match st {
                    ParseState::NoKey => {},
                    ParseState::InKey => {
                        let f = field_at(&fields, 9);
                        let mut k = out.pop().unwrap();
                        k.keygrip = Some(f);
                        out.push(k);
                        proof {
                            assert(out.deep_view() =~= set_key_grip(
                                old_out,
                                field_or_empty(fsv, 9),
                            ));
                        }
                    },
                    ParseState::InSubkey => {
                        let f = field_at(&fields, 9);
                        let mut k = out.pop().unwrap();
                        let mut s = k.subkeys.pop().unwrap();
                        s.keygrip = Some(f);
                        k.subkeys.push(s);
                        out.push(k);
                        proof {
                            assert(out.deep_view() =~~= set_sub_grip(
                                old_out,
                                field_or_empty(fsv, 9),
                            ));
                        }
                    },
                }
            },
            RecordKind::Other => {},
        }
        proof {
            let stepped = step(old_out, old_st, dv[i as int]);
            assert(out.deep_view() == stepped.0 && st == stepped.1);
            let rest = dv.skip(i as int);
            assert(rest[0] == dv[i as int]);
            assert(rest.drop_first() =~= dv.skip(i as int + 1));
            assert(decode_from(rest, old_out, old_st) == decode_from(
                dv.skip(i as int + 1),
                out.deep_view(),
                st,
            ));
        }
        i += 1;
    }
    proof {
        assert(dv.skip(i as int) =~= Seq::<Seq<char>>::empty());
    }
    out
}

/// Decode the captured output of a listing invocation into one result per
/// primary key, in emission order.  A transcript without primary-key records
/// decodes to the empty sequence; it is not an error.
pub fn decode_list_key_result(result: &CmdResult) -> (out: Vec<ListKeyResult>)
    ensures
        out.deep_view() == decode_listing(result.raw_data@),
{
    let lines = split_on(result.raw_data.as_str(), '\n');
    decode_colon_lines(&lines)
}

/// A whole transcript without primary-key records decodes to the empty
/// sequence of keys; it is never an error.
pub proof fn lemma_listing_without_primaries_is_empty(raw: Seq<char>)
    requires
        forall|i: int|
            0 <= i < split_text(raw, '\n').len() ==> kind_of(
                #[trigger] split_text(split_text(raw, '\n')[i], ':'),
            ) != RecordKind::Primary,
    ensures
        decode_listing(raw) == Seq::<ListKeyView>::empty(),
{
    lemma_no_primary_no_keys(split_text(raw, '\n'));
}

/// Lines with no primary-key records decode to no keys at all: records of
/// every other kind find no open key and are skipped.
pub proof fn lemma_no_primary_no_keys(lines: Seq<Seq<char>>)
    requires
        forall|i: int|
            0 <= i < lines.len() ==> kind_of(#[trigger] split_text(lines[i], ':'))
                != RecordKind::Primary,
    ensures
        decode_from(lines, Seq::empty(), ParseState::NoKey) == Seq::<ListKeyView>::empty(),
    decreases lines.len(),
{
    if lines.len() > 0 {
        assert(kind_of(split_text(lines[0], ':')) != RecordKind::Primary);
        assert(step(Seq::empty(), ParseState::NoKey, lines[0]) == (
            Seq::<ListKeyView>::empty(),
            ParseState::NoKey,
        ));
        assert(forall|i: int|
            0 <= i < lines.drop_first().len() ==> lines.drop_first()[i] == lines[i + 1]);
        lemma_no_primary_no_keys(lines.drop_first());
    }
}

} // verus!
