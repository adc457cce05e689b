//! Results handed back by the external tool: the raw command result and the
//! structured records decoded from a key listing.

use vstd::prelude::*;

use crate::enums::{Operation, TrustLevel};

verus! {

/// The raw outcome of one invocation of the external tool: whether it exited
/// successfully, the captured standard-output text, the ordered raw lines of
/// the status channel, and the operation that produced it.  Immutable once
/// built; owned by the caller.
#[derive(Debug, Clone)]
pub struct CmdResult {
    pub success: bool,
    pub raw_data: String,
    pub status_lines: Vec<String>,
    pub operation: Operation,
}

/// Mathematical image of a `CmdResult`.
#[verifier::ext_equal]
pub struct CmdResultView {
    pub success: bool,
    pub raw_data: Seq<char>,
    pub status_lines: Seq<Seq<char>>,
    pub operation: Operation,
}

impl View for CmdResult {
    type V = CmdResultView;

    open spec fn view(&self) -> CmdResultView {
        CmdResultView {
            success: self.success,
            raw_data: self.raw_data@,
            status_lines: self.status_lines.deep_view(),
            operation: self.operation,
        }
    }
}

impl CmdResult {
    /// An owned copy of this result, equal to it in every observable field.
    pub fn duplicate(&self) -> (r: CmdResult)
        ensures
            r@ == self@,
    {
        let status_lines = self.status_lines.clone();
        proof {
            broadcast use vstd::std_specs::vec::vec_clone_deep_view_proof;

            assert(status_lines.deep_view() == self.status_lines.deep_view());
        }
        CmdResult {
            success: self.success,
            raw_data: self.raw_data.clone(),
            status_lines,
            operation: self.operation,
        }
    }
}

/// One subkey of a listed primary key: its key id, the fingerprint attached
/// by the record that follows it, its capability flags, and the keygrip when
/// the tool version reports one.
#[derive(Debug, Clone)]
pub struct SubKeyResult {
    pub key_id: String,
    pub fingerprint: String,
    pub capabilities: String,
    pub keygrip: Option<String>,
}

/// Mathematical image of a `SubKeyResult`.
#[verifier::ext_equal]
pub struct SubKeyView {
    pub key_id: Seq<char>,
    pub fingerprint: Seq<char>,
    pub capabilities: Seq<char>,
    pub keygrip: Option<Seq<char>>,
}

impl View for SubKeyResult {
    type V = SubKeyView;

    open spec fn view(&self) -> SubKeyView {
        SubKeyView {
            key_id: self.key_id@,
            fingerprint: self.fingerprint@,
            capabilities: self.capabilities@,
            keygrip: match self.keygrip {
                Option::Some(g) => Option::Some(g@),
                Option::None => Option::None,
            },
        }
    }
}

impl DeepView for SubKeyResult {
    type V = SubKeyView;

    open spec fn deep_view(&self) -> SubKeyView {
        self.view()
    }
}

/// One primary key decoded from a listing: identifiers, timestamps, trust,
/// the ordered user ids, the ordered subkeys, and the optional keygrip.
#[derive(Debug, Clone)]
pub struct ListKeyResult {
    pub key_id: String,
    pub fingerprint: String,
    pub creation_date: String,
    pub expiration_date: String,
    pub trust: TrustLevel,
    pub uids: Vec<String>,
    pub subkeys: Vec<SubKeyResult>,
    pub keygrip: Option<String>,
}

/// Mathematical image of a `ListKeyResult`.
#[verifier::ext_equal]
pub struct ListKeyView {
    pub key_id: Seq<char>,
    pub fingerprint: Seq<char>,
    pub creation_date: Seq<char>,
    pub expiration_date: Seq<char>,
    pub trust: TrustLevel,
    pub uids: Seq<Seq<char>>,
    pub subkeys: Seq<SubKeyView>,
    pub keygrip: Option<Seq<char>>,
}

impl View for ListKeyResult {
    type V = ListKeyView;

    open spec fn view(&self) -> ListKeyView {
        ListKeyView {
            key_id: self.key_id@,
            fingerprint: self.fingerprint@,
            creation_date: self.creation_date@,
            expiration_date: self.expiration_date@,
            trust: self.trust,
            uids: self.uids.deep_view(),
            subkeys: self.subkeys.deep_view(),
            keygrip: match self.keygrip {
                Option::Some(g) => Option::Some(g@),
                Option::None => Option::None,
            },
        }
    }
}

impl DeepView for ListKeyResult {
    type V = ListKeyView;

    open spec fn deep_view(&self) -> ListKeyView {
        self.view()
    }
}

} // verus!
