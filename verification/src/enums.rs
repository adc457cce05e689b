//! Operation tags and trust levels.

use vstd::prelude::*;

verus! {

/// The operation a given invocation of the external tool performs.  Every
/// command result and every classified error carries the tag of the
/// operation that produced it.
#[derive(Debug, Clone, Copy, PartialEq, Eq, Structural)]
pub enum Operation {
    NotSet,
    /// Probe that the tool is installed and answers; used once at start-up.
    Verify,
    GenerateKey,
    ListKey,
    SearchKey,
    ImportKey,
    TrustKey,
    ExportPublicKey,
    ExportSecretKey,
    Encrypt,
    Decrypt,
    Sign,
    VerifyFile,
}

/// Owner trust of a listed key, ordered from weakest to strongest:
/// `Expired < Undefined < Never < Marginal < Fully < Ultimate`.
#[derive(Debug, Clone, Copy, PartialEq, Eq, Structural)]
pub enum TrustLevel {
    Expired,
    Undefined,
    Never,
    Marginal,
    Fully,
    Ultimate,
}

/// Numeric rank of a trust level; the declaration order of the variants.
pub open spec fn trust_rank(t: TrustLevel) -> u8 {
    match t {
        TrustLevel::Expired => 1,
        TrustLevel::Undefined => 2,
        TrustLevel::Never => 3,
        TrustLevel::Marginal => 4,
        TrustLevel::Fully => 5,
        TrustLevel::Ultimate => 6,
    }
}

/// The trust level named by a validity code of the tabular listing format.
/// Codes outside the recognized set mean the trust is not established.
pub open spec fn trust_of_code(c: char) -> TrustLevel {
    if c == 'e' {
        TrustLevel::Expired
    } else if c == 'n' {
        TrustLevel::Never
    } else if c == 'm' {
        TrustLevel::Marginal
    } else if c == 'f' {
        TrustLevel::Fully
    } else if c == 'u' {
        TrustLevel::Ultimate
    } else {
        TrustLevel::Undefined
    }
}

impl TrustLevel {
    /// The numeric rank of this trust level; higher means more trusted.
    pub fn value(&self) -> (r: u8)
        ensures
            r == trust_rank(*self),
    {
        match self {
            TrustLevel::Expired => 1,
            TrustLevel::Undefined => 2,
            TrustLevel::Never => 3,
            TrustLevel::Marginal => 4,
            TrustLevel::Fully => 5,
            TrustLevel::Ultimate => 6,
        }
    }

    /// Whether this trust level is at most `other` in the trust order.
    pub fn le(&self, other: &TrustLevel) -> (r: bool)
        ensures
            r == (trust_rank(*self) <= trust_rank(*other)),
    {
        self.value() <= other.value()
    }

    /// Decode the single-letter validity code of a primary-key record.
    pub fn from_code(c: char) -> (r: TrustLevel)
        ensures
            r == trust_of_code(c),
    {
        if c == 'e' {
            TrustLevel::Expired
        } else if c == 'n' {
            TrustLevel::Never
        } else if c == 'm' {
            TrustLevel::Marginal
        } else if c == 'f' {
            TrustLevel::Fully
        } else if c == 'u' {
            TrustLevel::Ultimate
        } else {
            TrustLevel::Undefined
        }
    }
}

/// The rank function is injective: distinct trust levels never compare equal
/// through their ranks, so the rank order is a total order on the levels.
pub proof fn lemma_trust_rank_injective(a: TrustLevel, b: TrustLevel)
    ensures
        trust_rank(a) == trust_rank(b) ==> a == b,
{
}

} // verus!
