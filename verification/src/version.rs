//! Capability version of the external tool.
//!
//! A start-up probe asks the tool for its configuration in the tabular
//! format; the `version` line holds a dotted numeric string such as
//! `2.4.6`.  The first two components form the comparable value that gates
//! version-dependent arguments; the full string is retained beside it.

use vstd::prelude::*;

use crate::errors::{GPGError, GPGErrorType};
use crate::response::CmdResult;
use crate::text::{split_on, split_text, str_eq};

verus! {

/// A decimal digit.
pub open spec fn is_digit(c: char) -> bool {
    '0' <= c && c <= '9'
}

/// Numeric value of a decimal digit character.
pub open spec fn digit_val(c: char) -> int {
    c as int - 48
}

/// Every character of `s` is a decimal digit.
pub open spec fn all_digits(s: Seq<char>) -> bool {
    forall|i: int| 0 <= i < s.len() ==> is_digit(s[i])
}

/// The number the digit string `s` denotes, most significant digit first.
pub open spec fn digits_val(s: Seq<char>) -> int
    decreases s.len(),
{
    if s.len() == 0 {
        0
    } else {
        digits_val(s.drop_last()) * 10 + digit_val(s.last())
    }
}

/// Ten to the `n`th power.
pub open spec fn pow10(n: nat) -> int
    decreases n,
{
    if n == 0 {
        1
    } else {
        10 * pow10((n - 1) as nat)
    }
}

proof fn lemma_digits_val_bound(s: Seq<char>)
    requires
        all_digits(s),
    ensures
        0 <= digits_val(s) < pow10(s.len()),
    decreases s.len(),
{
    if s.len() > 0 {
        assert(all_digits(s.drop_last()));
        lemma_digits_val_bound(s.drop_last());
    }
}

proof fn lemma_pow10_le(a: nat, b: nat)
    requires
        a <= b,
    ensures
        pow10(a) <= pow10(b),
    decreases b,
{
    if a < b {
        lemma_pow10_le(a, (b - 1) as nat);
        assert(pow10((b - 1) as nat) >= 1) by {
            lemma_pow10_le(0, (b - 1) as nat);
        }
    }
}

/// A parsable version component: one to nine decimal digits.
pub open spec fn numeric_component(s: Seq<char>) -> bool {
    1 <= s.len() <= 9 && all_digits(s)
}

/// The comparable value of a dotted version string: the numeric values of
/// its first two dot-separated components, when both are digit strings.
/// Anything after the second component is ignored.
pub open spec fn two_component(s: Seq<char>) -> Option<(int, int)> {
    let parts = split_text(s, '.');
    if parts.len() >= 2 && numeric_component(parts[0]) && numeric_component(parts[1]) {
        Option::Some((digits_val(parts[0]), digits_val(parts[1])))
    } else {
        Option::None
    }
}

/// Parse a component of up to nine digits.
fn parse_digits(t: &str) -> (r: Option<u32>)
    ensures
        r is Some <==> numeric_component(t@),
        r is Some ==> r.unwrap() as int == digits_val(t@),
{
    let n = t.unicode_len();
    if n < 1 || n > 9 {
        return None;
    }
    let mut val: u32 = 0;
    let mut i: usize = 0;
    while i < n
        invariant
            i <= n == t@.len(),
            n <= 9,
            forall|j: int| 0 <= j < i ==> is_digit(t@[j]),
            val as int == digits_val(t@.take(i as int)),
            0 <= (val as int) < pow10(i as nat),
        decreases n - i,
    {
        let c = t.get_char(i);
        let u = c as u32;
        if u < 48 || u > 57 {
            return None;
        }
        proof {
            lemma_pow10_le(i as nat, 8);
            assert(pow10(8) == 100000000) by {
                reveal_with_fuel(pow10, 9);
            }
            assert(t@.take(i as int + 1).drop_last() =~= t@.take(i as int));
            assert(t@.take(i as int + 1).last() == t@[i as int]);
        }
        val = val * 10 + (u - 48);
        i += 1;
    }
    proof {
        assert(t@.take(n as int) =~= t@);
    }
    Some(val)
}

/// The tool's capability version: the two-component comparable value and the
/// retained full dotted string.  The comparable value is always the numeric
/// truncation of the full string's first two components.
#[derive(Debug, Clone)]
pub struct Version {
    pub major: u32,
    pub minor: u32,
    pub full: String,
}

/// Mathematical image of a `Version`.
pub struct VersionView {
    pub major: u32,
    pub minor: u32,
    pub full: Seq<char>,
}

impl View for Version {
    type V = VersionView;

    open spec fn view(&self) -> VersionView {
        VersionView { major: self.major, minor: self.minor, full: self.full@ }
    }
}

impl Version {
    /// The invariant of a version: the comparable value truncates the full
    /// string's first two components.
    pub open spec fn wf(self) -> bool {
        two_component(self.full@) == Option::Some((self.major as int, self.minor as int))
    }

    /// Parse a dotted version string.
    pub fn parse(s: &str) -> (r: Option<Version>)
        ensures
            r is Some <==> two_component(s@) is Some,
            r is Some ==> r.unwrap().wf() && r.unwrap().full@ == s@,
    {
        let parts = split_on(s, '.');
        if parts.len() < 2 {
            return None;
        }
        proof {
            assert(parts.deep_view()[0] == parts@[0]@);
            assert(parts.deep_view()[1] == parts@[1]@);
        }
        let major = match parse_digits(parts[0].as_str()) {
            Some(v) => v,
            None => {
                return None;
            },
        };
        let minor = match parse_digits(parts[1].as_str()) {
            Some(v) => v,
            None => {
                return None;
            },
        };
        Some(Version { major, minor, full: s.to_owned() })
    }

    /// Whether this version is at least `major.minor`.
    pub fn at_least(&self, major: u32, minor: u32) -> (r: bool)
        ensures
            r == (self.major > major || (self.major == major && self.minor >= minor)),
    {
        self.major > major || (self.major == major && self.minor >= minor)
    }
}

/// A configuration line of the probe transcript that names the version:
/// its first two colon-separated fields are `cfg` and `version`.
pub open spec fn is_version_line(line: Seq<char>) -> bool {
    let fs = split_text(line, ':');
    fs.len() >= 3 && fs[0] == "cfg"@ && fs[1] == "version"@
}

/// The version field of a configuration line.
pub open spec fn version_of_line(line: Seq<char>) -> Seq<char> {
    split_text(line, ':')[2]
}

/// The version field of the first configuration line naming one.
pub open spec fn first_version_field(lines: Seq<Seq<char>>) -> Option<Seq<char>>
    decreases lines.len(),
{
    if lines.len() == 0 {
        Option::None
    } else if is_version_line(lines[0]) {
        Option::Some(version_of_line(lines[0]))
    } else {
        first_version_field(lines.drop_first())
    }
}

/// The probe transcript `raw` names a parsable version.
pub open spec fn probe_has_version(raw: Seq<char>) -> bool {
    &&& first_version_field(split_text(raw, '\n')) is Some
    &&& two_component(first_version_field(split_text(raw, '\n')).unwrap()) is Some
}

/// The version a well-formed probe transcript names.
pub open spec fn probe_version_text(raw: Seq<char>) -> Seq<char> {
    first_version_field(split_text(raw, '\n')).unwrap()
}

/// Locate and parse the capability version in the output of the start-up
/// probe.  Failure is fatal at configuration-construction time: every later
/// operation needs the version to gate version-dependent arguments.
pub fn get_gpg_version(result: &CmdResult) -> (r: Result<Version, GPGError>)
    ensures
        r is Ok <==> probe_has_version(result.raw_data@),
        r is Ok ==> r.unwrap().wf() && r.unwrap().full@ == probe_version_text(result.raw_data@),
        r is Err ==> r.unwrap_err().error_type is GPGInitError,
        r is Err ==> (match r.unwrap_err().cmd_result {
            Option::Some(c) => c@ == result@,
            Option::None => false,
        }),
{
    let lines = split_on(result.raw_data.as_str(), '\n');
    let ghost dv = lines.deep_view();
    let mut i: usize = 0;
    proof {
        assert(dv.skip(0) =~= dv);
    }
    while i < lines.len()
        invariant
            i <= lines.len() == dv.len(),
            dv == lines.deep_view(),
            first_version_field(split_text(result.raw_data@, '\n')) == first_version_field(
                dv.skip(i as int),
            ),
        decreases lines.len() - i,
    {
        proof {
            assert(dv[i as int] == lines@[i as int]@);
        }
        let fields = split_on(lines[i].as_str(), ':');
        if fields.len() >= 3 && str_eq(fields[0].as_str(), "cfg") && str_eq(
            fields[1].as_str(),
            "version",
        ) {
            proof {
                assert(fields.deep_view()[0] == fields@[0]@);
                assert(fields.deep_view()[1] == fields@[1]@);
                assert(fields.deep_view()[2] == fields@[2]@);
                assert(is_version_line(dv[i as int]));
                assert(dv.skip(i as int)[0] == dv[i as int]);
                assert(first_version_field(dv.skip(i as int)) == Option::Some(
                    version_of_line(dv[i as int]),
                ));
            }
            let vs = fields[2].as_str();
            match Version::parse(vs) {
                Some(v) => {
                    return Ok(v);
                },
                None => {
                    return Err(
                        GPGError::new(
                            GPGErrorType::GPGInitError(
                                String::from_str("could not parse the version field"),
                            ),
                            Some(result.duplicate()),
                        ),
                    );
                },
            }
        }
        proof {
            assert(!is_version_line(dv[i as int]));
            assert(dv.skip(i as int)[0] == dv[i as int]);
            assert(dv.skip(i as int).drop_first() =~= dv.skip(i as int + 1));
        }
        i += 1;
    }
    proof {
        assert(dv.skip(i as int) =~= Seq::<Seq<char>>::empty());
    }
    Err(
        GPGError::new(
            GPGErrorType::GPGInitError(String::from_str("no version field in the probe output")),
            Some(result.duplicate()),
        ),
    )
}

} // verus!
