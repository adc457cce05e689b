//! Verified text helpers: splitting on a separator character, joining lines,
//! character replacement, and whitespace trimming.  The decoders and the
//! argument builders are written on top of these.

use vstd::prelude::*;

verus! {

/// Index of the first occurrence of `c` in `s`, or `-1` when absent.
pub open spec fn index_of(s: Seq<char>, c: char) -> int
    decreases s.len(),
{
    if s.len() == 0 {
        -1
    } else if s[0] == c {
        0
    } else if index_of(s.drop_first(), c) == -1 {
        -1
    } else {
        index_of(s.drop_first(), c) + 1
    }
}

/// `index_of` finds exactly the first occurrence.
pub proof fn lemma_index_of_first(s: Seq<char>, c: char, k: int)
    requires
        0 <= k < s.len(),
        s[k] == c,
        forall|j: int| 0 <= j < k ==> s[j] != c,
    ensures
        index_of(s, c) == k,
    decreases s.len(),
{
    if k > 0 {
        assert(forall|j: int| 0 <= j < k - 1 ==> s.drop_first()[j] == s[j + 1]);
        lemma_index_of_first(s.drop_first(), c, k - 1);
    }
}

/// When `c` does not occur in `s`, `index_of` reports `-1`.
pub proof fn lemma_index_of_absent(s: Seq<char>, c: char)
    requires
        forall|j: int| 0 <= j < s.len() ==> s[j] != c,
    ensures
        index_of(s, c) == -1,
    decreases s.len(),
{
    if s.len() > 0 {
        assert(forall|j: int| 0 <= j < s.len() - 1 ==> s.drop_first()[j] == s[j + 1]);
        lemma_index_of_absent(s.drop_first(), c);
    }
}

/// The segments of `s` between occurrences of the separator `c`: one segment
/// more than there are separators, in order, separators not included.
pub open spec fn split_text(s: Seq<char>, c: char) -> Seq<Seq<char>>
    decreases s.len(),
{
    let i = index_of(s, c);
    if i == -1 {
        seq![s]
    } else if 0 <= i < s.len() {
        seq![s.take(i)] + split_text(s.skip(i + 1), c)
    } else {
        // unreachable: index_of stays within bounds
        seq![s]
    }
}

/// `index_of` stays within the bounds of `s`.
pub proof fn lemma_index_of_bounds(s: Seq<char>, c: char)
    ensures
        index_of(s, c) == -1 || 0 <= index_of(s, c) < s.len(),
    decreases s.len(),
{
    if s.len() > 0 && s[0] != c {
        lemma_index_of_bounds(s.drop_first(), c);
    }
}

/// Split `s` at every occurrence of `sep`.
pub fn split_on(s: &str, sep: char) -> (r: Vec<String>)
    ensures
        r.deep_view() == split_text(s@, sep),
{
    let n = s.unicode_len();
    let mut r: Vec<String> = Vec::new();
    let mut start: usize = 0;
    let mut i: usize = 0;
    proof {
        assert(r.deep_view() =~= Seq::<Seq<char>>::empty());
        assert(s@.skip(0) =~= s@);
        assert(r.deep_view() + split_text(s@, sep) =~= split_text(s@, sep));
    }
    while i < n
        invariant
            start <= i <= n == s@.len(),
            forall|k: int| start <= k < i ==> s@[k] != sep,
            split_text(s@, sep) == r.deep_view() + split_text(s@.skip(start as int), sep),
        decreases n - i,
    {
        let c = s.get_char(i);
        if c == sep {
            let piece = s.substring_char(start, i).to_owned();
            proof {
                let t = s@.skip(start as int);
                assert(forall|j: int| 0 <= j < i - start ==> t[j] == s@[j + start]);
                lemma_index_of_first(t, sep, i - start);
                assert(t.take(i - start) =~= piece@);
                assert(t.skip(i - start + 1) =~= s@.skip(i + 1));
                assert(split_text(t, sep) == seq![piece@] + split_text(s@.skip(i + 1), sep));
            }
            let ghost old_r = r.deep_view();
            r.push(piece);
            proof {
                assert(r.deep_view() =~= old_r + seq![piece@]);
                assert(old_r + (seq![piece@] + split_text(s@.skip(i + 1), sep)) =~= (old_r
                    + seq![piece@]) + split_text(s@.skip(i + 1), sep));
            }
            start = i + 1;
        }
        i += 1;
    }
    let piece = s.substring_char(start, n).to_owned();
    proof {
        let t = s@.skip(start as int);
        assert(forall|j: int| 0 <= j < t.len() ==> t[j] == s@[j + start]);
        lemma_index_of_absent(t, sep);
        assert(t =~= piece@);
    }
    let ghost old_r = r.deep_view();
    r.push(piece);
    proof {
        assert(r.deep_view() =~= old_r + seq![piece@]);
        assert(split_text(s@, sep) =~= r.deep_view());
    }
    r
}

/// `s` starts with `p`.
pub open spec fn has_prefix(s: Seq<char>, p: Seq<char>) -> bool {
    s.len() >= p.len() && s.take(p.len() as int) == p
}

/// Compare two strings character by character.
pub fn str_eq(a: &str, b: &str) -> (r: bool)
    ensures
        r == (a@ == b@),
{
    let na = a.unicode_len();
    let nb = b.unicode_len();
    if na != nb {
        return false;
    }
    let mut i: usize = 0;
    while i < na
        invariant
            i <= na == a@.len() == b@.len(),
            forall|j: int| 0 <= j < i ==> a@[j] == b@[j],
        decreases na - i,
    {
        if a.get_char(i) != b.get_char(i) {
            return false;
        }
        i += 1;
    }
    proof {
        assert(a@ =~= b@);
    }
    true
}

/// The text whose lines, each closed by a newline, are `ls` in order.
pub open spec fn lines_text(ls: Seq<Seq<char>>) -> Seq<char>
    decreases ls.len(),
{
    if ls.len() == 0 {
        Seq::empty()
    } else {
        ls[0] + seq!['\n'] + lines_text(ls.drop_first())
    }
}

/// Join `lines` into one text, closing every line with a newline.
pub fn terminate_lines(lines: &Vec<String>) -> (r: String)
    ensures
        r@ == lines_text(lines.deep_view()),
{
    let ghost dv = lines.deep_view();
    let mut r = String::new();
    let mut i: usize = 0;
    proof {
        assert(dv.skip(0) =~= dv);
        assert(r@ + lines_text(dv) =~= lines_text(dv));
    }
    while i < lines.len()
        invariant
            i <= lines.len(),
            dv == lines.deep_view(),
            dv.len() == lines.len(),
            lines_text(dv) == r@ + lines_text(dv.skip(i as int)),
        decreases lines.len() - i,
    {
        let ghost r0 = r@;
        r.append(lines[i].as_str());
        r.append("\n");
        proof {
            reveal_strlit("\n");
            let rest = dv.skip(i as int);
            assert(rest[0] == dv[i as int]);
            assert(rest.drop_first() =~= dv.skip(i as int + 1));
            assert("\n"@ =~= seq!['\n']);
            assert(lines_text(rest) == dv[i as int] + seq!['\n'] + lines_text(
                dv.skip(i as int + 1),
            ));
            assert(r0 + (dv[i as int] + seq!['\n'] + lines_text(dv.skip(i as int + 1))) =~= ((r0
                + dv[i as int]) + "\n"@) + lines_text(dv.skip(i as int + 1)));
        }
        i += 1;
    }
    proof {
        assert(dv.skip(i as int) =~= Seq::<Seq<char>>::empty());
        assert(r@ + lines_text(dv.skip(i as int)) =~= r@);
    }
    r
}

/// A joined text ends with its last line, closed by a newline.
pub proof fn lemma_lines_text_last(ls: Seq<Seq<char>>)
    requires
        ls.len() >= 1,
    ensures
        lines_text(ls).len() >= ls.last().len() + 1,
        lines_text(ls).subrange(
            lines_text(ls).len() - ls.last().len() - 1,
            lines_text(ls).len() as int,
        ) == ls.last() + seq!['\n'],
    decreases ls.len(),
{
    if ls.len() == 1 {
        assert(ls.drop_first().len() == 0);
        assert(lines_text(ls) == ls[0] + seq!['\n'] + lines_text(ls.drop_first()));
        assert(lines_text(ls) =~= ls[0] + seq!['\n']);
        assert(lines_text(ls).subrange(0, lines_text(ls).len() as int) =~= lines_text(ls));
    } else {
        let rest = ls.drop_first();
        lemma_lines_text_last(rest);
        assert(rest.last() == ls.last());
        let w = lines_text(ls);
        let t = lines_text(rest);
        assert(w == ls[0] + seq!['\n'] + t);
        let l = ls.last().len() + 1;
        assert(w.subrange(w.len() - l, w.len() as int) =~= t.subrange(t.len() - l, t.len() as int));
    }
}

/// `s` with every underscore replaced by a dash.
pub open spec fn dashed(s: Seq<char>) -> Seq<char> {
    s.map_values(
        |c: char|
            if c == '_' {
                '-'
            } else {
                c
            },
    )
}

/// Replace every underscore in `s` by a dash.
pub fn replace_underscores(s: &str) -> (r: String)
    ensures
        r@ == dashed(s@),
{
    let n = s.unicode_len();
    let mut r = String::new();
    let mut i: usize = 0;
    while i < n
        invariant
            i <= n == s@.len(),
            r@ == dashed(s@.take(i as int)),
        decreases n - i,
    {
        let c = s.get_char(i);
        if c == '_' {
            r.append("-");
            proof {
                reveal_strlit("-");
            }
        } else {
            r.append(s.substring_char(i, i + 1));
        }
        proof {
            assert(r@ =~= dashed(s@.take(i as int + 1)));
        }
        i += 1;
    }
    proof {
        assert(s@.take(n as int) =~= s@);
    }
    r
}

/// The whitespace characters removed at the ends of a trimmed value.
pub open spec fn is_space(c: char) -> bool {
    c == ' ' || c == '\t' || c == '\r' || c == '\n'
}

/// How many whitespace characters `s` starts with.
pub open spec fn leading_spaces(s: Seq<char>) -> int
    decreases s.len(),
{
    if s.len() == 0 {
        0
    } else if is_space(s[0]) {
        1 + leading_spaces(s.drop_first())
    } else {
        0
    }
}

/// How many whitespace characters `s` ends with.
pub open spec fn trailing_spaces(s: Seq<char>) -> int
    decreases s.len(),
{
    if s.len() == 0 {
        0
    } else if is_space(s.last()) {
        1 + trailing_spaces(s.drop_last())
    } else {
        0
    }
}

/// `s` without its leading and trailing whitespace.
pub open spec fn trimmed(s: Seq<char>) -> Seq<char> {
    if leading_spaces(s) == s.len() {
        Seq::empty()
    } else {
        s.subrange(leading_spaces(s), s.len() - trailing_spaces(s))
    }
}

proof fn lemma_leading_spaces_is(s: Seq<char>, a: int)
    requires
        0 <= a <= s.len(),
        forall|j: int| 0 <= j < a ==> is_space(s[j]),
        a < s.len() ==> !is_space(s[a]),
    ensures
        leading_spaces(s) == a,
    decreases s.len(),
{
    if a > 0 {
        assert(forall|j: int| 0 <= j < a - 1 ==> s.drop_first()[j] == s[j + 1]);
        lemma_leading_spaces_is(s.drop_first(), a - 1);
    }
}

proof fn lemma_trailing_spaces_is(s: Seq<char>, b: int)
    requires
        0 <= b <= s.len(),
        forall|j: int| b <= j < s.len() ==> is_space(s[j]),
        b > 0 ==> !is_space(s[b - 1]),
    ensures
        trailing_spaces(s) == s.len() - b,
    decreases s.len(),
{
    if b < s.len() {
        assert(forall|j: int| 0 <= j < s.len() - 1 ==> s.drop_last()[j] == s[j]);
        lemma_trailing_spaces_is(s.drop_last(), b);
    }
}

/// Whether `c` is one of the whitespace characters trimming removes.
pub fn is_space_char(c: char) -> (r: bool)
    ensures
        r == is_space(c),
{
    c == ' ' || c == '\t' || c == '\r' || c == '\n'
}

/// Remove leading and trailing whitespace from `s`.
pub fn trim_spaces(s: &str) -> (r: String)
    ensures
        r@ == trimmed(s@),
{
    let n = s.unicode_len();
    let mut a: usize = 0;
    while a < n && is_space_char(s.get_char(a))
        invariant
            a <= n == s@.len(),
            forall|j: int| 0 <= j < a ==> is_space(s@[j]),
        decreases n - a,
    {
        a += 1;
    }
    if a == n {
        proof {
            lemma_leading_spaces_is(s@, n as int);
        }
        return String::new();
    }
    proof {
        lemma_leading_spaces_is(s@, a as int);
    }
    let mut b: usize = n;
    while b > a + 1 && is_space_char(s.get_char(b - 1))
        invariant
            a + 1 <= b <= n == s@.len(),
            !is_space(s@[a as int]),
            forall|j: int| b <= j < n ==> is_space(s@[j]),
        decreases b,
    {
        b -= 1;
    }
    proof {
        lemma_trailing_spaces_is(s@, b as int);
    }
    s.substring_char(a, b).to_owned()
}

} // verus!
