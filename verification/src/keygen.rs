//! Key-generation input text.
//!
//! The external tool generates keys from a small line-oriented input
//! document: parameter lines of the form `Name: value`, then control
//! directives.  The document always opens with a `Key-Type` line and always
//! closes with the commit directive; the no-protection directive stands in
//! it exactly when no passphrase protects the new key.

use vstd::prelude::*;

use crate::text::{
    dashed, has_prefix, lemma_lines_text_last, lines_text, replace_underscores, str_eq,
    terminate_lines, trim_spaces, trimmed,
};

verus! {

/// A parameter line of the input document.
pub open spec fn param_line(k: Seq<char>, v: Seq<char>) -> Seq<char> {
    k + seq![':', ' '] + v
}

/// View of a caller's parameter list.
pub open spec fn params_view(ps: Seq<(String, String)>) -> Seq<(Seq<char>, Seq<char>)> {
    ps.map_values(|p: (String, String)| (p.0@, p.1@))
}

/// The normalized form of caller parameters: underscores in names become
/// dashes, values lose surrounding whitespace.
pub open spec fn normalized(ps: Seq<(Seq<char>, Seq<char>)>) -> Seq<(Seq<char>, Seq<char>)> {
    ps.map_values(|p: (Seq<char>, Seq<char>)| (dashed(p.0), trimmed(p.1)))
}

/// The value of the first parameter named `k`, if any.
pub open spec fn first_param(ps: Seq<(Seq<char>, Seq<char>)>, k: Seq<char>) -> Option<Seq<char>>
    decreases ps.len(),
{
    if ps.len() == 0 {
        Option::None
    } else if ps[0].0 == k {
        Option::Some(ps[0].1)
    } else {
        first_param(ps.drop_first(), k)
    }
}

/// Some parameter is named `k`.
pub open spec fn has_param(ps: Seq<(Seq<char>, Seq<char>)>, k: Seq<char>) -> bool {
    first_param(ps, k) is Some
}

/// The key type the document asks for: the caller's, or the default.
pub open spec fn key_type_value(ps: Seq<(Seq<char>, Seq<char>)>) -> Seq<char> {
    match first_param(ps, "Key-Type"@) {
        Option::Some(v) => v,
        Option::None => "RSA"@,
    }
}

/// The line `l` occurs among `ls`.
pub open spec fn line_present(ls: Seq<Seq<char>>, l: Seq<char>) -> bool {
    exists|j: int| 0 <= j < ls.len() && ls[j] == l
}

/// The no-protection directive occurs among `ls`.
pub open spec fn no_protection_present(ls: Seq<Seq<char>>) -> bool {
    line_present(ls, "%no-protection"@)
}

/// A parameter line is never the no-protection directive: the directive
/// holds no colon, a parameter line always holds one.
proof fn lemma_param_line_not_directive(k: Seq<char>, v: Seq<char>)
    ensures
        param_line(k, v) != "%no-protection"@,
{
    reveal_strlit("%no-protection");
    assert("%no-protection"@.len() == 14);
    assert(forall|i: int| 0 <= i < 14 ==> "%no-protection"@[i] != ':');
    if param_line(k, v) == "%no-protection"@ {
        let m = k.len() as int;
        assert(param_line(k, v)[m] == ':');
        assert(false);
    }
}

/// A line present stays present when another line is appended.
proof fn lemma_line_present_push(ls: Seq<Seq<char>>, l: Seq<char>, x: Seq<char>)
    requires
        line_present(ls, l),
    ensures
        line_present(ls.push(x), l),
{
    let j = choose|j: int| 0 <= j < ls.len() && ls[j] == l;
    assert(ls.push(x)[j] == l);
}

/// Join a parameter name and value into one line.
fn join_kv(k: &str, v: &str) -> (r: String)
    ensures
        r@ == param_line(k@, v@),
{
    let mut l = k.to_owned();
    l.append(": ");
    l.append(v);
    proof {
        reveal_strlit(": ");
        assert(": "@ =~= seq![':', ' ']);
        assert(l@ =~= param_line(k@, v@));
    }
    l
}

/// The value of the first parameter named `k`, if any.
fn find_param(ps: &Vec<(String, String)>, k: &str) -> (r: Option<String>)
    ensures
        match r {
            Option::Some(v) => first_param(params_view(ps@), k@) == Option::Some(v@),
            Option::None => first_param(params_view(ps@), k@) is None,
        },
{
    let ghost pv = params_view(ps@);
    let mut i: usize = 0;
    proof {
        assert(pv.skip(0) =~= pv);
    }
    while i < ps.len()
        invariant
            i <= ps.len() == pv.len(),
            pv == params_view(ps@),
            first_param(pv, k@) == first_param(pv.skip(i as int), k@),
        decreases ps.len() - i,
    {
        proof {
            assert(pv[i as int] == (ps@[i as int].0@, ps@[i as int].1@));
            assert(pv.skip(i as int)[0] == pv[i as int]);
            assert(pv.skip(i as int).drop_first() =~= pv.skip(i as int + 1));
        }
        let p = &ps[i];
        if str_eq(p.0.as_str(), k) {
            return Some(p.1.clone());
        }
        i += 1;
    }
    proof {
        assert(pv.skip(i as int) =~= Seq::<(Seq<char>, Seq<char>)>::empty());
    }
    None
}

/// Whether some parameter is named `k`.
fn has_param_exec(ps: &Vec<(String, String)>, k: &str) -> (r: bool)
    ensures
        r == has_param(params_view(ps@), k@),
{
    match find_param(ps, k) {
        Some(_) => true,
        None => false,
    }
}

/// The lines of the key-generation input document, in order: the `Key-Type`
/// line first; then the caller's other parameters, names normalized and
/// values trimmed; then defaults for parameters the caller left out; then
/// the no-protection directive when no passphrase was supplied; and the
/// commit directive last.
pub fn gen_key_input_lines(
    args: &Vec<(String, String)>,
    has_passphrase: bool,
    login_name: &String,
    host_name: &String,
) -> (r: Vec<String>)
    ensures
        r@.len() >= 2,
        r.deep_view()[0] == param_line(
            "Key-Type"@,
            key_type_value(normalized(params_view(args@))),
        ),
        r.deep_view()[r@.len() - 1] == "%commit"@,
        no_protection_present(r.deep_view()) <==> !has_passphrase,
        forall|i: int|
            0 <= i < args@.len() && (#[trigger] normalized(params_view(args@))[i]).0
                != "Key-Type"@ ==> line_present(
                r.deep_view(),
                param_line(
                    normalized(params_view(args@))[i].0,
                    normalized(params_view(args@))[i].1,
                ),
            ),
{
    let ghost av = normalized(params_view(args@));
    // normalize the caller's parameters
    let mut norm: Vec<(String, String)> = Vec::new();
    let mut i: usize = 0;
    proof {
        assert(params_view(norm@) =~= av.take(0));
    }
    while i < args.len()
        invariant
            i <= args.len(),
            av == normalized(params_view(args@)),
            av.len() == args@.len(),
            params_view(norm@) == av.take(i as int),
        decreases args.len() - i,
    {
        let p = &args[i];
        let nk = replace_underscores(p.0.as_str());
        let nv = trim_spaces(p.1.as_str());
        let ghost old_norm = norm@;
        let ghost nkv = nk@;
        let ghost nvv = nv@;
        let ghost pushed = (nk, nv);
        norm.push((nk, nv));
        proof {
            assert(params_view(args@)[i as int] == (args@[i as int].0@, args@[i as int].1@));
            assert(av[i as int] == (dashed(args@[i as int].0@), trimmed(args@[i as int].1@)));
            assert(params_view(old_norm).len() == old_norm.len());
            assert(av.take(i as int).len() == i as int);
            assert(old_norm.len() == i as int);
            assert(norm@ == old_norm.push(pushed));
            assert(norm@[i as int] == pushed);
            assert(pushed.0@ == nkv && pushed.1@ == nvv);
            assert(params_view(norm@)[i as int] == (nkv, nvv));
            assert(forall|j: int|
                0 <= j < i ==> #[trigger] norm@[j] == old_norm[j]);
            assert(forall|j: int|
                0 <= j < i ==> #[trigger] params_view(norm@)[j] == params_view(old_norm)[j]);
            assert(params_view(norm@) =~= av.take(i as int + 1));
        }
        i += 1;
    }
    proof {
        assert(av.take(args@.len() as int) =~= av);
        assert(params_view(norm@) == av);
    }
    // the Key-Type line always comes first
    let key_type = match find_param(&norm, "Key-Type") {
        Some(v) => v,
        None => String::from_str("RSA"),
    };
    proof {
        assert(key_type@ == key_type_value(av));
    }
    let mut lines: Vec<String> = Vec::new();
    let first = join_kv("Key-Type", key_type.as_str());
    lines.push(first);
    proof {
        assert(lines.deep_view() =~= seq![param_line("Key-Type"@, key_type_value(av))]);
        lemma_param_line_not_directive("Key-Type"@, key_type_value(av));
    }
    // the caller's other parameters, in their order
    let mut i: usize = 0;
    while i < norm.len()
        invariant
            i <= norm.len(),
            av == normalized(params_view(args@)),
            params_view(norm@) == av,
            norm.len() == av.len(),
            lines@.len() >= 1,
            lines.deep_view()[0] == param_line("Key-Type"@, key_type_value(av)),
            forall|j: int| 0 <= j < lines@.len() ==> lines.deep_view()[j] != "%no-protection"@,
            forall|t: int|
                0 <= t < i && (#[trigger] av[t]).0 != "Key-Type"@ ==> line_present(
                    lines.deep_view(),
                    param_line(av[t].0, av[t].1),
                ),
        decreases norm.len() - i,
    {
        proof {
            assert(params_view(norm@)[i as int] == (norm@[i as int].0@, norm@[i as int].1@));
        }
        let p = &norm[i];
        if !str_eq(p.0.as_str(), "Key-Type") {
            let l = join_kv(p.0.as_str(), p.1.as_str());
            let ghost old_lines = lines.deep_view();
            lines.push(l);
            proof {
                assert(lines.deep_view() =~= old_lines.push(l@));
                lemma_param_line_not_directive(av[i as int].0, av[i as int].1);
                assert(lines.deep_view()[old_lines.len() as int] == param_line(
                    av[i as int].0,
                    av[i as int].1,
                ));
                assert forall|t: int|
                    0 <= t < i + 1 && (#[trigger] av[t]).0 != "Key-Type"@ implies line_present(
                    lines.deep_view(),
                    param_line(av[t].0, av[t].1),
                ) by {
                    if t < i {
                        lemma_line_present_push(old_lines, param_line(av[t].0, av[t].1), l@);
                    }
                }
            }
        }
        i += 1;
    }
    // defaults for what the caller left out
    if !has_param_exec(&norm, "Key-Curve") && !has_param_exec(&norm, "Key-Length") {
        push_param(&mut lines, "Key-Length", "2048", Ghost(av));
    }
    if !has_param_exec(&norm, "Expire-Date") {
        push_param(&mut lines, "Expire-Date", "0", Ghost(av));
    }
    if !has_param_exec(&norm, "Name-Real") {
        push_param(&mut lines, "Name-Real", "AutoGenerated Key", Ghost(av));
    }
    if !has_param_exec(&norm, "Name-Email") {
        let mut email = login_name.clone();
        email.append("@");
        email.append(host_name.as_str());
        push_param(&mut lines, "Name-Email", email.as_str(), Ghost(av));
    }
    // directives
    let ghost before_directives = lines.deep_view();
    if !has_passphrase {
        let ghost old_lines = lines.deep_view();
        lines.push(String::from_str("%no-protection"));
        proof {
            assert(lines.deep_view() =~= old_lines.push("%no-protection"@));
            assert(lines.deep_view()[old_lines.len() as int] == "%no-protection"@);
            assert(no_protection_present(lines.deep_view()));
            preserve_all(old_lines, "%no-protection"@, Ghost(av));
        }
    }
    let ghost old_lines = lines.deep_view();
    lines.push(String::from_str("%commit"));
    proof {
        assert(lines.deep_view() =~= old_lines.push("%commit"@));
        reveal_strlit("%commit");
        reveal_strlit("%no-protection");
        assert("%commit"@.len() == 7);
        assert("%no-protection"@.len() == 14);
        assert("%commit"@ != "%no-protection"@);
        if !has_passphrase {
            lemma_line_present_push(old_lines, "%no-protection"@, "%commit"@);
        }
        preserve_all(old_lines, "%commit"@, Ghost(av));
    }
    lines
}

/// Append one default parameter line, keeping every earlier line in place.
fn push_param(
    lines: &mut Vec<String>,
    k: &str,
    v: &str,
    av: Ghost<Seq<(Seq<char>, Seq<char>)>>,
)
    requires
        old(lines)@.len() >= 1,
    ensures
        final(lines).deep_view() == old(lines).deep_view().push(param_line(k@, v@)),
        final(lines)@.len() == old(lines)@.len() + 1,
        final(lines).deep_view()[0] == old(lines).deep_view()[0],
        param_line(k@, v@) != "%no-protection"@,
        forall|j: int|
            0 <= j < old(lines)@.len() ==> final(lines).deep_view()[j] == old(
                lines,
            ).deep_view()[j],
        forall|t: int|
            0 <= t < av@.len() && line_present(
                old(lines).deep_view(),
                param_line((#[trigger] av@[t]).0, av@[t].1),
            ) ==> line_present(final(lines).deep_view(), param_line(av@[t].0, av@[t].1)),
{
    let l = join_kv(k, v);
    let ghost old_lines = lines.deep_view();
    lines.push(l);
    proof {
        assert(lines.deep_view() =~= old_lines.push(l@));
        lemma_param_line_not_directive(k@, v@);
        preserve_all(old_lines, l@, av);
    }
}

/// Every parameter line present before an append is present after it.
proof fn preserve_all(ls: Seq<Seq<char>>, x: Seq<char>, av: Ghost<Seq<(Seq<char>, Seq<char>)>>)
    ensures
        forall|t: int|
            0 <= t < av@.len() && line_present(
                ls,
                param_line((#[trigger] av@[t]).0, av@[t].1),
            ) ==> line_present(ls.push(x), param_line(av@[t].0, av@[t].1)),
{
    assert forall|t: int|
        0 <= t < av@.len() && line_present(
            ls,
            param_line((#[trigger] av@[t]).0, av@[t].1),
        ) implies line_present(ls.push(x), param_line(av@[t].0, av@[t].1)) by {
        lemma_line_present_push(ls, param_line(av@[t].0, av@[t].1), x);
    }
}

/// The whole key-generation input document as one text: its lines joined,
/// each closed by a newline.  It starts with the `Key-Type` line and ends
/// with the commit directive.
pub fn gen_key_input(
    args: &Vec<(String, String)>,
    has_passphrase: bool,
    login_name: &String,
    host_name: &String,
) -> (r: String)
    ensures
        r@.len() >= 8,
        r@.subrange(r@.len() - 8, r@.len() as int) == "%commit"@ + seq!['\n'],
        has_prefix(r@, "Key-Type"@ + seq![':', ' ']),
{
    let lines = gen_key_input_lines(args, has_passphrase, login_name, host_name);
    let r = terminate_lines(&lines);
    proof {
        let dv = lines.deep_view();
        reveal_strlit("%commit");
        reveal_strlit("Key-Type");
        assert("%commit"@.len() == 7);
        assert("Key-Type"@.len() == 8);
        assert(dv.last() == "%commit"@);
        lemma_lines_text_last(dv);
        assert(r@.subrange(r@.len() - 8, r@.len() as int) == "%commit"@ + seq!['\n']);
        // the first line opens the text
        let first = dv[0];
        assert(lines_text(dv) == dv[0] + seq!['\n'] + lines_text(dv.drop_first()));
        assert(first.len() >= 10);
        let p = "Key-Type"@ + seq![':', ' '];
        assert(r@.take(10) =~= first.take(10));
        assert(first.take(10) =~= p);
    }
    r
}

} // verus!
