//! Parsing what toolchains print when asked for their version.
//!
//! Each toolchain reports its version in its own shape: one as the third
//! whitespace-separated token, one as the second, one behind a leading tag
//! character, one inside double quotes on the first line of the error
//! stream. These extractors are total and never panic.

use vstd::prelude::*;
use crate::text::{
    find_char_from, index_of_from, lemma_index_of_from, lemma_string_views_index,
    lemma_string_views_len, string_views,
};

verus! {

/// True iff `c` is ASCII whitespace, the separator of version-report
/// tokens.
pub open spec fn is_space(c: char) -> bool {
    c == ' ' || c == '\t' || c == '\n' || c == '\r'
}

/// The whitespace-separated tokens of `s`, in order; separators are
/// dropped, so every token is non-empty.
pub open spec fn ws_tokens(s: Seq<char>) -> Seq<Seq<char>>
    decreases s.len(),
{
    if s.len() == 0 {
        Seq::<Seq<char>>::empty()
    } else if is_space(s[0]) {
        ws_tokens(s.skip(1))
    } else if s.len() == 1 {
        seq![seq![s[0]]]
    } else if is_space(s[1]) {
        seq![seq![s[0]]] + ws_tokens(s.skip(1))
    } else {
        let rest = ws_tokens(s.skip(1));
        seq![seq![s[0]] + rest[0]] + rest.skip(1)
    }
}

/// A string that starts with a non-separator starts with a non-empty
/// token.
pub proof fn lemma_ws_tokens_head(s: Seq<char>)
    requires
        s.len() > 0,
        !is_space(s[0]),
    ensures
        ws_tokens(s).len() >= 1,
        ws_tokens(s)[0].len() >= 1,
        ws_tokens(s)[0][0] == s[0],
    decreases s.len(),
{
    if s.len() > 1 && !is_space(s[1]) {
        lemma_ws_tokens_head(s.skip(1));
    }
}

/// How appending one character extends the tokens: a separator closes the
/// last token; a non-separator grows it, or opens a new one where the
/// string was empty or ended in a separator.
pub proof fn lemma_ws_tokens_push(s: Seq<char>, c: char)
    ensures
        is_space(c) ==> ws_tokens(s.push(c)) == ws_tokens(s),
        (!is_space(c) && (s.len() == 0 || is_space(s.last()))) ==> ws_tokens(s.push(c))
            == ws_tokens(s).push(seq![c]),
        (!is_space(c) && s.len() > 0 && !is_space(s.last())) ==> ws_tokens(s).len() >= 1
            && ws_tokens(s.push(c)) == ws_tokens(s).update(
            ws_tokens(s).len() - 1,
            ws_tokens(s).last().push(c),
        ),
    decreases s.len(),
{
    let t = s.push(c);
    if s.len() == 0 {
        assert(t =~= seq![c]);
        assert(ws_tokens(Seq::<char>::empty()) == Seq::<Seq<char>>::empty());
        if is_space(c) {
            assert(seq![c].skip(1) =~= Seq::<char>::empty());
            assert(ws_tokens(t) =~~= ws_tokens(s));
        } else {
            assert(ws_tokens(t) =~~= ws_tokens(s).push(seq![c]));
        }
    } else if s.len() == 1 {
        assert(t[0] == s[0]);
        assert(t.len() == 2 && t[1] == c);
        assert(t.skip(1) =~= seq![c]);
        assert(s.last() == s[0]);
        assert(s.skip(1) =~= Seq::<char>::empty());
        assert(seq![c].skip(1) =~= Seq::<char>::empty());
        assert(ws_tokens(Seq::<char>::empty()) == Seq::<Seq<char>>::empty());
        if is_space(c) {
            assert(ws_tokens(seq![c]) == ws_tokens(seq![c].skip(1)));
        } else {
            assert(ws_tokens(seq![c]) == seq![seq![c]]);
        }
        if is_space(s[0]) {
            if is_space(c) {
                assert(ws_tokens(t) == ws_tokens(t.skip(1)));
                assert(seq![c].skip(1) =~= Seq::<char>::empty());
                assert(ws_tokens(t) =~~= ws_tokens(s));
            } else {
                assert(ws_tokens(t) =~~= ws_tokens(s).push(seq![c]));
            }
        } else {
            if is_space(c) {
                assert(seq![c].skip(1) =~= Seq::<char>::empty());
                assert(ws_tokens(t) =~~= ws_tokens(s));
            } else {
                assert(ws_tokens(seq![c]) == seq![seq![c]]);
                assert(seq![s[0]] + seq![c] =~= seq![s[0]].push(c));
                assert(ws_tokens(t) =~~= ws_tokens(s).update(
                    ws_tokens(s).len() - 1,
                    ws_tokens(s).last().push(c),
                ));
            }
        }
    } else {
        assert(t[0] == s[0]);
        assert(t[1] == s[1]);
        assert(t.skip(1) =~= s.skip(1).push(c));
        assert(s.skip(1).last() == s.last());
        lemma_ws_tokens_push(s.skip(1), c);
        let r = ws_tokens(s.skip(1));
        if is_space(s[0]) {
            assert(ws_tokens(t) == ws_tokens(t.skip(1)));
            assert(ws_tokens(s) == ws_tokens(s.skip(1)));
        } else if is_space(s[1]) {
            if is_space(c) {
                assert(ws_tokens(t) =~~= ws_tokens(s));
            } else if is_space(s.last()) {
                assert(ws_tokens(t.skip(1)) == r.push(seq![c]));
                assert(ws_tokens(t) =~~= ws_tokens(s).push(seq![c]));
            } else {
                assert(r.len() >= 1);
                assert(ws_tokens(t.skip(1)) == r.update(r.len() - 1, r.last().push(c)));
                assert(ws_tokens(s).len() == 1 + r.len());
                assert(ws_tokens(t) =~~= ws_tokens(s).update(
                    ws_tokens(s).len() - 1,
                    ws_tokens(s).last().push(c),
                ));
            }
        } else {
            lemma_ws_tokens_head(s.skip(1));
            assert(r.len() >= 1);
            if is_space(c) {
                assert(ws_tokens(t.skip(1)) == r);
                assert(ws_tokens(t) =~~= ws_tokens(s));
            } else if is_space(s.last()) {
                assert(ws_tokens(t.skip(1)) == r.push(seq![c]));
                assert(ws_tokens(t) =~~= ws_tokens(s).push(seq![c]));
            } else {
                assert(ws_tokens(t.skip(1)) == r.update(r.len() - 1, r.last().push(c)));
                if r.len() == 1 {
                    assert(seq![s[0]] + r[0].push(c) =~= (seq![s[0]] + r[0]).push(c));
                    assert(ws_tokens(t) =~~= ws_tokens(s).update(
                        ws_tokens(s).len() - 1,
                        ws_tokens(s).last().push(c),
                    ));
                } else {
                    assert(ws_tokens(t) =~~= ws_tokens(s).update(
                        ws_tokens(s).len() - 1,
                        ws_tokens(s).last().push(c),
                    ));
                }
            }
        }
    }
}

/// Cuts `s` into its whitespace-separated tokens.
pub fn whitespace_tokens(s: &str) -> (toks: Vec<String>)
    ensures
        string_views(toks@) == ws_tokens(s@),
{
    let len = s.unicode_len();
    let mut toks: Vec<String> = Vec::new();
    let mut start: usize = 0;
    let mut in_token = false;
    let mut i: usize = 0;
    proof {
        assert(s@.take(0) =~= Seq::<char>::empty());
        assert(string_views(toks@) =~= Seq::<Seq<char>>::empty());
    }
    while i < len
        invariant
            len == s@.len(),
            i <= len,
            in_token <==> (i > 0 && !is_space(s@[i - 1])),
            in_token ==> start < i,
            !in_token ==> string_views(toks@) == ws_tokens(s@.take(i as int)),
            in_token ==> ws_tokens(s@.take(i as int)) == string_views(toks@).push(
                s@.subrange(start as int, i as int),
            ),
        decreases len - i,
    {
        let c = s.get_char(i);
        proof {
            lemma_ws_tokens_push(s@.take(i as int), c);
            assert(s@.take(i as int).push(c) =~= s@.take(i + 1));
            if i > 0 {
                assert(s@.take(i as int).last() == s@[i - 1]);
            }
        }
        if is_space_char(c) {
            if in_token {
                let tok = s.substring_char(start, i).to_owned();
                let ghost old_toks = toks@;
                toks.push(tok);
                proof {
                    assert(toks@.drop_last() =~= old_toks);
                }
                in_token = false;
            }
        } else {
            if !in_token {
                start = i;
                in_token = true;
                proof {
                    assert(s@.subrange(i as int, i + 1) =~= seq![c]);
                }
            } else {
                proof {
                    let vv = string_views(toks@);
                    let e = s@.subrange(start as int, i as int);
                    assert(e.push(c) =~= s@.subrange(start as int, i + 1));
                    assert(vv.push(e).update(vv.push(e).len() - 1, e.push(c)) =~~= vv.push(
                        e.push(c),
                    ));
                }
            }
        }
        i = i + 1;
    }
    proof {
        assert(s@.take(len as int) =~= s@);
    }
    if in_token {
        let tok = s.substring_char(start, len).to_owned();
        let ghost old_toks = toks@;
        toks.push(tok);
        proof {
            assert(toks@.drop_last() =~= old_toks);
        }
    }
    toks
}

/// True iff `c` is ASCII whitespace; the executable twin of `is_space`.
pub fn is_space_char(c: char) -> (r: bool)
    ensures
        r == is_space(c),
{
    c == ' ' || c == '\t' || c == '\n' || c == '\r'
}

/// The `n`-th whitespace-separated token of `s`, where it has one.
pub fn nth_whitespace_token(s: &str, n: usize) -> (r: Option<String>)
    ensures
        n < ws_tokens(s@).len() ==> (r matches Some(v) && v@ == ws_tokens(s@)[n as int]),
        n >= ws_tokens(s@).len() ==> r is None,
{
    let toks = whitespace_tokens(s);
    proof {
        lemma_string_views_len(toks@);
    }
    if n < toks.len() {
        proof {
            lemma_string_views_index(toks@, n as int);
        }
        Some(toks[n].clone())
    } else {
        None
    }
}

/// The version token of a `go version` report: the third token, as in
/// `go version go1.21.0 linux/amd64`; absent where the report has fewer
/// than three tokens.
pub fn go_version_token(line: &str) -> (r: Option<String>)
    ensures
        ws_tokens(line@).len() >= 3 ==> (r matches Some(v) && v@ == ws_tokens(line@)[2]),
        ws_tokens(line@).len() < 3 ==> r is None,
{
    nth_whitespace_token(line, 2)
}

/// The version token of a `rustc --version` report: the second token, as
/// in `rustc 1.75.0 (hash date)`; absent where the report has fewer than
/// two tokens.
pub fn rustc_version_token(line: &str) -> (r: Option<String>)
    ensures
        ws_tokens(line@).len() >= 2 ==> (r matches Some(v) && v@ == ws_tokens(line@)[1]),
        ws_tokens(line@).len() < 2 ==> r is None,
{
    nth_whitespace_token(line, 1)
}

/// The version that an active-toolchain report names: the first token cut
/// at its first `-`, so `stable-x86_64-unknown-linux-gnu (default)` yields
/// `stable`; absent where the report holds no token at all.
pub open spec fn spec_active_toolchain_version(s: Seq<char>) -> Option<Seq<char>> {
    let toks = ws_tokens(s);
    if toks.len() == 0 {
        None
    } else {
        Some(toks[0].take(index_of_from(toks[0], '-', 0)))
    }
}

/// Extracts the version from an active-toolchain report.
pub fn active_toolchain_version(out: &str) -> (r: Option<String>)
    ensures
        spec_active_toolchain_version(out@) matches Some(t) ==> (r matches Some(v) && v@ == t),
        spec_active_toolchain_version(out@) is None ==> r is None,
{
    let toks = whitespace_tokens(out);
    proof {
        lemma_string_views_len(toks@);
    }
    if toks.len() == 0 {
        return None;
    }
    proof {
        lemma_string_views_index(toks@, 0);
    }
    let tok = toks[0].as_str();
    let cut = find_char_from(tok, '-', 0);
    proof {
        lemma_index_of_from(tok@, '-', 0);
        assert(tok@.subrange(0, cut as int) =~= tok@.take(cut as int));
    }
    Some(tok.substring_char(0, cut).to_owned())
}

/// The version string with its single leading tag character removed, as
/// the JavaScript runtime's `v18.17.0` reports carry one; an empty string
/// stays empty.
pub fn strip_first_char(s: &str) -> (r: String)
    ensures
        s@.len() >= 1 ==> r@ == s@.skip(1),
        s@.len() == 0 ==> r@ == s@,
{
    let len = s.unicode_len();
    if len >= 1 {
        proof {
            assert(s@.subrange(1, len as int) =~= s@.skip(1));
        }
        s.substring_char(1, len).to_owned()
    } else {
        proof {
            assert(s@ =~= Seq::<char>::empty());
        }
        String::new()
    }
}

/// The first line of a report, with a trailing carriage return removed.
pub open spec fn spec_first_line(s: Seq<char>) -> Seq<char> {
    let line = s.take(index_of_from(s, '\n', 0));
    if line.len() > 0 && line.last() == '\r' {
        line.drop_last()
    } else {
        line
    }
}

/// The major version in a Java version report: the text inside the double
/// quotes on the first line, cut at its first dot, as in
/// `openjdk version "17.0.1" 2021-10-19`; `0` where the first line carries
/// no quote.
pub open spec fn spec_java_major(s: Seq<char>) -> Seq<char> {
    let line = spec_first_line(s);
    let q1 = index_of_from(line, '"', 0);
    if q1 == line.len() {
        "0"@
    } else {
        let tok = line.subrange(q1 + 1, index_of_from(line, '"', q1 + 1));
        tok.take(index_of_from(tok, '.', 0))
    }
}

/// Extracts the major version from a Java version report.
pub fn java_major_version(output: &str) -> (r: String)
    ensures
        r@ == spec_java_major(output@),
{
    let nl = find_char_from(output, '\n', 0);
    proof {
        lemma_index_of_from(output@, '\n', 0);
    }
    let mut line = output.substring_char(0, nl);
    proof {
        assert(line@ =~= output@.take(nl as int));
    }
    let mut line_len = line.unicode_len();
    if line_len > 0 && line.get_char(line_len - 1) == '\r' {
        let trimmed = line.substring_char(0, line_len - 1);
        proof {
            assert(trimmed@ =~= line@.drop_last());
        }
        line = trimmed;
        line_len = line_len - 1;
    }
    let q1 = find_char_from(line, '"', 0);
    proof {
        lemma_index_of_from(line@, '"', 0);
    }
    if q1 == line_len {
        return String::from_str("0");
    }
    let q2 = find_char_from(line, '"', q1 + 1);
    proof {
        lemma_index_of_from(line@, '"', q1 + 1);
    }
    let tok = line.substring_char(q1 + 1, q2);
    let cut = find_char_from(tok, '.', 0);
    proof {
        lemma_index_of_from(tok@, '.', 0);
        assert(tok@.subrange(0, cut as int) =~= tok@.take(cut as int));
    }
    tok.substring_char(0, cut).to_owned()
}

} // verus!
