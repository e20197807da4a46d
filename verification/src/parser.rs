//! The request-line parser: the first line of the raw request text is split
//! on runs of white space, and the first two tokens are returned as method
//! and path.

use vstd::prelude::*;
use crate::text::{is_space, is_space_char};

verus! {

/// Why a request could not be parsed.
#[derive(Clone, Copy, PartialEq, Eq, Structural, Debug)]
pub enum ParseError {
    /// The request text was empty: there was no line to parse.
    EmptyRequest,
    /// The first line held fewer than three white-space-separated tokens.
    MalformedRequestLine,
}

/// The position of the first `'\n'` at or after `i`, or `s.len()` if there is
/// none.
pub open spec fn eol_at(s: Seq<char>, i: int) -> int
    decreases s.len() - i
        when 0 <= i <= s.len()
{
    if i >= s.len() {
        s.len() as int
    } else if s[i] == '\n' {
        i
    } else {
        eol_at(s, i + 1)
    }
}

/// The first line of the request text: everything before the first `'\n'`,
/// with one trailing `'\r'` removed if present.
pub open spec fn first_line(s: Seq<char>) -> Seq<char> {
    let raw = s.subrange(0, eol_at(s, 0));
    if raw.len() > 0 && raw[raw.len() - 1] == '\r' {
        raw.drop_last()
    } else {
        raw
    }
}

/// The position right after the token that starts at `i`: the first position
/// at or after `i` that holds white space, or `s.len()`.
pub open spec fn tok_end(s: Seq<char>, i: int) -> int
    decreases s.len() - i
        when 0 <= i <= s.len()
{
    if i >= s.len() || is_space(s[i]) {
        i
    } else {
        tok_end(s, i + 1)
    }
}

pub proof fn lemma_tok_end_bounds(s: Seq<char>, i: int)
    requires
        0 <= i <= s.len(),
    ensures
        i <= tok_end(s, i) <= s.len(),
    decreases s.len() - i,
{
    if i < s.len() && !is_space(s[i]) {
        lemma_tok_end_bounds(s, i + 1);
    }
}

/// The white-space-separated tokens of `s` from position `i` on, in order.
pub open spec fn tokens_from(s: Seq<char>, i: int) -> Seq<Seq<char>>
    decreases s.len() - i
        when 0 <= i <= s.len()
        via tokens_from_decreases
{
    if i >= s.len() {
        Seq::empty()
    } else if is_space(s[i]) {
        tokens_from(s, i + 1)
    } else {
        seq![s.subrange(i, tok_end(s, i))] + tokens_from(s, tok_end(s, i))
    }
}

#[via_fn]
proof fn tokens_from_decreases(s: Seq<char>, i: int) {
    if 0 <= i < s.len() && !is_space(s[i]) {
        lemma_tok_end_bounds(s, i + 1);
    }
}

/// The tokens of the first line of the request text.
pub open spec fn request_tokens(s: Seq<char>) -> Seq<Seq<char>> {
    tokens_from(first_line(s), 0)
}

proof fn lemma_eol_at_no_newline(s: Seq<char>, i: int)
    requires
        0 <= i <= s.len(),
        forall|k: int| i <= k < s.len() ==> s[k] != '\n',
    ensures
        eol_at(s, i) == s.len(),
    decreases s.len() - i,
{
    if i < s.len() {
        lemma_eol_at_no_newline(s, i + 1);
    }
}

proof fn lemma_tok_end_run(s: Seq<char>, i: int, j: int)
    requires
        0 <= i <= j <= s.len(),
        forall|k: int| i <= k < j ==> !is_space(#[trigger] s[k]),
        j == s.len() || is_space(s[j]),
    ensures
        tok_end(s, i) == j,
    decreases j - i,
{
    if i < j {
        lemma_tok_end_run(s, i + 1, j);
    }
}

/// For every well-formed request line `"<METHOD> <PATH> <VERSION>"` — three
/// non-empty tokens free of white space, joined by single spaces — the parsed
/// tokens are exactly `METHOD`, `PATH` and `VERSION`, with no transformation.
pub proof fn lemma_parse_request_line_exact(method: Seq<char>, path: Seq<char>, version: Seq<char>)
    requires
        method.len() > 0,
        path.len() > 0,
        version.len() > 0,
        forall|k: int| 0 <= k < method.len() ==> !is_space(#[trigger] method[k]),
        forall|k: int| 0 <= k < path.len() ==> !is_space(#[trigger] path[k]),
        forall|k: int| 0 <= k < version.len() ==> !is_space(#[trigger] version[k]),
    ensures
        ({
            let line = method + seq![' '] + path + seq![' '] + version;
            &&& request_tokens(line) == seq![method, path, version]
            &&& request_tokens(line).len() == 3
        }),
{
    let line = method + seq![' '] + path + seq![' '] + version;
    let m = method.len() as int;
    let p = path.len() as int;
    let v = version.len() as int;
    let n = line.len() as int;
    assert(n == m + 1 + p + 1 + v);

    // '\n' and '\r' are white space, so no token holds them and the single
    // line is the whole text, with nothing to strip.
    assert(forall|k: int| 0 <= k < n ==> #[trigger] line[k] != '\n');
    lemma_eol_at_no_newline(line, 0);
    assert(!is_space(line[n - 1]) && is_space('\r')) by {
        assert(line[n - 1] == version[v - 1]);
    }
    assert(first_line(line) =~= line);

    // The three non-space runs are the three tokens.
    lemma_tok_end_run(line, 0, m);
    lemma_tok_end_run(line, m + 1, m + 1 + p);
    lemma_tok_end_run(line, m + 1 + p + 1, n);
    assert(line.subrange(0, m) =~= method);
    assert(line.subrange(m + 1, m + 1 + p) =~= path);
    assert(line.subrange(m + 1 + p + 1, n) =~= version);
    assert(tokens_from(line, n) =~= Seq::<Seq<char>>::empty());
    assert(tokens_from(line, m + 1 + p) == tokens_from(line, m + 1 + p + 1));
    assert(tokens_from(line, m) == tokens_from(line, m + 1));
    assert(request_tokens(line) =~= seq![method, path, version]);
}

/// Splits the first line of `request` on runs of white space and returns the
/// first token as the method and the second as the path, both verbatim.
///
/// Fails with `EmptyRequest` on empty input and with `MalformedRequestLine`
/// when the first line holds fewer than three tokens; no other validation is
/// performed.
pub fn parse_request(request: &str) -> (r: Result<(String, String), ParseError>)
    ensures
        request@.len() == 0 ==> r == Err::<(String, String), ParseError>(
            ParseError::EmptyRequest,
        ),
        request@.len() > 0 && request_tokens(request@).len() < 3 ==> r == Err::<
            (String, String),
            ParseError,
        >(ParseError::MalformedRequestLine),
        request@.len() > 0 && request_tokens(request@).len() >= 3 ==> (r matches Ok(mp)
            && mp.0@ == request_tokens(request@)[0] && mp.1@ == request_tokens(request@)[1]),
{
    let n = request.unicode_len();
    if n == 0 {
        return Err(ParseError::EmptyRequest);
    }

    // Find the end of the first line.
    let mut i: usize = 0;
    while i < n && request.get_char(i) != '\n'
        invariant
            0 <= i <= n,
            n == request@.len(),
            eol_at(request@, 0) == eol_at(request@, i as int),
        decreases n - i,
    {
        proof {
            assert(eol_at(request@, i as int) == eol_at(request@, i + 1));
        }
        i += 1;
    }
    let line_end = i;
    proof {
        assert(eol_at(request@, 0) == line_end as int);
    }

    // Strip one trailing '\r'.
    let line_len = if line_end > 0 && request.get_char(line_end - 1) == '\r' {
        line_end - 1
    } else {
        line_end
    };
    let ghost line = first_line(request@);
    proof {
        assert(line =~= request@.subrange(0, line_len as int));
        assert(line.len() == line_len as int);
    }

    // Collect the tokens of the line.
    let mut toks: Vec<String> = Vec::new();
    let mut j: usize = 0;
    while j < line_len
        invariant
            0 <= j <= line_len <= n,
            n == request@.len(),
            line == first_line(request@),
            line =~= request@.subrange(0, line_len as int),
            line.len() == line_len as int,
            tokens_from(line, 0) == toks.deep_view() + tokens_from(line, j as int),
        decreases line_len - j,
    {
        let c = request.get_char(j);
        proof {
            assert(line[j as int] == c);
        }
        if is_space_char(c) {
            proof {
                assert(tokens_from(line, j as int) == tokens_from(line, j + 1));
            }
            j += 1;
        } else {
            let start = j;
            j += 1;
            while j < line_len && !is_space_char(request.get_char(j))
                invariant
                    start < j <= line_len <= n,
                    n == request@.len(),
                    line =~= request@.subrange(0, line_len as int),
                    line.len() == line_len as int,
                    tok_end(line, start as int) == tok_end(line, j as int),
                decreases line_len - j,
            {
                proof {
                    assert(line[j as int] == request@[j as int]);
                    assert(tok_end(line, j as int) == tok_end(line, j + 1));
                }
                j += 1;
            }
            proof {
                if j < line_len {
                    assert(line[j as int] == request@[j as int]);
                }
                assert(tok_end(line, j as int) == j as int);
                assert(tok_end(line, start as int) == j as int);
            }
            let t = request.substring_char(start, j);
            let ghost old_dv = toks.deep_view();
            let owned = t.to_owned();
            toks.push(owned);
            proof {
                assert(t@ =~= line.subrange(start as int, j as int));
                assert(tokens_from(line, start as int) == seq![
                    line.subrange(start as int, tok_end(line, start as int)),
                ] + tokens_from(line, tok_end(line, start as int)));
                assert(toks.deep_view() =~= old_dv.push(t@));
                assert(toks.deep_view() + tokens_from(line, j as int) =~= old_dv + (seq![t@]
                    + tokens_from(line, j as int)));
            }
        }
    }
    proof {
        assert(tokens_from(line, line_len as int) == Seq::<Seq<char>>::empty());
        assert(request_tokens(request@) =~= toks.deep_view());
    }

    if toks.len() < 3 {
        return Err(ParseError::MalformedRequestLine);
    }
    let method = toks[0].clone();
    let path = toks[1].clone();
    proof {
        assert(method@ == toks.deep_view()[0]);
        assert(path@ == toks.deep_view()[1]);
    }
    Ok((method, path))
}

} // verus!
