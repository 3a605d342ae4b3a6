//! The tokenizer: one raw input line becomes a chain of command
//! segments, each segment an ordered list of string tokens.
//!
//! The scan runs left to right with one character of lookahead and a
//! quote-mode flag:
//!   - a backslash immediately followed by a single quote appends a
//!     literal quote to the current token and consumes both characters;
//!   - an unescaped single quote toggles quote mode and is never itself
//!     part of any token;
//!   - outside quote mode, a pipe closes the current segment and starts
//!     a new one (quote mode is not reset: the chain is one continuous
//!     scan of one line);
//!   - outside quote mode, whitespace closes the current token; runs of
//!     whitespace produce nothing;
//!   - every other character (and any character inside quote mode) is
//!     appended to the current token verbatim.
//!
//! A segment is closed by appending the pending token, except that a
//! pending empty token is appended only to an otherwise empty segment:
//! that single empty token is the placeholder by which a blank line or
//! a blank pipeline stage is recognised downstream. Consequences:
//! trailing whitespace never yields a trailing empty token, a line of
//! only whitespace yields exactly one segment holding one empty token,
//! and an unterminated quote silently closes at end of input.

use vstd::prelude::*;
use vstd::string::StrSliceExecFns;

verus! {

/// Whitespace for the purposes of the scan: space and the usual ASCII
/// control whitespace (tab, line feed, vertical tab, form feed,
/// carriage return).
pub open spec fn is_space(c: char) -> bool {
    c == ' ' || c == '\t' || c == '\n' || c == '\u{b}' || c == '\u{c}' || c == '\r'
}

/// Executable twin of [`is_space`].
pub fn space_char(c: char) -> (r: bool)
    ensures
        r == is_space(c),
{
    c == ' ' || c == '\t' || c == '\n' || c == '\u{b}' || c == '\u{c}' || c == '\r'
}

/// Close a segment: append the pending token, unless it is empty and
/// the segment already holds a token.
pub open spec fn close_segment(seg: Seq<Seq<char>>, tok: Seq<char>) -> Seq<Seq<char>> {
    if tok.len() > 0 || seg.len() == 0 {
        seg.push(tok)
    } else {
        seg
    }
}

/// The scan itself, over the remaining input `s`, with quote mode `q`,
/// the token and segment under construction, and the segments already
/// closed. Returns the finished chain.
pub open spec fn scan(
    s: Seq<char>,
    q: bool,
    tok: Seq<char>,
    seg: Seq<Seq<char>>,
    chain: Seq<Seq<Seq<char>>>,
) -> Seq<Seq<Seq<char>>>
    decreases s.len(),
{
    if s.len() == 0 {
        chain.push(close_segment(seg, tok))
    } else if s.len() >= 2 && s[0] == '\\' && s[1] == '\'' {
        scan(s.skip(2), q, tok.push('\''), seg, chain)
    } else if s[0] == '\'' {
        scan(s.skip(1), !q, tok, seg, chain)
    } else if !q && s[0] == '|' {
        scan(s.skip(1), q, Seq::empty(), Seq::empty(), chain.push(close_segment(seg, tok)))
    } else if !q && is_space(s[0]) {
        scan(
            s.skip(1),
            q,
            Seq::empty(),
            if tok.len() > 0 {
                seg.push(tok)
            } else {
                seg
            },
            chain,
        )
    } else {
        scan(s.skip(1), q, tok.push(s[0]), seg, chain)
    }
}

/// What [`tokenize`] returns, as a function of the characters of the
/// line: the scan started with quote mode off and everything empty.
pub open spec fn spec_tokenize(s: Seq<char>) -> Seq<Seq<Seq<char>>> {
    scan(s, false, Seq::empty(), Seq::empty(), Seq::empty())
}

/// Relies on `String::push`: appends exactly one character at the end.
#[verifier::external_body]
fn push_char(s: &mut String, c: char)
    ensures
        final(s)@ == old(s)@.push(c),
{
    s.push(c)
}

/// Split one raw input line into a chain of segments. Never fails:
/// malformed quoting merely leaves quote mode on until end of input.
pub fn tokenize(line: &str) -> (chain: Vec<Vec<String>>)
    ensures
        chain.deep_view() == spec_tokenize(line@),
{
    let n = line.unicode_len();
    let mut i: usize = 0;
    let mut quote = false;
    let mut tok = String::new();
    let mut seg: Vec<String> = Vec::new();
    let mut chain: Vec<Vec<String>> = Vec::new();

    proof {
        assert(line@.skip(0) =~= line@);
        assert(seg.deep_view() =~= Seq::<Seq<char>>::empty());
        assert(chain.deep_view() =~= Seq::<Seq<Seq<char>>>::empty());
    }
    while i < n
        invariant
            i <= n,
            n == line@.len(),
            scan(line@.skip(i as int), quote, tok@, seg.deep_view(), chain.deep_view())
                == spec_tokenize(line@),
        decreases n - i,
    {
        let ghost s_i = line@.skip(i as int);
        let ghost old_tok = tok@;
        let ghost old_seg = seg.deep_view();
        let ghost old_chain = chain.deep_view();
        let ghost old_quote = quote;
        proof {
            lemma_skip_step(line@, i as int);
        }
        let c = line.get_char(i);
        if c == '\\' && i + 1 < n && line.get_char(i + 1) == '\'' {
            proof {
                lemma_skip_two(line@, i as int);
            }
            push_char(&mut tok, '\'');
            i = i + 2;
            assert(scan(line@.skip(i as int), quote, tok@, seg.deep_view(), chain.deep_view())
                == scan(s_i, old_quote, old_tok, old_seg, old_chain));
        } else if c == '\'' {
            quote = !quote;
            i = i + 1;
            assert(scan(line@.skip(i as int), quote, tok@, seg.deep_view(), chain.deep_view())
                == scan(s_i, old_quote, old_tok, old_seg, old_chain));
        } else if !quote && c == '|' {
            if !tok.as_str().is_empty() || seg.is_empty() {
                let done = tok;
                tok = String::new();
                seg.push(done);
                assert(seg.deep_view() =~= old_seg.push(old_tok));
            }
            assert(seg.deep_view() =~= close_segment(old_seg, old_tok));
            let closed = seg;
            seg = Vec::new();
            chain.push(closed);
            assert(chain.deep_view() =~= old_chain.push(close_segment(old_seg, old_tok)));
            assert(seg.deep_view() =~= Seq::<Seq<char>>::empty());
            tok = String::new();
            i = i + 1;
            assert(scan(line@.skip(i as int), quote, tok@, seg.deep_view(), chain.deep_view())
                == scan(s_i, old_quote, old_tok, old_seg, old_chain));
        } else if !quote && space_char(c) {
            if !tok.as_str().is_empty() {
                let done = tok;
                tok = String::new();
                seg.push(done);
                assert(seg.deep_view() =~= old_seg.push(old_tok));
            }
            assert(tok@ =~= Seq::<char>::empty());
            i = i + 1;
            assert(scan(line@.skip(i as int), quote, tok@, seg.deep_view(), chain.deep_view())
                == scan(s_i, old_quote, old_tok, old_seg, old_chain));
        } else {
            push_char(&mut tok, c);
            i = i + 1;
            assert(scan(line@.skip(i as int), quote, tok@, seg.deep_view(), chain.deep_view())
                == scan(s_i, old_quote, old_tok, old_seg, old_chain));
        }
    }
    proof {
        assert(line@.skip(i as int) =~= Seq::<char>::empty());
    }
    let ghost old_tok = tok@;
    let ghost old_seg = seg.deep_view();
    let ghost old_chain = chain.deep_view();
    if !tok.as_str().is_empty() || seg.is_empty() {
        seg.push(tok);
        assert(seg.deep_view() =~= old_seg.push(old_tok));
    }
    assert(seg.deep_view() =~= close_segment(old_seg, old_tok));
    chain.push(seg);
    assert(chain.deep_view() =~= old_chain.push(close_segment(old_seg, old_tok)));
    chain
}

/// Plain whitespace splitting, with no pipes or quotes involved: the
/// fields of `s` separated by whitespace runs, continuing from a
/// pending token `tok` and the tokens `seg` already closed.
pub open spec fn space_fields(s: Seq<char>, tok: Seq<char>, seg: Seq<Seq<char>>) -> Seq<Seq<char>>
    decreases s.len(),
{
    if s.len() == 0 {
        close_segment(seg, tok)
    } else if is_space(s[0]) {
        space_fields(
            s.skip(1),
            Seq::empty(),
            if tok.len() > 0 {
                seg.push(tok)
            } else {
                seg
            },
        )
    } else {
        space_fields(s.skip(1), tok.push(s[0]), seg)
    }
}

/// On input without pipes or quotes the scan never closes a segment
/// early and never toggles quote mode: it splits on whitespace alone.
proof fn lemma_scan_plain(
    s: Seq<char>,
    tok: Seq<char>,
    seg: Seq<Seq<char>>,
    chain: Seq<Seq<Seq<char>>>,
)
    requires
        forall|k: int| 0 <= k < s.len() ==> s[k] != '|' && s[k] != '\'',
    ensures
        scan(s, false, tok, seg, chain) == chain.push(space_fields(s, tok, seg)),
    decreases s.len(),
{
    if s.len() > 0 {
        assert(s[0] != '\'' && s[0] != '|');
        if s.len() >= 2 {
            assert(s[1] != '\'');
        }
        assert forall|k: int| 0 <= k < s.skip(1).len() implies s.skip(1)[k] != '|' && s.skip(1)[k]
            != '\'' by {
            assert(s.skip(1)[k] == s[k + 1]);
        }
        if is_space(s[0]) {
            lemma_scan_plain(
                s.skip(1),
                Seq::empty(),
                if tok.len() > 0 {
                    seg.push(tok)
                } else {
                    seg
                },
                chain,
            );
        } else {
            lemma_scan_plain(s.skip(1), tok.push(s[0]), seg, chain);
        }
    }
}

/// Law: a line that holds no pipe and no quote character tokenizes to
/// exactly one segment, its whitespace-separated fields.
pub proof fn lemma_tokenize_splits_on_whitespace(s: Seq<char>)
    requires
        forall|k: int| 0 <= k < s.len() ==> s[k] != '|' && s[k] != '\'',
    ensures
        spec_tokenize(s).len() == 1,
        spec_tokenize(s)[0] == space_fields(s, Seq::empty(), Seq::empty()),
{
    lemma_scan_plain(s, Seq::empty(), Seq::empty(), Seq::empty());
}

/// The scan only ever appends closed segments, and a closed segment
/// holds at least one token.
proof fn lemma_scan_shape(
    s: Seq<char>,
    q: bool,
    tok: Seq<char>,
    seg: Seq<Seq<char>>,
    chain: Seq<Seq<Seq<char>>>,
)
    requires
        forall|j: int| 0 <= j < chain.len() ==> #[trigger] chain[j].len() >= 1,
    ensures
        scan(s, q, tok, seg, chain).len() >= chain.len() + 1,
        forall|j: int|
            0 <= j < scan(s, q, tok, seg, chain).len() ==> #[trigger] scan(s, q, tok, seg, chain)[j].len() >= 1,
    decreases s.len(),
{
    if s.len() == 0 {
    } else if s.len() >= 2 && s[0] == '\\' && s[1] == '\'' {
        lemma_scan_shape(s.skip(2), q, tok.push('\''), seg, chain);
    } else if s[0] == '\'' {
        lemma_scan_shape(s.skip(1), !q, tok, seg, chain);
    } else if !q && s[0] == '|' {
        lemma_scan_shape(
            s.skip(1),
            q,
            Seq::empty(),
            Seq::empty(),
            chain.push(close_segment(seg, tok)),
        );
    } else if !q && is_space(s[0]) {
        lemma_scan_shape(
            s.skip(1),
            q,
            Seq::empty(),
            if tok.len() > 0 {
                seg.push(tok)
            } else {
                seg
            },
            chain,
        );
    } else {
        lemma_scan_shape(s.skip(1), q, tok.push(s[0]), seg, chain);
    }
}

/// Law: tokenization always yields at least one segment, and every
/// segment holds at least one token — a blank stage holds exactly the
/// one empty placeholder token, so no segment ever reaches the executor
/// without a first token to resolve.
pub proof fn lemma_tokenize_chain_shape(s: Seq<char>)
    ensures
        spec_tokenize(s).len() >= 1,
        forall|j: int|
            0 <= j < spec_tokenize(s).len() ==> #[trigger] spec_tokenize(s)[j].len() >= 1,
{
    lemma_scan_shape(s, false, Seq::empty(), Seq::empty(), Seq::empty());
}

/// Dropping one more character commutes with dropping one from the rest.
proof fn lemma_skip_step(s: Seq<char>, i: int)
    requires
        0 <= i < s.len(),
    ensures
        s.skip(i).len() == s.len() - i,
        s.skip(i)[0] == s[i],
        s.skip(i).skip(1) =~= s.skip(i + 1),
{
}

/// Same for two characters at once.
proof fn lemma_skip_two(s: Seq<char>, i: int)
    requires
        0 <= i,
        i + 1 < s.len(),
    ensures
        s.skip(i)[1] == s[i + 1],
        s.skip(i).skip(2) =~= s.skip(i + 2),
{
}

} // verus!
