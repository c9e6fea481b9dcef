//! The command-line tokenizer.
//!
//! A command line is split into tokens, left to right. Blank space separates
//! tokens and is otherwise insignificant. A double or single quote mark opens
//! a quoted span that runs to the nearest matching quote mark; the span is one
//! token and keeps both quote marks. A quote mark with no partner later in the
//! line is passed over and yields no token. Every other character belongs to a
//! plain token: a maximal run of characters that are neither blank space nor
//! quote marks. No escaping mechanism exists, so a quote mark can never stand
//! inside a quoted span.

use vstd::prelude::*;

verus! {

/// The characters that count as blank space between tokens: the Unicode
/// white-space set.
pub open spec fn is_space_char(c: char) -> bool {
    ||| c == ' '
    ||| c == '\t'
    ||| c == '\n'
    ||| c == '\r'
    ||| c == '\u{b}'
    ||| c == '\u{c}'
    ||| c == '\u{85}'
    ||| c == '\u{a0}'
    ||| c == '\u{1680}'
    ||| c == '\u{2000}'
    ||| c == '\u{2001}'
    ||| c == '\u{2002}'
    ||| c == '\u{2003}'
    ||| c == '\u{2004}'
    ||| c == '\u{2005}'
    ||| c == '\u{2006}'
    ||| c == '\u{2007}'
    ||| c == '\u{2008}'
    ||| c == '\u{2009}'
    ||| c == '\u{200a}'
    ||| c == '\u{2028}'
    ||| c == '\u{2029}'
    ||| c == '\u{202f}'
    ||| c == '\u{205f}'
    ||| c == '\u{3000}'
}

/// The two quote marks the tokenizer knows.
pub open spec fn is_quote_char(c: char) -> bool {
    c == '"' || c == '\''
}

/// A character of a plain token: neither blank space nor a quote mark.
pub open spec fn is_word_char(c: char) -> bool {
    !is_space_char(c) && !is_quote_char(c)
}

/// Index of the first occurrence of `q` at or after `i`, or `s.len()` when
/// there is none.
pub open spec fn find_from(s: Seq<char>, q: char, i: int) -> int
    decreases s.len() - i when 0 <= i <= s.len()
{
    if i >= s.len() {
        s.len() as int
    } else if s[i] == q {
        i
    } else {
        find_from(s, q, i + 1)
    }
}

/// Where the run of plain-token characters that starts at `i` ends.
pub open spec fn word_end(s: Seq<char>, i: int) -> int
    decreases s.len() - i when 0 <= i <= s.len()
{
    if i >= s.len() {
        s.len() as int
    } else if is_word_char(s[i]) {
        word_end(s, i + 1)
    } else {
        i
    }
}

/// What `find_from` returns: the first occurrence of `q` at or after `i`.
pub proof fn lemma_find_from(s: Seq<char>, q: char, i: int)
    requires
        0 <= i <= s.len(),
    ensures
        i <= find_from(s, q, i) <= s.len(),
        forall|k: int| i <= k < find_from(s, q, i) ==> s[k] != q,
        find_from(s, q, i) < s.len() ==> s[find_from(s, q, i)] == q,
    decreases s.len() - i,
{
    if i < s.len() && s[i] != q {
        lemma_find_from(s, q, i + 1);
    }
}

/// A position with `q`, preceded from `i` on by no `q`, is what `find_from`
/// returns; so is the end of the line when no `q` occurs at all.
pub proof fn lemma_find_from_is(s: Seq<char>, q: char, i: int, j: int)
    requires
        0 <= i <= j <= s.len(),
        forall|k: int| i <= k < j ==> s[k] != q,
        j < s.len() ==> s[j] == q,
    ensures
        find_from(s, q, i) == j,
    decreases j - i,
{
    if i < j {
        lemma_find_from_is(s, q, i + 1, j);
    }
}

/// What `word_end` returns: the end of the run of plain-token characters
/// beginning at `i`.
pub proof fn lemma_word_end(s: Seq<char>, i: int)
    requires
        0 <= i <= s.len(),
    ensures
        i <= word_end(s, i) <= s.len(),
        forall|k: int| i <= k < word_end(s, i) ==> is_word_char(s[k]),
        word_end(s, i) < s.len() ==> !is_word_char(s[word_end(s, i)]),
    decreases s.len() - i,
{
    if i < s.len() && is_word_char(s[i]) {
        lemma_word_end(s, i + 1);
    }
}

/// A boundary after a run of plain-token characters from `i` is what
/// `word_end` returns.
pub proof fn lemma_word_end_is(s: Seq<char>, i: int, j: int)
    requires
        0 <= i <= j <= s.len(),
        forall|k: int| i <= k < j ==> is_word_char(s[k]),
        j < s.len() ==> !is_word_char(s[j]),
    ensures
        word_end(s, i) == j,
    decreases j - i,
{
    if i < j {
        lemma_word_end_is(s, i + 1, j);
    }
}

/// The token list of `s` from position `i` on.
pub open spec fn tokens_from(s: Seq<char>, i: int) -> Seq<Seq<char>>
    decreases s.len() - i when 0 <= i <= s.len() via tokens_from_dec
{
    if i >= s.len() {
        Seq::empty()
    } else if is_space_char(s[i]) {
        tokens_from(s, i + 1)
    } else if is_quote_char(s[i]) {
        let j = find_from(s, s[i], i + 1);
        if j < s.len() {
            seq![s.subrange(i, j + 1)] + tokens_from(s, j + 1)
        } else {
            tokens_from(s, i + 1)
        }
    } else {
        seq![s.subrange(i, word_end(s, i))] + tokens_from(s, word_end(s, i))
    }
}

#[via_fn]
proof fn tokens_from_dec(s: Seq<char>, i: int) {
    if 0 <= i < s.len() {
        if is_quote_char(s[i]) {
            lemma_find_from(s, s[i], i + 1);
        } else if !is_space_char(s[i]) {
            lemma_word_end(s, i);
        }
    }
}

/// The token list of a whole command line.
pub open spec fn spec_tokens(s: Seq<char>) -> Seq<Seq<char>> {
    tokens_from(s, 0)
}

/// The spans between `|` separators, from position `i` on. Every span is
/// kept, however blank, except that a separator at the very end of the line
/// contributes no final empty span.
pub open spec fn segments_from(s: Seq<char>, i: int) -> Seq<Seq<char>>
    decreases s.len() - i when 0 <= i <= s.len() via segments_from_dec
{
    if i >= s.len() {
        Seq::empty()
    } else {
        let j = find_from(s, '|', i);
        if j < s.len() {
            seq![s.subrange(i, j)] + segments_from(s, j + 1)
        } else {
            seq![s.subrange(i, s.len() as int)]
        }
    }
}

#[via_fn]
proof fn segments_from_dec(s: Seq<char>, i: int) {
    if 0 <= i < s.len() {
        lemma_find_from(s, '|', i);
    }
}

/// The spans of a whole pipeline line, one per command.
pub open spec fn spec_segments(s: Seq<char>) -> Seq<Seq<char>> {
    segments_from(s, 0)
}

/// Every token the tokenizer yields holds at least one character.
pub proof fn lemma_tokens_from_nonempty(s: Seq<char>, i: int)
    requires
        0 <= i <= s.len(),
    ensures
        forall|k: int|
            0 <= k < tokens_from(s, i).len() ==> #[trigger] tokens_from(s, i)[k].len() > 0,
    decreases s.len() - i,
{
    if i < s.len() {
        if is_space_char(s[i]) {
            lemma_tokens_from_nonempty(s, i + 1);
            assert(tokens_from(s, i) == tokens_from(s, i + 1));
            assert(forall|k: int|
                0 <= k < tokens_from(s, i).len() ==> #[trigger] tokens_from(s, i)[k].len() > 0);
        } else if is_quote_char(s[i]) {
            lemma_find_from(s, s[i], i + 1);
            let j = find_from(s, s[i], i + 1);
            if j < s.len() {
                lemma_tokens_from_nonempty(s, j + 1);
                assert forall|k: int|
                    0 <= k < tokens_from(s, i).len() implies #[trigger] tokens_from(s, i)[k].len()
                    > 0 by {
                    if k == 0 {
                        assert(tokens_from(s, i)[0] == s.subrange(i, j + 1));
                    } else {
                        assert(tokens_from(s, i)[k] == tokens_from(s, j + 1)[k - 1]);
                    }
                }
            } else {
                lemma_tokens_from_nonempty(s, i + 1);
            }
        } else {
            lemma_word_end(s, i);
            let e = word_end(s, i);
            lemma_tokens_from_nonempty(s, e);
            assert forall|k: int|
                0 <= k < tokens_from(s, i).len() implies #[trigger] tokens_from(s, i)[k].len()
                > 0 by {
                if k == 0 {
                    assert(tokens_from(s, i)[0] == s.subrange(i, e));
                } else {
                    assert(tokens_from(s, i)[k] == tokens_from(s, e)[k - 1]);
                }
            }
        }
    }
    assert(forall|k: int|
        0 <= k < tokens_from(s, i).len() ==> #[trigger] tokens_from(s, i)[k].len() > 0);
}

/// A command line of blank space alone yields no token at all.
pub proof fn lemma_blank_line_yields_no_tokens(s: Seq<char>)
    requires
        forall|k: int| 0 <= k < s.len() ==> is_space_char(s[k]),
    ensures
        spec_tokens(s).len() == 0,
{
    lemma_blank_from(s, 0);
}

proof fn lemma_blank_from(s: Seq<char>, i: int)
    requires
        0 <= i <= s.len(),
        forall|k: int| 0 <= k < s.len() ==> is_space_char(s[k]),
    ensures
        tokens_from(s, i).len() == 0,
    decreases s.len() - i,
{
    if i < s.len() {
        lemma_blank_from(s, i + 1);
    }
}

/// Decides `is_space_char`.
pub fn is_space(c: char) -> (r: bool)
    ensures
        r == is_space_char(c),
{
    match c {
        ' ' | '\t' | '\n' | '\r' | '\u{b}' | '\u{c}' | '\u{85}' | '\u{a0}' | '\u{1680}'
            | '\u{2000}' | '\u{2001}' | '\u{2002}' | '\u{2003}' | '\u{2004}' | '\u{2005}'
            | '\u{2006}' | '\u{2007}' | '\u{2008}' | '\u{2009}' | '\u{200a}' | '\u{2028}'
            | '\u{2029}' | '\u{202f}' | '\u{205f}' | '\u{3000}' => true,
        _ => false,
    }
}

/// Decides `is_word_char`.
pub fn is_word(c: char) -> (r: bool)
    ensures
        r == is_word_char(c),
{
    !is_space(c) && c != '"' && c != '\''
}

/// Splits a command line into its tokens, in order.
pub fn tokenize(s: &str) -> (r: Vec<String>)
    ensures
        r.deep_view() == spec_tokens(s@),
{
    let n = s.unicode_len();
    let mut toks: Vec<String> = Vec::new();
    let mut i: usize = 0;
    while i < n
        invariant
            n == s@.len(),
            i <= n,
            spec_tokens(s@) == toks.deep_view() + tokens_from(s@, i as int),
        decreases n - i,
    {
        let ghost prior = toks.deep_view();
        let c = s.get_char(i);
        if is_space(c) {
            i = i + 1;
        } else if c == '"' || c == '\'' {
            let mut j = i + 1;
            while j < n && s.get_char(j) != c
                invariant
                    n == s@.len(),
                    i + 1 <= j <= n,
                    forall|k: int| i + 1 <= k < j ==> s@[k] != c,
                decreases n - j,
            {
                j = j + 1;
            }
            proof {
                lemma_find_from_is(s@, c, i + 1, j as int);
            }
            if j < n {
                let tok = s.substring_char(i, j + 1).to_owned();
                toks.push(tok);
                proof {
                    assert(toks.deep_view() =~~= prior.push(s@.subrange(i as int, j + 1)));
                    assert(prior + tokens_from(s@, i as int) =~~= toks.deep_view()
                        + tokens_from(s@, j + 1));
                }
                i = j + 1;
            } else {
                i = i + 1;
            }
        } else {
            let mut j = i + 1;
            while j < n && is_word(s.get_char(j))
                invariant
                    n == s@.len(),
                    i + 1 <= j <= n,
                    forall|k: int| i + 1 <= k < j ==> is_word_char(s@[k]),
                    is_word_char(s@[i as int]),
                decreases n - j,
            {
                j = j + 1;
            }
            proof {
                lemma_word_end_is(s@, i as int, j as int);
            }
            let tok = s.substring_char(i, j).to_owned();
            toks.push(tok);
            proof {
                assert(toks.deep_view() =~~= prior.push(s@.subrange(i as int, j as int)));
                assert(prior + tokens_from(s@, i as int) =~~= toks.deep_view()
                    + tokens_from(s@, j as int));
            }
            i = j;
        }
    }
    proof {
        assert(toks.deep_view() + tokens_from(s@, n as int) =~~= toks.deep_view());
    }
    toks
}

} // verus!
