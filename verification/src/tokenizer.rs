//! Splitting raw mount-option strings into discrete tokens.
//!
//! A raw option string may carry a key/value pair separated by whitespace,
//! such as `"uid 1000"`. Each raw string is split at its first whitespace run
//! only: the text before the run and the text after it become one token each,
//! and a string without whitespace passes through unchanged as a single
//! token. The tokens of all raw strings are emitted in input order.

use vstd::prelude::*;
use vstd::string::StrSliceExecFns;

verus! {

/// The whitespace characters at which a raw option string is split.
pub open spec fn is_wspace(c: char) -> bool {
    c == ' ' || c == '\t' || c == '\n' || c == '\r' || c == '\u{b}' || c == '\u{c}'
}

/// A sequence of characters entirely free of whitespace.
pub open spec fn ws_free(s: Seq<char>) -> bool {
    forall|i: int| 0 <= i < s.len() ==> !is_wspace(s[i])
}

/// Index of the first whitespace character at or after `i`; `s.len()` if
/// there is none.
pub open spec fn first_ws(s: Seq<char>, i: int) -> int
    decreases s.len() - i,
{
    if i < 0 || i >= s.len() {
        s.len() as int
    } else if is_wspace(s[i]) {
        i
    } else {
        first_ws(s, i + 1)
    }
}

/// Index of the first non-whitespace character at or after `i`; `s.len()` if
/// there is none.
pub open spec fn ws_run_end(s: Seq<char>, i: int) -> int
    decreases s.len() - i,
{
    if i < 0 || i >= s.len() {
        s.len() as int
    } else if !is_wspace(s[i]) {
        i
    } else {
        ws_run_end(s, i + 1)
    }
}

/// The tokens produced from one raw option string: the string itself when it
/// holds no whitespace, otherwise the text before its first whitespace run
/// and the whole remainder after that run.
pub open spec fn tokenize_opt(s: Seq<char>) -> Seq<Seq<char>> {
    let i = first_ws(s, 0);
    if i == s.len() {
        seq![s]
    } else {
        seq![s.subrange(0, i), s.subrange(ws_run_end(s, i), s.len() as int)]
    }
}

/// The tokens of a whole list of raw option strings, in input order.
pub open spec fn tokenize_list(l: Seq<Seq<char>>) -> Seq<Seq<char>>
    decreases l.len(),
{
    if l.len() == 0 {
        Seq::empty()
    } else {
        tokenize_opt(l[0]) + tokenize_list(l.skip(1))
    }
}

proof fn lemma_first_ws_is(s: Seq<char>, i: int, j: int)
    requires
        0 <= i <= j <= s.len(),
        forall|k: int| i <= k < j ==> !is_wspace(s[k]),
        j < s.len() ==> is_wspace(s[j]),
    ensures
        first_ws(s, i) == j,
    decreases j - i,
{
    if i < j {
        lemma_first_ws_is(s, i + 1, j);
    }
}

proof fn lemma_ws_run_end_is(s: Seq<char>, i: int, j: int)
    requires
        0 <= i <= j <= s.len(),
        forall|k: int| i <= k < j ==> is_wspace(s[k]),
        j < s.len() ==> !is_wspace(s[j]),
    ensures
        ws_run_end(s, i) == j,
    decreases j - i,
{
    if i < j {
        lemma_ws_run_end_is(s, i + 1, j);
    }
}

/// Law: a non-empty raw option string without whitespace yields exactly one
/// token, identical to the input.
pub proof fn lemma_tokenize_single(s: Seq<char>)
    requires
        s.len() > 0,
        ws_free(s),
    ensures
        tokenize_opt(s) == seq![s],
{
    lemma_first_ws_is(s, 0, s.len() as int);
}

/// Law: a raw option string made of a non-empty whitespace-free key, one
/// whitespace run, and a value that does not begin with whitespace yields
/// exactly the two tokens key and value, in that order.
pub proof fn lemma_tokenize_key_value(a: Seq<char>, w: Seq<char>, b: Seq<char>)
    requires
        a.len() > 0,
        ws_free(a),
        w.len() > 0,
        forall|i: int| 0 <= i < w.len() ==> is_wspace(w[i]),
        b.len() > 0,
        !is_wspace(b[0]),
    ensures
        tokenize_opt(a + w + b) == seq![a, b],
{
    let s = a + w + b;
    let alen = a.len() as int;
    let j = alen + w.len() as int;
    assert forall|k: int| 0 <= k < alen implies !is_wspace(s[k]) by {
        assert(s[k] == a[k]);
    }
    assert(s[alen] == w[0]);
    lemma_first_ws_is(s, 0, alen);
    assert forall|k: int| alen <= k < j implies is_wspace(s[k]) by {
        assert(s[k] == w[k - alen]);
    }
    assert(s[j] == b[0]);
    lemma_ws_run_end_is(s, alen, j);
    assert(s.subrange(0, alen) =~= a);
    assert(s.subrange(j, s.len() as int) =~= b);
}

/// Law: tokenizing an empty list of raw option strings yields no tokens.
pub proof fn lemma_tokenize_nothing()
    ensures
        tokenize_list(Seq::<Seq<char>>::empty()) == Seq::<Seq<char>>::empty(),
{
}

proof fn lemma_tokenize_list_snoc(l: Seq<Seq<char>>, x: Seq<char>)
    ensures
        tokenize_list(l.push(x)) == tokenize_list(l) + tokenize_opt(x),
    decreases l.len(),
{
    let lp = l.push(x);
    assert(lp.len() == l.len() + 1);
    assert(tokenize_list(lp) == tokenize_opt(lp[0]) + tokenize_list(lp.skip(1)));
    if l.len() == 0 {
        assert(lp.skip(1) =~= Seq::<Seq<char>>::empty());
        assert(lp[0] == x);
        assert(tokenize_list(Seq::<Seq<char>>::empty()) == Seq::<Seq<char>>::empty());
        assert(tokenize_opt(x) + Seq::<Seq<char>>::empty() =~= tokenize_opt(x));
        assert(tokenize_list(l) + tokenize_opt(x) =~= tokenize_opt(x));
    } else {
        lemma_tokenize_list_snoc(l.skip(1), x);
        assert(lp.skip(1) =~= l.skip(1).push(x));
        assert(lp[0] == l[0]);
        assert(tokenize_list(l) == tokenize_opt(l[0]) + tokenize_list(l.skip(1)));
        assert((tokenize_opt(l[0]) + tokenize_list(l.skip(1))) + tokenize_opt(x) =~= tokenize_opt(
            l[0],
        ) + (tokenize_list(l.skip(1)) + tokenize_opt(x)));
    }
}

/// Whether `c` is one of the whitespace characters the tokenizer splits at.
fn is_ws_char(c: char) -> (r: bool)
    ensures
        r == is_wspace(c),
{
    c == ' ' || c == '\t' || c == '\n' || c == '\r' || c == '\u{b}' || c == '\u{c}'
}

/// Split one raw option string at its first whitespace run.
fn split_fuse_opt(s: &str) -> (toks: Vec<String>)
    ensures
        toks.deep_view() == tokenize_opt(s@),
{
    let n = s.unicode_len();
    let mut i: usize = 0;
    while i < n && !is_ws_char(s.get_char(i))
        invariant
            n == s@.len(),
            0 <= i <= n,
            forall|k: int| 0 <= k < i ==> !is_wspace(s@[k]),
        decreases n - i,
    {
        i = i + 1;
    }
    proof {
        lemma_first_ws_is(s@, 0, i as int);
    }
    let mut toks: Vec<String> = Vec::new();
    if i == n {
        toks.push(s.to_owned());
        proof {
            assert(toks.deep_view() =~= seq![s@]);
        }
    } else {
        let mut j: usize = i;
        while j < n && is_ws_char(s.get_char(j))
            invariant
                n == s@.len(),
                0 <= i <= j <= n,
                forall|k: int| i <= k < j ==> is_wspace(s@[k]),
            decreases n - j,
        {
            j = j + 1;
        }
        proof {
            lemma_ws_run_end_is(s@, i as int, j as int);
        }
        let head = s.substring_char(0, i);
        let tail = s.substring_char(j, n);
        toks.push(head.to_owned());
        toks.push(tail.to_owned());
        proof {
            assert(toks.deep_view() =~= seq![
                s@.subrange(0, i as int),
                s@.subrange(j as int, n as int),
            ]);
        }
    }
    toks
}

/// Turn the raw `--fuseopt` strings into the flat token list handed to the
/// mount facility: each raw string contributes its tokens, in input order.
pub fn parse_fuse_args(fuseopts: &Vec<String>) -> (opts: Vec<String>)
    ensures
        opts.deep_view() == tokenize_list(fuseopts.deep_view()),
{
    let mut opts: Vec<String> = Vec::new();
    proof {
        assert(opts.deep_view() =~= tokenize_list(fuseopts.deep_view().take(0)));
    }
    let mut idx: usize = 0;
    while idx < fuseopts.len()
        invariant
            0 <= idx <= fuseopts@.len(),
            opts.deep_view() == tokenize_list(fuseopts.deep_view().take(idx as int)),
        decreases fuseopts@.len() - idx,
    {
        let mut toks = split_fuse_opt(fuseopts[idx].as_str());
        let ghost prev = opts.deep_view();
        let ghost new_toks = toks.deep_view();
        opts.append(&mut toks);
        proof {
            assert(opts.deep_view() =~= prev + new_toks);
            lemma_tokenize_list_snoc(
                fuseopts.deep_view().take(idx as int),
                fuseopts.deep_view()[idx as int],
            );
            assert(fuseopts.deep_view().take(idx as int + 1) =~= fuseopts.deep_view().take(
                idx as int,
            ).push(fuseopts.deep_view()[idx as int]));
        }
        idx = idx + 1;
    }
    proof {
        assert(fuseopts.deep_view().take(fuseopts.deep_view().len() as int)
            =~= fuseopts.deep_view());
    }
    opts
}

} // verus!

