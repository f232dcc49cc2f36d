//! Rich-text markup in card and interface texts: `[tag]...[/tag]` styles and
//! `[energy:N]` / `[star:N]` icons.
use vstd::prelude::*;

use crate::text::{chars_start_with, push_char, str_chars};

verus! {

/// The index of the first `]` from `k` on; the length when there is none.
pub open spec fn close_from(s: Seq<char>, k: int) -> int
    decreases s.len() - k,
{
    if k >= s.len() || k < 0 {
        s.len() as int
    } else if s[k] == ']' {
        k
    } else {
        close_from(s, k + 1)
    }
}

/// What a tag leaves in plain text: `E` for an energy icon, `S` for a star
/// icon, nothing for a style.
pub open spec fn icon_text(tag: Seq<char>) -> Seq<char> {
    if tag.len() >= 7 && tag.subrange(0, 7) == "energy:"@ {
        seq!['E']
    } else if tag.len() >= 5 && tag.subrange(0, 5) == "star:"@ {
        seq!['S']
    } else {
        Seq::empty()
    }
}

/// The plain text of `s` from position `i`: each `[...]` tag (running to the
/// next `]`, or to the end) replaced by what it leaves, other characters kept.
pub open spec fn plain_from(s: Seq<char>, i: int) -> Seq<char>
    decreases s.len() - i,
{
    if i >= s.len() || i < 0 {
        Seq::empty()
    } else if s[i] == '[' {
        let j = close_from(s, i + 1);
        proof {
            lemma_close_from_bounds(s, i + 1);
        }
        if j < s.len() {
            icon_text(s.subrange(i + 1, j)) + plain_from(s, j + 1)
        } else {
            icon_text(s.subrange(i + 1, j))
        }
    } else {
        seq![s[i]] + plain_from(s, i + 1)
    }
}

pub proof fn lemma_close_from_bounds(s: Seq<char>, k: int)
    requires
        0 <= k,
    ensures
        k <= close_from(s, k) || (k > s.len() && close_from(s, k) == s.len()),
        close_from(s, k) <= s.len(),
        close_from(s, k) < s.len() ==> s[close_from(s, k)] == ']',
    decreases s.len() - k,
{
    if k < s.len() && s[k] != ']' {
        lemma_close_from_bounds(s, k + 1);
    }
}

/// The text with its markup taken out.
pub fn strip_rich_text(input: &str) -> (r: String)
    ensures
        r@ == plain_from(input@, 0),
{
    let chars = str_chars(input);
    let n = chars.len();
    let mut out = String::new();
    let mut i: usize = 0;
    while i < n
        invariant
            n == chars@.len(),
            chars@ == input@,
            i <= n,
            out@ + plain_from(chars@, i as int) == plain_from(chars@, 0),
        decreases n - i,
    {
        let c = chars[i];
        let ghost before = out@;
        if c == '[' {
            let mut tag: Vec<char> = Vec::new();
            let mut k: usize = i + 1;
            while k < n && chars[k] != ']'
                invariant
                    n == chars@.len(),
                    i < n,
                    i + 1 <= k <= n,
                    tag@ == chars@.subrange(i + 1, k as int),
                    close_from(chars@, (i + 1) as int) == close_from(chars@, k as int),
                decreases n - k,
            {
                tag.push(chars[k]);
                proof {
                    assert(tag@ =~= chars@.subrange(i + 1, (k + 1) as int));
                }
                k = k + 1;
            }
            proof {
                assert(close_from(chars@, k as int) == k);
            }
            if chars_start_with(&tag, "energy:") {
                push_char(&mut out, 'E');
            } else if chars_start_with(&tag, "star:") {
                push_char(&mut out, 'S');
            }
            proof {
                reveal_strlit("energy:");
                reveal_strlit("star:");
                lemma_close_from_bounds(chars@, (i + 1) as int);
                if k < n {
                    assert(out@ + plain_from(chars@, (k + 1) as int) =~= before + plain_from(chars@, i as int));
                } else {
                    assert(out@ + plain_from(chars@, n as int) =~= before + plain_from(chars@, i as int));
                }
            }
            i = if k < n { k + 1 } else { n };
        } else {
            push_char(&mut out, c);
            proof {
                assert(out@ + plain_from(chars@, (i + 1) as int) =~= before + plain_from(chars@, i as int));
            }
            i = i + 1;
        }
    }
    proof {
        assert(out@ =~= plain_from(chars@, 0));
    }
    out
}

/// Text without `[` is its own plain text.
pub proof fn lemma_plain_of_plain(s: Seq<char>, i: int)
    requires
        0 <= i,
        forall|k: int| 0 <= k < s.len() ==> s[k] != '[',
    ensures
        plain_from(s, i) == (if i < s.len() { s.subrange(i, s.len() as int) } else { Seq::<char>::empty() }),
    decreases s.len() - i,
{
    if i < s.len() {
        lemma_plain_of_plain(s, i + 1);
        assert(plain_from(s, i) =~= s.subrange(i, s.len() as int));
    }
}

/// Plain text holds no `[`.
pub proof fn lemma_plain_has_no_brackets(s: Seq<char>, i: int)
    requires
        0 <= i,
    ensures
        forall|k: int| 0 <= k < plain_from(s, i).len() ==> plain_from(s, i)[k] != '[',
    decreases s.len() - i,
{
    if i < s.len() {
        if s[i] == '[' {
            let j = close_from(s, i + 1);
            lemma_close_from_bounds(s, i + 1);
            if j < s.len() {
                lemma_plain_has_no_brackets(s, j + 1);
            }
            let a = icon_text(s.subrange(i + 1, j));
            let b = if j < s.len() { plain_from(s, j + 1) } else { Seq::<char>::empty() };
            assert(plain_from(s, i) == a + b);
            assert forall|k: int| 0 <= k < (a + b).len() implies (a + b)[k] != '[' by {
                if k >= a.len() {
                    assert((a + b)[k] == b[k - a.len()]);
                }
            }
        } else {
            lemma_plain_has_no_brackets(s, i + 1);
            let b = plain_from(s, i + 1);
            assert(plain_from(s, i) == seq![s[i]] + b);
            assert forall|k: int| 0 <= k < (seq![s[i]] + b).len() implies (seq![s[i]] + b)[k] != '[' by {
                if k >= 1 {
                    assert((seq![s[i]] + b)[k] == b[k - 1]);
                }
            }
        }
    }
}

/// Stripping markup twice is stripping it once.
pub proof fn lemma_strip_idempotent(s: Seq<char>)
    ensures
        plain_from(plain_from(s, 0), 0) == plain_from(s, 0),
{
    let p = plain_from(s, 0);
    lemma_plain_has_no_brackets(s, 0);
    lemma_plain_of_plain(p, 0);
    assert(p.subrange(0, p.len() as int) =~= p);
}

/// What `strip_rich_text` returns holds no `[`, stripping it again changes
/// nothing, and text without `[` is returned as it is.
pub proof fn lemma_strip_rich_text_laws(s: Seq<char>)
    ensures
        forall|k: int| 0 <= k < plain_from(s, 0).len() ==> plain_from(s, 0)[k] != '[',
        plain_from(plain_from(s, 0), 0) == plain_from(s, 0),
        (forall|k: int| 0 <= k < s.len() ==> s[k] != '[') ==> plain_from(s, 0) == s,
{
    lemma_plain_has_no_brackets(s, 0);
    lemma_strip_idempotent(s);
    if forall|k: int| 0 <= k < s.len() ==> s[k] != '[' {
        lemma_plain_of_plain(s, 0);
        assert(s.subrange(0, s.len() as int) =~= s);
    }
}

} // verus!
