//! String building blocks shared by the text-producing parts of the library.
use vstd::prelude::*;
use vstd::string::*;

verus! {

/// ASCII lower-casing of one character; other characters are kept.
pub open spec fn spec_ascii_lower(c: char) -> char {
    if 'A' <= c && c <= 'Z' {
        ((c as u32) + 32) as char
    } else {
        c
    }
}

pub fn ascii_lower(c: char) -> (r: char)
    ensures
        r == spec_ascii_lower(c),
{
    if 'A' <= c && c <= 'Z' {
        let b: u8 = c as u8;
        (b + 32) as char
    } else {
        c
    }
}

/// Calls `String::push`, which std documents as appending the character to
/// the end of the string: the contract claims exactly that of its view.
#[verifier::external_body]
pub(crate) fn push_char(s: &mut String, c: char)
    ensures
        final(s)@ == old(s)@.push(c),
{
    s.push(c);
}

/// Whether two string slices hold the same characters.
pub fn str_eq(a: &str, b: &str) -> (r: bool)
    ensures
        r == (a@ == b@),
{
    let n = a.unicode_len();
    if n != b.unicode_len() {
        return false;
    }
    let mut i: usize = 0;
    while i < n
        invariant
            n == a@.len(),
            n == b@.len(),
            i <= n,
            forall|j: int| 0 <= j < i ==> a@[j] == b@[j],
        decreases n - i,
    {
        if a.get_char(i) != b.get_char(i) {
            return false;
        }
        i = i + 1;
    }
    assert(a@ =~= b@);
    true
}


/// The character of a decimal digit.
pub open spec fn digit_char(d: int) -> char {
    (('0' as int) + d) as char
}

/// The decimal digits of a natural number, most significant first.
pub open spec fn digits(n: nat) -> Seq<char>
    decreases n,
{
    if n < 10 {
        seq![digit_char(n as int)]
    } else {
        digits(n / 10).push(digit_char((n % 10) as int))
    }
}

/// One digit below ten, at least two from ten on.
pub proof fn lemma_digits_len(n: nat)
    ensures
        n < 10 ==> digits(n).len() == 1,
        n >= 10 ==> digits(n).len() >= 2,
    decreases n,
{
    if n >= 10 {
        lemma_digits_len(n / 10);
    }
}

/// An integer written in decimal, with a leading `-` when negative.
pub open spec fn int_text(n: int) -> Seq<char> {
    if n < 0 {
        seq!['-'] + digits((-n) as nat)
    } else {
        digits(n as nat)
    }
}

fn digit(d: u64) -> (r: char)
    requires
        d < 10,
    ensures
        r == digit_char(d as int),
{
    let b: u8 = 48u8 + (d as u8);
    b as char
}

/// Appends the decimal digits of `n`.
pub fn push_digits(s: &mut String, n: u64)
    ensures
        final(s)@ == old(s)@ + digits(n as nat),
    decreases n,
{
    if n >= 10 {
        push_digits(s, n / 10);
    }
    push_char(s, digit(n % 10));
    proof {
        if n >= 10 {
            assert(final(s)@ =~= old(s)@ + digits(n as nat));
        } else {
            assert(final(s)@ =~= old(s)@ + digits(n as nat));
        }
    }
}

/// Appends `n` written in decimal.
pub fn push_int(s: &mut String, n: i64)
    ensures
        final(s)@ == old(s)@ + int_text(n as int),
{
    if n < 0 {
        push_char(s, '-');
        let magnitude: u64 = if n == i64::MIN {
            9223372036854775808u64
        } else {
            (-n) as u64
        };
        push_digits(s, magnitude);
        proof {
            assert(final(s)@ =~= old(s)@ + int_text(n as int));
        }
    } else {
        push_digits(s, n as u64);
    }
}

/// `a`, then `n` in decimal, then `b`.
pub fn text_num(a: &str, n: i64, b: &str) -> (r: String)
    ensures
        r@ == a@ + int_text(n as int) + b@,
{
    let mut s = String::from_str(a);
    push_int(&mut s, n);
    s.append(b);
    proof {
        assert(s@ =~= a@ + int_text(n as int) + b@);
    }
    s
}

/// `a`, `n`, `b`, `m`, then `c`.
pub fn text_num2(a: &str, n: i64, b: &str, m: i64, c: &str) -> (r: String)
    ensures
        r@ == a@ + int_text(n as int) + b@ + int_text(m as int) + c@,
{
    let mut s = String::from_str(a);
    push_int(&mut s, n);
    s.append(b);
    push_int(&mut s, m);
    s.append(c);
    proof {
        assert(s@ =~= a@ + int_text(n as int) + b@ + int_text(m as int) + c@);
    }
    s
}

/// The characters of `s`, owned.
pub fn owned(s: &str) -> (r: String)
    ensures
        r@ == s@,
{
    String::from_str(s)
}

/// `a` followed by `b`.
pub fn concat_str(a: &str, b: &str) -> (r: String)
    ensures
        r@ == a@ + b@,
{
    let mut s = String::from_str(a);
    s.append(b);
    s
}


/// The characters of a string slice.
pub fn str_chars(s: &str) -> (r: Vec<char>)
    ensures
        r@ == s@,
{
    let n = s.unicode_len();
    let mut out: Vec<char> = Vec::new();
    for i in 0..n
        invariant
            n == s@.len(),
            out@ == s@.take(i as int),
    {
        out.push(s.get_char(i));
        proof {
            assert(out@ =~= s@.take((i + 1) as int));
        }
    }
    proof {
        assert(s@.take(n as int) =~= s@);
    }
    out
}

/// Whether the characters equal those of the string slice.
pub fn chars_eq_str(v: &Vec<char>, s: &str) -> (r: bool)
    ensures
        r == (v@ == s@),
{
    let n = s.unicode_len();
    if v.len() != n {
        return false;
    }
    for i in 0..n
        invariant
            n == s@.len(),
            n == v@.len(),
            forall|j: int| 0 <= j < i ==> v@[j] == s@[j],
    {
        if v[i] != s.get_char(i) {
            return false;
        }
    }
    assert(v@ =~= s@);
    true
}

/// Whether the characters begin with those of the string slice.
pub fn chars_start_with(v: &Vec<char>, s: &str) -> (r: bool)
    ensures
        r == (v@.len() >= s@.len() && v@.subrange(0, s@.len() as int) == s@),
{
    let n = s.unicode_len();
    if v.len() < n {
        return false;
    }
    for i in 0..n
        invariant
            n == s@.len(),
            n <= v@.len(),
            forall|j: int| 0 <= j < i ==> v@[j] == s@[j],
    {
        if v[i] != s.get_char(i) {
            return false;
        }
    }
    assert(v@.subrange(0, n as int) =~= s@);
    true
}

/// A string of the given characters.
pub fn string_of(v: &Vec<char>) -> (r: String)
    ensures
        r@ == v@,
{
    let mut s = String::new();
    let n = v.len();
    for i in 0..n
        invariant
            n == v@.len(),
            s@ == v@.take(i as int),
    {
        push_char(&mut s, v[i]);
        proof {
            assert(s@ =~= v@.take((i + 1) as int));
        }
    }
    proof {
        assert(v@.take(n as int) =~= v@);
    }
    s
}

/// `a` followed by the characters of `b`.
pub fn append_str(a: String, b: &str) -> (r: String)
    ensures
        r@ == a@ + b@,
{
    let mut a = a;
    a.append(b);
    a
}


/// The characters with ASCII capitals made small.
pub open spec fn lower_chars(s: Seq<char>) -> Seq<char> {
    s.map_values(|c: char| spec_ascii_lower(c))
}

/// The characters of a string slice, ASCII capitals made small.
pub fn lowered_chars(s: &str) -> (r: Vec<char>)
    ensures
        r@ == lower_chars(s@),
{
    let n = s.unicode_len();
    let mut out: Vec<char> = Vec::new();
    for i in 0..n
        invariant
            n == s@.len(),
            out@ == lower_chars(s@.take(i as int)),
    {
        out.push(ascii_lower(s.get_char(i)));
        proof {
            assert(lower_chars(s@.take((i + 1) as int)) =~= lower_chars(s@.take(i as int)).push(spec_ascii_lower(s@[i as int])));
        }
    }
    proof {
        assert(s@.take(n as int) =~= s@);
    }
    out
}

/// Whether `sub` occurs in `s` at position `i`.
pub open spec fn occurs_at(s: Seq<char>, sub: Seq<char>, i: int) -> bool {
    0 <= i && i + sub.len() <= s.len() && s.subrange(i, i + sub.len()) == sub
}

/// Whether `sub` occurs somewhere in `s`.
pub open spec fn seq_contains_sub(s: Seq<char>, sub: Seq<char>) -> bool {
    exists|i: int| occurs_at(s, sub, i)
}

fn occurs_at_exec(v: &Vec<char>, sub: &Vec<char>, i: usize) -> (r: bool)
    requires
        i + sub@.len() <= v@.len(),
    ensures
        r == occurs_at(v@, sub@, i as int),
{
    let m = sub.len();
    let vn = v.len();
    for j in 0..m
        invariant
            m == sub@.len(),
            vn == v@.len(),
            i + m <= v@.len(),
            forall|k: int| 0 <= k < j ==> v@[i + k] == sub@[k],
    {
        assert(i + j < v@.len());
        if v[i + j] != sub[j] {
            assert(v@.subrange(i as int, i + m)[j as int] != sub@[j as int]);
            return false;
        }
    }
    assert(v@.subrange(i as int, i + m) =~= sub@);
    true
}

/// Whether the characters of `sub` occur in `v`.
pub fn chars_contain(v: &Vec<char>, sub: &str) -> (r: bool)
    ensures
        r == seq_contains_sub(v@, sub@),
{
    let w = str_chars(sub);
    let n = v.len();
    let m = w.len();
    if m > n {
        assert forall|i: int| !occurs_at(v@, sub@, i) by {}
        return false;
    }
    if m == 0 {
        assert(v@.subrange(0, 0) =~= sub@);
        assert(occurs_at(v@, sub@, 0));
        return true;
    }
    let last = n - m;
    let mut i: usize = 0;
    while i <= last
        invariant
            n == v@.len(),
            m == w@.len(),
            w@ == sub@,
            last == n - m,
            last < n,
            i <= last + 1,
            forall|k: int| 0 <= k < i ==> !occurs_at(v@, sub@, k),
        decreases last + 1 - i,
    {
        if occurs_at_exec(v, &w, i) {
            return true;
        }
        i = i + 1;
    }
    assert forall|k: int| !occurs_at(v@, sub@, k) by {
        if 0 <= k && k + sub@.len() <= v@.len() {
            assert(k < i);
        }
    }
    false
}

/// The characters of `v` from position `start` on.
pub fn chars_from(v: &Vec<char>, start: usize) -> (r: Vec<char>)
    requires
        start <= v@.len(),
    ensures
        r@ == v@.subrange(start as int, v@.len() as int),
{
    let n = v.len();
    let mut out: Vec<char> = Vec::new();
    let mut i = start;
    while i < n
        invariant
            n == v@.len(),
            start <= i <= n,
            out@ == v@.subrange(start as int, i as int),
        decreases n - i,
    {
        out.push(v[i]);
        proof {
            assert(out@ =~= v@.subrange(start as int, (i + 1) as int));
        }
        i = i + 1;
    }
    out
}

} // verus!
