//! Reading the player's typed commands.
use vstd::prelude::*;

use crate::assets::localization::{is_white_space, language_of_code, Language, Localization};
use crate::text::{chars_eq_str, owned, str_chars, string_of};

verus! {

/// The words of a text: maximal runs of characters that are not white space.
pub open spec fn words_from(s: Seq<char>, i: int, cur: Seq<char>) -> Seq<Seq<char>>
    decreases s.len() - i,
{
    if i >= s.len() || i < 0 {
        if cur.len() > 0 { seq![cur] } else { Seq::empty() }
    } else if is_white_space(s[i]) {
        (if cur.len() > 0 { seq![cur] } else { Seq::empty() }) + words_from(s, i + 1, Seq::empty())
    } else {
        words_from(s, i + 1, cur.push(s[i]))
    }
}

pub open spec fn words(s: Seq<char>) -> Seq<Seq<char>> {
    words_from(s, 0, Seq::empty())
}

/// Splits a text into its words.
pub fn split_words(s: &str) -> (r: Vec<Vec<char>>)
    ensures
        r@.map_values(|w: Vec<char>| w@) == words(s@),
{
    let chars = str_chars(s);
    let n = chars.len();
    let mut out: Vec<Vec<char>> = Vec::new();
    let mut cur: Vec<char> = Vec::new();
    let mut i: usize = 0;
    while i < n
        invariant
            n == chars@.len(),
            chars@ == s@,
            i <= n,
            out@.map_values(|w: Vec<char>| w@) + words_from(chars@, i as int, cur@) == words(chars@),
        decreases n - i,
    {
        let c = chars[i];
        let ghost before = out@.map_values(|w: Vec<char>| w@);
        let ghost before_cur = cur@;
        if crate::adapters::tui::parse::white_space_char(c) {
            if cur.len() > 0 {
                let w = cur;
                out.push(w);
                cur = Vec::new();
                proof {
                    assert(out@.map_values(|w: Vec<char>| w@) =~= before.push(before_cur));
                    assert(cur@ =~= Seq::<char>::empty());
                    assert(words_from(chars@, i as int, before_cur) == seq![before_cur] + words_from(
                        chars@,
                        (i + 1) as int,
                        Seq::<char>::empty(),
                    ));
                    assert(out@.map_values(|w: Vec<char>| w@) + words_from(chars@, (i + 1) as int, cur@) =~= before
                        + words_from(chars@, i as int, before_cur));
                }
            } else {
                proof {
                    assert(before_cur =~= Seq::<char>::empty());
                    assert(words_from(chars@, i as int, before_cur) == Seq::<Seq<char>>::empty() + words_from(
                        chars@,
                        (i + 1) as int,
                        Seq::<char>::empty(),
                    ));
                    assert(out@.map_values(|w: Vec<char>| w@) + words_from(chars@, (i + 1) as int, cur@) =~= before
                        + words_from(chars@, i as int, before_cur));
                }
            }
        } else {
            cur.push(c);
        }
        i = i + 1;
    }
    if cur.len() > 0 {
        let ghost before = out@.map_values(|w: Vec<char>| w@);
        let ghost before_cur = cur@;
        out.push(cur);
        proof {
            assert(out@.map_values(|w: Vec<char>| w@) =~= before + words_from(chars@, n as int, before_cur));
        }
    } else {
        proof {
            assert(out@.map_values(|w: Vec<char>| w@) =~= out@.map_values(|w: Vec<char>| w@) + words_from(chars@, n as int, cur@));
        }
    }
    out
}

pub fn white_space_char(c: char) -> (r: bool)
    ensures
        r == is_white_space(c),
{
    let u = c as u32;
    (0x9 <= u && u <= 0xD) || u == 0x20 || u == 0x85 || u == 0xA0 || u == 0x1680 || (0x2000 <= u && u <= 0x200A)
        || u == 0x2028 || u == 0x2029 || u == 0x202F || u == 0x205F || u == 0x3000
}

/// An ASCII digit.
pub open spec fn is_digit(c: char) -> bool {
    '0' <= c && c <= '9'
}

/// The number the digits spell, most significant first.
pub open spec fn digits_value(s: Seq<char>) -> nat
    decreases s.len(),
{
    if s.len() == 0 {
        0
    } else {
        digits_value(s.drop_last()) * 10 + ((s.last() as u32 - '0' as u32) as nat)
    }
}

/// A number written in decimal, as `usize`'s `FromStr` reads it: an optional
/// `+`, then one or more ASCII digits, the value at most `usize::MAX`.
pub open spec fn parsed_usize(s: Seq<char>) -> Option<usize> {
    if decimal_body(s).len() > 0 && all_digits(decimal_body(s)) && digits_value(decimal_body(s)) <= usize::MAX {
        Some(digits_value(decimal_body(s)) as usize)
    } else {
        None
    }
}

/// The digits of a number, after an optional leading `+`.
pub open spec fn decimal_body(s: Seq<char>) -> Seq<char> {
    if s.len() > 0 && s[0] == '+' {
        s.skip(1)
    } else {
        s
    }
}

/// Every character is an ASCII digit.
pub open spec fn all_digits(s: Seq<char>) -> bool {
    forall|k: int| 0 <= k < s.len() ==> is_digit(#[trigger] s[k])
}

/// A longer run of digits is worth at least as much.
pub proof fn lemma_digits_value_grows(s: Seq<char>, k: int)
    requires
        0 <= k <= s.len(),
        forall|j: int| 0 <= j < s.len() ==> is_digit(#[trigger] s[j]),
    ensures
        digits_value(s.take(k)) <= digits_value(s),
    decreases s.len() - k,
{
    if k < s.len() {
        lemma_digits_value_grows(s, k + 1);
        assert(s.take(k + 1).drop_last() =~= s.take(k));
        assert(s.take(k + 1).last() == s[k]);
        assert(is_digit(s[k]));
        assert(digits_value(s.take(k + 1)) == digits_value(s.take(k)) * 10 + ((s[k] as u32 - '0' as u32) as nat));
    } else {
        assert(s.take(k) =~= s);
    }
}

/// Reads a decimal number.
pub fn parse_usize(v: &Vec<char>) -> (r: Option<usize>)
    ensures
        r == parsed_usize(v@),
{
    let n = v.len();
    let start: usize = if n > 0 && v[0] == '+' { 1 } else { 0 };
    let ghost body = decimal_body(v@);
    assert(body =~= v@.skip(start as int));
    if start >= n {
        return None;
    }
    let mut acc: usize = 0;
    let mut i: usize = start;
    while i < n
        invariant
            n == v@.len(),
            start < n,
            start <= i <= n,
            body == v@.skip(start as int),
            body == decimal_body(v@),
            forall|j: int| start <= j < i ==> is_digit(#[trigger] v@[j]),
            acc == digits_value(body.take(i - start)),
        decreases n - i,
    {
        let c = v[i];
        if !('0' <= c && c <= '9') {
            proof {
                assert(body[i - start] == c);
                assert(!is_digit(body[i - start]));
                assert(!all_digits(body));
                assert(parsed_usize(v@) is None);
            }
            return None;
        }
        let d = (c as u32 - '0' as u32) as usize;
        proof {
            assert(body.take((i + 1 - start) as int).drop_last() =~= body.take((i - start) as int));
            assert(body.take((i + 1 - start) as int).last() == c);
            assert(digits_value(body.take((i + 1 - start) as int)) == acc * 10 + d);
        }
        if acc > (usize::MAX - d) / 10 {
            proof {
                assert(digits_value(body.take((i + 1 - start) as int)) > usize::MAX) by (nonlinear_arith)
                    requires
                        acc > (usize::MAX - d) / 10,
                        digits_value(body.take((i + 1 - start) as int)) == acc * 10 + d,
                        d <= 9,
                ;
                if all_digits(body) {
                    lemma_digits_value_grows(body, (i + 1 - start) as int);
                    assert(digits_value(body) > usize::MAX);
                }
                assert(parsed_usize(v@) is None);
            }
            return None;
        }
        acc = acc * 10 + d;
        i = i + 1;
    }
    proof {
        assert(body.take((n - start) as int) =~= body);
        assert forall|k: int| 0 <= k < body.len() implies is_digit(#[trigger] body[k]) by {
            assert(body[k] == v@[k + start]);
        }
    }
    Some(acc)
}

/// A number written in decimal, as `u64`'s `FromStr` reads it: an optional
/// `+`, then one or more ASCII digits, the value at most `u64::MAX`.
pub open spec fn parsed_u64(s: Seq<char>) -> Option<u64> {
    if decimal_body(s).len() > 0 && all_digits(decimal_body(s)) && digits_value(decimal_body(s)) <= u64::MAX {
        Some(digits_value(decimal_body(s)) as u64)
    } else {
        None
    }
}

/// Reads a decimal number into a `u64`.
pub fn parse_u64(v: &Vec<char>) -> (r: Option<u64>)
    ensures
        r == parsed_u64(v@),
{
    let n = v.len();
    let start: usize = if n > 0 && v[0] == '+' { 1 } else { 0 };
    let ghost body = decimal_body(v@);
    assert(body =~= v@.skip(start as int));
    if start >= n {
        return None;
    }
    let mut acc: u64 = 0;
    let mut i: usize = start;
    while i < n
        invariant
            n == v@.len(),
            start < n,
            start <= i <= n,
            body == v@.skip(start as int),
            body == decimal_body(v@),
            forall|j: int| start <= j < i ==> is_digit(#[trigger] v@[j]),
            acc == digits_value(body.take(i - start)),
        decreases n - i,
    {
        let c = v[i];
        if !('0' <= c && c <= '9') {
            proof {
                assert(body[i - start] == c);
                assert(!is_digit(body[i - start]));
                assert(!all_digits(body));
                assert(parsed_u64(v@) is None);
            }
            return None;
        }
        let d = (c as u32 - '0' as u32) as u64;
        proof {
            assert(body.take((i + 1 - start) as int).drop_last() =~= body.take((i - start) as int));
            assert(body.take((i + 1 - start) as int).last() == c);
            assert(digits_value(body.take((i + 1 - start) as int)) == acc * 10 + d);
        }
        if acc > (u64::MAX - d) / 10 {
            proof {
                assert(digits_value(body.take((i + 1 - start) as int)) > u64::MAX) by (nonlinear_arith)
                    requires
                        acc > (u64::MAX - d) / 10,
                        digits_value(body.take((i + 1 - start) as int)) == acc * 10 + d,
                        d <= 9,
                ;
                if all_digits(body) {
                    lemma_digits_value_grows(body, (i + 1 - start) as int);
                    assert(digits_value(body) > u64::MAX);
                }
                assert(parsed_u64(v@) is None);
            }
            return None;
        }
        acc = acc * 10 + d;
        i = i + 1;
    }
    proof {
        assert(body.take((n - start) as int) =~= body);
        assert forall|k: int| 0 <= k < body.len() implies is_digit(#[trigger] body[k]) by {
            assert(body[k] == v@[k + start]);
        }
    }
    Some(acc)
}

/// What a typed line asks for.
#[derive(Clone, Debug)]
pub enum UiInput {
    Empty,
    Help,
    SetLanguage(Language),
    Quit,
    Restart,
    EndTurn,
    Play { hand: usize, monster: Option<usize> },
    Invalid(String),
}

/// The view of a typed command: as `UiInput`, with the message of an invalid one as characters.
pub enum UiInputView {
    Empty,
    Help,
    SetLanguage(Language),
    Quit,
    Restart,
    EndTurn,
    Play { hand: usize, monster: Option<usize> },
    Invalid(Seq<char>),
}

impl UiInput {
    pub open spec fn view(&self) -> UiInputView {
        match self {
            UiInput::Empty => UiInputView::Empty,
            UiInput::Help => UiInputView::Help,
            UiInput::SetLanguage(l) => UiInputView::SetLanguage(*l),
            UiInput::Quit => UiInputView::Quit,
            UiInput::Restart => UiInputView::Restart,
            UiInput::EndTurn => UiInputView::EndTurn,
            UiInput::Play { hand, monster } => UiInputView::Play { hand: *hand, monster: *monster },
            UiInput::Invalid(m) => UiInputView::Invalid(m@),
        }
    }
}

/// The command a typed line is read as.
pub open spec fn parsed_input(s: Seq<char>, loc: Localization) -> UiInputView {
    let w = words(s);
    if s.len() == 0 {
        UiInputView::Empty
    } else if s == "?"@ || s == "h"@ || s == "help"@ {
        UiInputView::Help
    } else if s == "q"@ || s == "quit"@ {
        UiInputView::Quit
    } else if s == "r"@ || s == "restart"@ {
        UiInputView::Restart
    } else if s == "e"@ || s == "end"@ || s == "endturn"@ {
        UiInputView::EndTurn
    } else if w.len() == 0 {
        UiInputView::Empty
    } else if w[0] == "lang"@ || w[0] == "language"@ {
        match if w.len() > 1 { language_of_code(w[1]) } else { None } {
            Some(l) => UiInputView::SetLanguage(l),
            None => UiInputView::Invalid(loc.spec_ui("error.language_usage")@),
        }
    } else {
        match parsed_usize(w[0]) {
            None => UiInputView::Invalid(
                match loc.spec_language() {
                    Language::Eng => "unknown command: "@ + s,
                    Language::Zhs => "未知命令："@ + s,
                },
            ),
            Some(0) => UiInputView::Invalid(loc.spec_ui("error.card_index_starts_at_one")@),
            Some(hand) => if w.len() > 1 {
                match parsed_usize(w[1]) {
                    None => UiInputView::Invalid(
                        match loc.spec_language() {
                            Language::Eng => "invalid monster index: "@ + w[1],
                            Language::Zhs => "怪物序号无效："@ + w[1],
                        },
                    ),
                    Some(0) => UiInputView::Invalid(loc.spec_ui("error.monster_index_starts_at_one")@),
                    Some(m) => UiInputView::Play { hand: (hand - 1) as usize, monster: Some((m - 1) as usize) },
                }
            } else {
                UiInputView::Play { hand: (hand - 1) as usize, monster: None }
            },
        }
    }
}

/// Reads a typed line.
pub fn parse_input(input: &str, loc: &Localization) -> (r: UiInput)
    ensures
        r.view() == parsed_input(input@, *loc),
{
    let chars = str_chars(input);
    if chars.len() == 0 {
        return UiInput::Empty;
    }
    if chars_eq_str(&chars, "?") || chars_eq_str(&chars, "h") || chars_eq_str(&chars, "help") {
        return UiInput::Help;
    }
    if chars_eq_str(&chars, "q") || chars_eq_str(&chars, "quit") {
        return UiInput::Quit;
    }
    if chars_eq_str(&chars, "r") || chars_eq_str(&chars, "restart") {
        return UiInput::Restart;
    }
    if chars_eq_str(&chars, "e") || chars_eq_str(&chars, "end") || chars_eq_str(&chars, "endturn") {
        return UiInput::EndTurn;
    }
    let parts = split_words(input);
    proof {
        assert(parts@.len() == words(input@).len());
    }
    if parts.len() == 0 {
        return UiInput::Empty;
    }
    proof {
        assert(parts@[0]@ == words(input@)[0]);
        if parts@.len() > 1 {
            assert(parts@[1]@ == words(input@)[1]);
        }
    }
    if chars_eq_str(&parts[0], "lang") || chars_eq_str(&parts[0], "language") {
        let language = if parts.len() > 1 {
            let code = string_of(&parts[1]);
            Language::from_code(code.as_str())
        } else {
            None
        };
        return match language {
            Some(l) => UiInput::SetLanguage(l),
            None => UiInput::Invalid(owned(loc.ui("error.language_usage"))),
        };
    }
    let hand = match parse_usize(&parts[0]) {
        None => return UiInput::Invalid(loc.format_unknown_command(input)),
        Some(0) => return UiInput::Invalid(owned(loc.ui("error.card_index_starts_at_one"))),
        Some(v) => v - 1,
    };
    if parts.len() > 1 {
        match parse_usize(&parts[1]) {
            None => {
                let value = string_of(&parts[1]);
                UiInput::Invalid(loc.format_invalid_monster_index(value.as_str()))
            },
            Some(0) => UiInput::Invalid(owned(loc.ui("error.monster_index_starts_at_one"))),
            Some(m) => UiInput::Play { hand, monster: Some(m - 1) },
        }
    } else {
        UiInput::Play { hand, monster: None }
    }
}

} // verus!
