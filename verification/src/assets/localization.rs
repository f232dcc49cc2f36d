//! Localized texts: the language, interface strings, entity names and the
//! labels and messages the interface shows.
use vstd::prelude::*;

use super::tables::{entity_names, entity_table, ui_table, ui_text, LocalizedEntry};
use crate::content::card_text::CardTextLine;
use crate::content::cards::{CardKeyword, CardType, TargetType};
use crate::content::monsters::MonsterIntent;
use crate::ids::LocKey;
use crate::state::{CardCost, CombatPhase};
use crate::text::{
    append_str, chars_eq_str, int_text, owned, push_char, push_digits, push_int, spec_ascii_lower, ascii_lower,
    digits, str_chars, str_eq, text_num, text_num2,
};

verus! {

/// The languages texts are available in.
#[derive(Clone, Copy, Debug, PartialEq, Eq, Structural)]
pub enum Language {
    Eng,
    Zhs,
}

/// A white-space character, as `char::is_whitespace` has it (Unicode White_Space).
pub open spec fn is_white_space(c: char) -> bool {
    let u = c as u32;
    (0x9 <= u && u <= 0xD) || u == 0x20 || u == 0x85 || u == 0xA0 || u == 0x1680 || (0x2000 <= u && u <= 0x200A)
        || u == 0x2028 || u == 0x2029 || u == 0x202F || u == 0x205F || u == 0x3000
}

fn white_space(c: char) -> (r: bool)
    ensures
        r == is_white_space(c),
{
    let u = c as u32;
    (0x9 <= u && u <= 0xD) || u == 0x20 || u == 0x85 || u == 0xA0 || u == 0x1680 || (0x2000 <= u && u <= 0x200A)
        || u == 0x2028 || u == 0x2029 || u == 0x202F || u == 0x205F || u == 0x3000
}

/// The index of the first character from `i` on that is not white space.
pub open spec fn trim_start_index(s: Seq<char>, i: int) -> int
    decreases s.len() - i,
{
    if 0 <= i < s.len() && is_white_space(s[i]) {
        trim_start_index(s, i + 1)
    } else {
        i
    }
}

/// One past the last character before `j` that is not white space.
pub open spec fn trim_end_index(s: Seq<char>, j: int) -> int
    decreases j,
{
    if 0 < j <= s.len() && is_white_space(s[j - 1]) {
        trim_end_index(s, j - 1)
    } else {
        j
    }
}

/// The characters without leading and trailing white space.
pub open spec fn trimmed(s: Seq<char>) -> Seq<char> {
    let a = trim_start_index(s, 0);
    let b = trim_end_index(s, s.len() as int);
    if a < b {
        s.subrange(a, b)
    } else {
        Seq::empty()
    }
}

/// A character of a language code, lower-cased with `_` read as `-`.
pub open spec fn code_char(c: char) -> char {
    let l = spec_ascii_lower(c);
    if l == '_' {
        '-'
    } else {
        l
    }
}

/// A language code as it is matched: trimmed, lower-cased, `_` read as `-`.
pub open spec fn normalized_code(s: Seq<char>) -> Seq<char> {
    trimmed(s).map_values(|c: char| code_char(c))
}

/// The language a code names.
pub open spec fn language_of_code(s: Seq<char>) -> Option<Language> {
    let n = normalized_code(s);
    if n == "eng"@ || n == "en"@ || n == "en-us"@ || n == "en-gb"@ {
        Some(Language::Eng)
    } else if n == "zhs"@ || n == "zh"@ || n == "zh-cn"@ || n == "zh-hans"@ || n == "cn"@ || n == "chs"@ {
        Some(Language::Zhs)
    } else {
        None
    }
}

/// The codes of each language: `eng`, `en`, `en-us`, `en-gb` name English;
/// `zhs`, `zh`, `zh-cn`, `zh-hans`, `cn`, `chs` name Simplified Chinese.
/// A code is matched once trimmed, lower-cased and with `_` read as `-`, so
/// `zh_CN` and ` ZH-CN ` name Simplified Chinese too.
pub proof fn lemma_language_codes(code: Seq<char>)
    ensures
        normalized_code(code) == "eng"@ ==> language_of_code(code) == Some(Language::Eng),
        normalized_code(code) == "en"@ ==> language_of_code(code) == Some(Language::Eng),
        normalized_code(code) == "en-us"@ ==> language_of_code(code) == Some(Language::Eng),
        normalized_code(code) == "en-gb"@ ==> language_of_code(code) == Some(Language::Eng),
        normalized_code(code) == "zhs"@ ==> language_of_code(code) == Some(Language::Zhs),
        normalized_code(code) == "zh"@ ==> language_of_code(code) == Some(Language::Zhs),
        normalized_code(code) == "zh-cn"@ ==> language_of_code(code) == Some(Language::Zhs),
        normalized_code(code) == "zh-hans"@ ==> language_of_code(code) == Some(Language::Zhs),
        normalized_code(code) == "cn"@ ==> language_of_code(code) == Some(Language::Zhs),
        normalized_code(code) == "chs"@ ==> language_of_code(code) == Some(Language::Zhs),
        normalized_code(code) == trimmed(code).map_values(
            |c: char| if c == '_' { '-' } else if 'A' <= c && c <= 'Z' { ((c as u32) + 32) as char } else { c },
        ),
{
    reveal_strlit("eng");
    reveal_strlit("en");
    reveal_strlit("en-us");
    reveal_strlit("en-gb");
    reveal_strlit("zhs");
    reveal_strlit("zh");
    reveal_strlit("zh-cn");
    reveal_strlit("zh-hans");
    reveal_strlit("cn");
    reveal_strlit("chs");
    assert("zhs"@[0] != "eng"@[0]);
    assert("chs"@[0] != "eng"@[0]);
    assert("zh"@[0] != "en"@[0]);
    assert("cn"@[0] != "en"@[0]);
    assert("zh-cn"@[0] != "en-us"@[0]);
    assert("zh-cn"@[0] != "en-gb"@[0]);
    assert(normalized_code(code) =~= trimmed(code).map_values(
        |c: char| if c == '_' { '-' } else if 'A' <= c && c <= 'Z' { ((c as u32) + 32) as char } else { c },
    ));
}

pub proof fn lemma_trim_start_bounds(s: Seq<char>, i: int)
    requires
        0 <= i <= s.len(),
    ensures
        i <= trim_start_index(s, i) <= s.len(),
    decreases s.len() - i,
{
    if i < s.len() && is_white_space(s[i]) {
        lemma_trim_start_bounds(s, i + 1);
    }
}

pub proof fn lemma_trim_end_bounds(s: Seq<char>, j: int)
    requires
        0 <= j <= s.len(),
    ensures
        0 <= trim_end_index(s, j) <= j,
    decreases j,
{
    if 0 < j && is_white_space(s[j - 1]) {
        lemma_trim_end_bounds(s, j - 1);
    }
}

/// The characters before the first `.`; all of them when there is none.
pub open spec fn before_dot(s: Seq<char>) -> Seq<char>
    decreases s.len(),
{
    if s.len() == 0 {
        s
    } else if s[0] == '.' {
        seq![]
    } else {
        seq![s[0]] + before_dot(s.drop_first())
    }
}

proof fn lemma_before_dot(s: Seq<char>, k: int)
    requires
        0 <= k <= s.len(),
        forall|j: int| 0 <= j < k ==> s[j] != '.',
        k == s.len() || s[k] == '.',
    ensures
        before_dot(s) == s.take(k),
    decreases s.len(),
{
    if s.len() == 0 {
        assert(s.take(k) =~= s);
    } else if s[0] == '.' {
        assert(s.take(k) =~= seq![]);
    } else {
        lemma_before_dot(s.drop_first(), k - 1);
        assert(seq![s[0]] + s.drop_first().take(k - 1) =~= s.take(k));
    }
}

/// The language of the first value that names one, read up to its first `.`;
/// English when none does.
pub open spec fn language_of_locales(values: Seq<Seq<char>>) -> Language
    decreases values.len(),
{
    if values.len() == 0 {
        Language::Eng
    } else {
        match language_of_code(before_dot(values[0])) {
            Some(l) => l,
            None => language_of_locales(values.drop_first()),
        }
    }
}

impl Language {
    /// The language a code names: `eng`, `en`, `en-us`, `en-gb` for English;
    /// `zhs`, `zh`, `zh-cn`, `zh-hans`, `cn`, `chs` for Simplified Chinese;
    /// surrounding white space and letter case do not matter, and `_` counts as `-`.
    pub fn from_code(code: &str) -> (r: Option<Language>)
        ensures
            r == language_of_code(code@),
            normalized_code(code@) == "eng"@ ==> r == Some(Language::Eng),
            normalized_code(code@) == "en"@ ==> r == Some(Language::Eng),
            normalized_code(code@) == "en-us"@ ==> r == Some(Language::Eng),
            normalized_code(code@) == "en-gb"@ ==> r == Some(Language::Eng),
            normalized_code(code@) == "zhs"@ ==> r == Some(Language::Zhs),
            normalized_code(code@) == "zh"@ ==> r == Some(Language::Zhs),
            normalized_code(code@) == "zh-cn"@ ==> r == Some(Language::Zhs),
            normalized_code(code@) == "zh-hans"@ ==> r == Some(Language::Zhs),
            normalized_code(code@) == "cn"@ ==> r == Some(Language::Zhs),
            normalized_code(code@) == "chs"@ ==> r == Some(Language::Zhs),
    {
        let chars = str_chars(code);
        let n = chars.len();
        let mut a: usize = 0;
        while a < n && white_space(chars[a])
            invariant
                n == chars@.len(),
                a <= n,
                trim_start_index(chars@, 0) == trim_start_index(chars@, a as int),
            decreases n - a,
        {
            a = a + 1;
        }
        let mut b: usize = n;
        while b > 0 && white_space(chars[b - 1])
            invariant
                n == chars@.len(),
                b <= n,
                trim_end_index(chars@, n as int) == trim_end_index(chars@, b as int),
            decreases b,
        {
            b = b - 1;
        }
        let mut norm: Vec<char> = Vec::new();
        if a < b {
            for k in a..b
                invariant
                    a < b,
                    b <= n,
                    n == chars@.len(),
                    norm@ == chars@.subrange(a as int, k as int).map_values(|c: char| code_char(c)),
            {
                let l = ascii_lower(chars[k]);
                norm.push(if l == '_' { '-' } else { l });
                proof {
                    assert(norm@ =~= chars@.subrange(a as int, (k + 1) as int).map_values(|c: char| code_char(c)));
                }
            }
        }
        proof {
            assert(norm@ =~= normalized_code(code@));
            lemma_language_codes(code@);
        }
        if chars_eq_str(&norm, "eng") || chars_eq_str(&norm, "en") || chars_eq_str(&norm, "en-us") || chars_eq_str(&norm, "en-gb") {
            Some(Language::Eng)
        } else if chars_eq_str(&norm, "zhs") || chars_eq_str(&norm, "zh") || chars_eq_str(&norm, "zh-cn")
            || chars_eq_str(&norm, "zh-hans") || chars_eq_str(&norm, "cn") || chars_eq_str(&norm, "chs") {
            Some(Language::Zhs)
        } else {
            None
        }
    }

    /// The language of the first locale value that names one, read up to its
    /// first `.`; English when none does.
    pub fn from_locales(values: &Vec<String>) -> (r: Language)
        ensures
            r == language_of_locales(values@.map_values(|v: String| v@)),
    {
        let ghost vs = values@.map_values(|v: String| v@);
        let n = values.len();
        let mut i: usize = 0;
        proof {
            assert(vs.skip(0) =~= vs);
        }
        while i < n
            invariant
                n == values@.len(),
                vs == values@.map_values(|v: String| v@),
                i <= n,
                language_of_locales(vs) == language_of_locales(vs.skip(i as int)),
            decreases n - i,
        {
            proof {
                assert(vs.skip(i as int)[0] == values@[i as int]@);
                assert(vs.skip(i as int).drop_first() =~= vs.skip(i + 1));
            }
            let chars = str_chars(values[i].as_str());
            let m = chars.len();
            let mut k: usize = 0;
            while k < m && chars[k] != '.'
                invariant
                    m == chars@.len(),
                    k <= m,
                    forall|j: int| 0 <= j < k ==> chars@[j] != '.',
                decreases m - k,
            {
                k = k + 1;
            }
            proof {
                lemma_before_dot(chars@, k as int);
            }
            let mut head = String::new();
            for j in 0..k
                invariant
                    k <= m,
                    m == chars@.len(),
                    head@ == chars@.take(j as int),
            {
                crate::text::push_char(&mut head, chars[j]);
                proof {
                    assert(head@ =~= chars@.take((j + 1) as int));
                }
            }
            match Language::from_code(head.as_str()) {
                Some(l) => return l,
                None => {},
            }
            i = i + 1;
        }
        Language::Eng
    }

    pub open spec fn spec_code(self) -> &'static str {
        match self {
            Language::Eng => "eng",
            Language::Zhs => "zhs",
        }
    }

    /// The short code of the language.
    pub fn code(self) -> (r: &'static str)
        ensures
            r == self.spec_code(),
    {
        match self {
            Language::Eng => "eng",
            Language::Zhs => "zhs",
        }
    }
}

/// The code of a language names that language.
pub proof fn lemma_code_round_trip(language: Language)
    ensures
        language_of_code(language.spec_code()@) == Some(language),
{
    reveal_strlit("eng");
    reveal_strlit("zhs");
    reveal_strlit("en");
    reveal_strlit("en-us");
    reveal_strlit("en-gb");
    let s = language.spec_code()@;
    assert(trim_start_index(s, 0) == 0);
    assert(trim_end_index(s, 3) == 3);
    assert(trimmed(s) =~= s);
    assert(normalized_code(s) =~= s);
}

/// The texts in one language.
#[derive(Clone, Copy, Debug)]
pub struct Localization {
    language: Language,
}

/// The text of the first entry under the key, in the language.
pub open spec fn lookup_entry(entries: Seq<LocalizedEntry>, key: Seq<char>, language: Language) -> Option<&'static str>
    decreases entries.len(),
{
    if entries.len() == 0 {
        None
    } else if entries[0].key@ == key {
        Some(
            match language {
                Language::Eng => entries[0].eng,
                Language::Zhs => entries[0].zhs,
            },
        )
    } else {
        lookup_entry(entries.drop_first(), key, language)
    }
}

fn lookup(entries: &Vec<LocalizedEntry>, key: &str, language: Language) -> (r: Option<&'static str>)
    ensures
        r == lookup_entry(entries@, key@, language),
{
    let n = entries.len();
    let mut i: usize = 0;
    proof {
        assert(entries@.skip(0) =~= entries@);
    }
    while i < n
        invariant
            n == entries@.len(),
            i <= n,
            lookup_entry(entries@, key@, language) == lookup_entry(entries@.skip(i as int), key@, language),
        decreases n - i,
    {
        proof {
            assert(entries@.skip(i as int)[0] == entries@[i as int]);
            assert(entries@.skip(i as int).drop_first() =~= entries@.skip(i + 1));
        }
        let e = entries[i];
        if str_eq(e.key, key) {
            return Some(
                match language {
                    Language::Eng => e.eng,
                    Language::Zhs => e.zhs,
                },
            );
        }
        i = i + 1;
    }
    None
}

impl Localization {
    pub closed spec fn spec_language(self) -> Language {
        self.language
    }

    pub fn new(language: Language) -> (r: Localization)
        ensures
            r.spec_language() == language,
    {
        Localization { language }
    }

    pub fn language(self) -> (r: Language)
        ensures
            r == self.spec_language(),
    {
        self.language
    }

    pub fn set_language(&mut self, language: Language)
        ensures
            final(self).spec_language() == language,
    {
        self.language = language;
    }

    /// The interface string under the key; the key itself when there is none.
    pub open spec fn spec_ui(self, key: &'static str) -> &'static str {
        match lookup_entry(ui_table(), key@, self.spec_language()) {
            Some(t) => t,
            None => key,
        }
    }

    pub fn ui(self, key: &'static str) -> (r: &'static str)
        ensures
            r == self.spec_ui(key),
    {
        let table = ui_text();
        match lookup(&table, key, self.language) {
            Some(t) => t,
            None => key,
        }
    }

    /// The name of an entity; a label made from its key when the table has none.
    pub open spec fn spec_entity_name(self, loc_key: LocKey) -> Seq<char> {
        match lookup_entry(entity_table(), loc_key.key@, self.spec_language()) {
            Some(t) => t@,
            None => fallback_text(loc_key.key@),
        }
    }

    pub fn entity_name(self, loc_key: LocKey) -> (r: String)
        ensures
            r@ == self.spec_entity_name(loc_key),
    {
        let table = entity_names();
        match lookup(&table, loc_key.as_str(), self.language) {
            Some(t) => owned(t),
            None => fallback_label(loc_key.as_str()),
        }
    }

    /// The text of a cost: `-` for none, the number, `X`, or the word for unplayable.
    pub open spec fn spec_cost(self, cost: CardCost) -> Seq<char> {
        match cost {
            CardCost::NoCost => "-"@,
            CardCost::Fixed(v) => int_text(v as int),
            CardCost::X => "X"@,
            CardCost::Unplayable => self.spec_ui("cost.unplayable")@,
        }
    }

    pub fn cost(self, cost: CardCost) -> (r: String)
        ensures
            r@ == self.spec_cost(cost),
    {
        proof {
            reveal_strlit("");
        }
        match cost {
            CardCost::NoCost => owned("-"),
            CardCost::Fixed(v) => {
                let r = text_num("", v as i64, "");
                assert(r@ =~= int_text(v as int));
                r
            },
            CardCost::X => owned("X"),
            CardCost::Unplayable => owned(self.ui("cost.unplayable")),
        }
    }

    /// The line of card text in the language.
    pub fn card_text_line(self, line: &CardTextLine) -> (r: String)
        ensures
            r@ == match self.spec_language() {
                Language::Eng => line.eng@,
                Language::Zhs => line.zhs@,
            },
    {
        match self.language {
            Language::Eng => line.eng.clone(),
            Language::Zhs => line.zhs.clone(),
        }
    }

    /// The words for a monster's intent.
    pub open spec fn spec_intent(self, intent: MonsterIntent) -> Seq<char> {
        match (self.spec_language(), intent) {
            (Language::Eng, MonsterIntent::Attack { amount }) => "attack "@ + int_text(amount as int),
            (Language::Eng, MonsterIntent::AttackAndBlock { attack, block }) => "attack "@ + int_text(attack as int) + ", block "@ + int_text(block as int),
            (Language::Eng, MonsterIntent::Buff) => "buff"@,
            (Language::Eng, MonsterIntent::Block { amount }) => "block "@ + int_text(amount as int),
            (Language::Eng, MonsterIntent::Debuff) => "debuff"@,
            (Language::Eng, MonsterIntent::Unknown) => "unknown"@,
            (Language::Zhs, MonsterIntent::Attack { amount }) => "攻击 "@ + int_text(amount as int),
            (Language::Zhs, MonsterIntent::AttackAndBlock { attack, block }) => "攻击 "@ + int_text(attack as int) + "，格挡 "@ + int_text(block as int),
            (Language::Zhs, MonsterIntent::Buff) => "强化"@,
            (Language::Zhs, MonsterIntent::Block { amount }) => "格挡 "@ + int_text(amount as int),
            (Language::Zhs, MonsterIntent::Debuff) => "负面效果"@,
            (Language::Zhs, MonsterIntent::Unknown) => "未知"@,
        }
    }

    pub fn intent(self, intent: MonsterIntent) -> (r: String)
        ensures
            r@ == self.spec_intent(intent),
    {
        let r = match (self.language, intent) {
            (Language::Eng, MonsterIntent::Attack { amount }) => text_num("attack ", amount as i64, ""),
            (Language::Eng, MonsterIntent::AttackAndBlock { attack, block }) => text_num2("attack ", attack as i64, ", block ", block as i64, ""),
            (Language::Eng, MonsterIntent::Buff) => owned("buff"),
            (Language::Eng, MonsterIntent::Block { amount }) => text_num("block ", amount as i64, ""),
            (Language::Eng, MonsterIntent::Debuff) => owned("debuff"),
            (Language::Eng, MonsterIntent::Unknown) => owned("unknown"),
            (Language::Zhs, MonsterIntent::Attack { amount }) => text_num("攻击 ", amount as i64, ""),
            (Language::Zhs, MonsterIntent::AttackAndBlock { attack, block }) => text_num2("攻击 ", attack as i64, "，格挡 ", block as i64, ""),
            (Language::Zhs, MonsterIntent::Buff) => owned("强化"),
            (Language::Zhs, MonsterIntent::Block { amount }) => text_num("格挡 ", amount as i64, ""),
            (Language::Zhs, MonsterIntent::Debuff) => owned("负面效果"),
            (Language::Zhs, MonsterIntent::Unknown) => owned("未知"),
        };
        proof {
            reveal_strlit("");
        }
        assert(r@ =~= self.spec_intent(intent));
        r
    }

    pub fn format_unknown_command(self, input: &str) -> (r: String)
        ensures
            r@ == match self.spec_language() {
                Language::Eng => "unknown command: "@ + input@,
                Language::Zhs => "未知命令："@ + input@,
            },
    {
        match self.language {
            Language::Eng => append_str(owned("unknown command: "), input),
            Language::Zhs => append_str(owned("未知命令："), input),
        }
    }

    pub fn format_invalid_monster_index(self, value: &str) -> (r: String)
        ensures
            r@ == match self.spec_language() {
                Language::Eng => "invalid monster index: "@ + value@,
                Language::Zhs => "怪物序号无效："@ + value@,
            },
    {
        match self.language {
            Language::Eng => append_str(owned("invalid monster index: "), value),
            Language::Zhs => append_str(owned("怪物序号无效："), value),
        }
    }

    pub open spec fn spec_no_card_text(self, index: usize) -> Seq<char> {
        match self.spec_language() {
            Language::Eng => "no card at hand index "@ + digits(index as nat),
            Language::Zhs => "手牌位置 "@ + digits(index as nat) + " 没有牌"@,
        }
    }

    pub fn format_no_card_at_hand_index(self, index: usize) -> (r: String)
        ensures
            r@ == self.spec_no_card_text(index),
    {
        match self.language {
            Language::Eng => {
                let mut s = owned("no card at hand index ");
                push_digits(&mut s, index as u64);
                s
            },
            Language::Zhs => {
                let mut s = owned("手牌位置 ");
                push_digits(&mut s, index as u64);
                append_str(s, " 没有牌")
            },
        }
    }

    pub open spec fn spec_started_text(self, seed: u64) -> Seq<char> {
        match self.spec_language() {
            Language::Eng => "started test combat with seed "@ + digits(seed as nat),
            Language::Zhs => "已使用种子 "@ + digits(seed as nat) + " 开始测试战斗"@,
        }
    }

    pub fn format_started_test_combat(self, seed: u64) -> (r: String)
        ensures
            r@ == self.spec_started_text(seed),
    {
        match self.language {
            Language::Eng => {
                let mut s = owned("started test combat with seed ");
                push_digits(&mut s, seed);
                s
            },
            Language::Zhs => {
                let mut s = owned("已使用种子 ");
                push_digits(&mut s, seed);
                append_str(s, " 开始测试战斗")
            },
        }
    }

    pub open spec fn spec_language_changed_text(self) -> Seq<char> {
        match self.spec_language() {
            Language::Eng => "language set to English"@,
            Language::Zhs => "语言已切换为简体中文"@,
        }
    }

    pub fn format_language_changed(self) -> (r: String)
        ensures
            r@ == self.spec_language_changed_text(),
    {
        match self.language {
            Language::Eng => owned("language set to English"),
            Language::Zhs => owned("语言已切换为简体中文"),
        }
    }

    pub open spec fn spec_play_card_text(self, label: Seq<char>) -> Seq<char> {
        match self.spec_language() {
            Language::Eng => "play "@ + label,
            Language::Zhs => "打出 "@ + label,
        }
    }

    pub fn format_play_card(self, label: &str) -> (r: String)
        ensures
            r@ == self.spec_play_card_text(label@),
    {
        match self.language {
            Language::Eng => append_str(owned("play "), label),
            Language::Zhs => append_str(owned("打出 "), label),
        }
    }
}

/// A localization is its language: after `set_language`, it is the one
/// `Localization::new` makes with that language, so every text method
/// answers as that one would.
pub proof fn lemma_set_then_language(after: Localization, fresh: Localization, language: Language)
    requires
        after.spec_language() == language,
        fresh.spec_language() == language,
    ensures
        after == fresh,
{
}

/// Where the table has no entry, a name is the label made from its key.
pub proof fn lemma_missing_name_falls_back(loc: Localization, loc_key: LocKey)
    requires
        lookup_entry(entity_table(), loc_key.key@, loc.spec_language()) is None,
    ensures
        loc.spec_entity_name(loc_key) == fallback_text(loc_key.key@),
{
}

// ---------------------------------------------------------------------------
// Labels made from keys
// ---------------------------------------------------------------------------

/// What `char::to_uppercase` yields for a character.
pub uninterp spec fn upper_chars(c: char) -> Seq<char>;

/// ASCII upper-casing of one character; other characters are kept.
pub open spec fn spec_ascii_upper(c: char) -> char {
    if 'a' <= c && c <= 'z' {
        ((c as u32) - 32) as char
    } else {
        c
    }
}

/// The upper case of a character: its ASCII capital for an ASCII character,
/// what `char::to_uppercase` yields otherwise.
pub open spec fn upper_of(c: char) -> Seq<char> {
    if (c as u32) < 128 {
        seq![spec_ascii_upper(c)]
    } else {
        upper_chars(c)
    }
}

/// Calls `char::to_uppercase`. Its documentation gives the ASCII cases: a
/// lower-case ASCII letter maps to its capital, any other ASCII character to
/// itself. For other characters the result is left to the name `upper_chars`.
#[verifier::external_body]
fn to_uppercase(c: char) -> (r: Vec<char>)
    ensures
        r@ == upper_chars(c),
        (c as u32) < 128 ==> r@ == seq![spec_ascii_upper(c)],
{
    c.to_uppercase().collect()
}

/// Position of the last `.` before `j`, or -1.
pub open spec fn last_dot(s: Seq<char>, j: int) -> int
    decreases j,
{
    if j <= 0 {
        -1
    } else if s[j - 1] == '.' {
        j - 1
    } else {
        last_dot(s, j - 1)
    }
}

/// The part of a key after its last `.`.
pub open spec fn key_stem(s: Seq<char>) -> Seq<char> {
    s.subrange(last_dot(s, s.len() as int) + 1, s.len() as int)
}

/// The label of the stem from position `i`: words split at `_`, empty words
/// dropped, each word's first character upper-cased and the rest lower-cased
/// (ASCII), words joined by single spaces.
pub open spec fn label_from(s: Seq<char>, i: int, at_start: bool, emitted: bool) -> Seq<char>
    decreases s.len() - i,
{
    if i >= s.len() || i < 0 {
        Seq::empty()
    } else if s[i] == '_' {
        label_from(s, i + 1, true, emitted)
    } else if at_start {
        (if emitted { seq![' '] } else { Seq::empty() }) + upper_of(s[i]) + label_from(s, i + 1, false, true)
    } else {
        seq![spec_ascii_lower(s[i])] + label_from(s, i + 1, false, emitted)
    }
}

/// The label made from a key: the label of its stem, or the key itself when that is empty.
pub open spec fn fallback_text(key: Seq<char>) -> Seq<char> {
    let label = label_from(key_stem(key), 0, true, false);
    if label.len() == 0 {
        key
    } else {
        label
    }
}

pub proof fn lemma_last_dot_bounds(s: Seq<char>, j: int)
    requires
        0 <= j <= s.len(),
    ensures
        -1 <= last_dot(s, j) < j,
    decreases j,
{
    if j > 0 && s[j - 1] != '.' {
        lemma_last_dot_bounds(s, j - 1);
    }
}

/// A readable label made from a key such as `card.UNKNOWN_CARD`: `Unknown Card`.
pub fn fallback_label(key: &str) -> (r: String)
    ensures
        r@ == fallback_text(key@),
{
    let chars = str_chars(key);
    let n = chars.len();
    let mut d: usize = n;
    while d > 0 && chars[d - 1] != '.'
        invariant
            n == chars@.len(),
            d <= n,
            last_dot(chars@, n as int) == last_dot(chars@, d as int),
        decreases d,
    {
        d = d - 1;
    }
    proof {
        lemma_last_dot_bounds(chars@, n as int);
    }
    let start: usize = d;
    let ghost stem = chars@.subrange(start as int, n as int);
    assert(stem == key_stem(key@));
    let mut out: Vec<char> = Vec::new();
    let mut at_start = true;
    let mut emitted = false;
    let mut i: usize = start;
    while i < n
        invariant
            n == chars@.len(),
            start <= i <= n,
            stem == chars@.subrange(start as int, n as int),
            out@ + label_from(stem, i - start, at_start, emitted) == label_from(stem, 0, true, false),
        decreases n - i,
    {
        let c = chars[i];
        let ghost before = out@;
        let ghost (a0, e0) = (at_start, emitted);
        assert(stem[i - start] == c);
        if c == '_' {
            at_start = true;
        } else if at_start {
            if emitted {
                out.push(' ');
            }
            let up = to_uppercase(c);
            let m = up.len();
            let ghost mid = out@;
            for k in 0..m
                invariant
                    m == up@.len(),
                    out@ == mid + up@.take(k as int),
            {
                out.push(up[k]);
                proof {
                    assert(out@ =~= mid + up@.take((k + 1) as int));
                }
            }
            proof {
                assert(up@.take(m as int) =~= up@);
            }
            at_start = false;
            emitted = true;
        } else {
            out.push(ascii_lower(c));
        }
        proof {
            assert(out@ + label_from(stem, i + 1 - start, at_start, emitted) =~= before + label_from(stem, i - start, a0, e0));
        }
        i = i + 1;
    }
    proof {
        assert(out@ =~= label_from(stem, 0, true, false));
    }
    if out.len() == 0 {
        owned(key)
    } else {
        crate::text::string_of(&out)
    }
}

/// The name of a card type.
pub open spec fn card_type_label(language: Language, card_type: CardType) -> &'static str {
    match (language, card_type) {
            (Language::Eng, CardType::Attack) => "attack",
            (Language::Eng, CardType::Skill) => "skill",
            (Language::Eng, CardType::Power) => "power",
            (Language::Eng, CardType::Status) => "status",
            (Language::Eng, CardType::Curse) => "curse",
            (Language::Eng, CardType::Quest) => "quest",
            (Language::Zhs, CardType::Attack) => "攻击",
            (Language::Zhs, CardType::Skill) => "技能",
            (Language::Zhs, CardType::Power) => "能力",
            (Language::Zhs, CardType::Status) => "状态",
            (Language::Zhs, CardType::Curse) => "诅咒",
            (Language::Zhs, CardType::Quest) => "任务",
    }
}

impl Localization {
    pub fn card_type(self, card_type: CardType) -> (r: &'static str)
        ensures
            r == card_type_label(self.spec_language(), card_type),
    {
        match (self.language, card_type) {
                (Language::Eng, CardType::Attack) => "attack",
                (Language::Eng, CardType::Skill) => "skill",
                (Language::Eng, CardType::Power) => "power",
                (Language::Eng, CardType::Status) => "status",
                (Language::Eng, CardType::Curse) => "curse",
                (Language::Eng, CardType::Quest) => "quest",
                (Language::Zhs, CardType::Attack) => "攻击",
                (Language::Zhs, CardType::Skill) => "技能",
                (Language::Zhs, CardType::Power) => "能力",
                (Language::Zhs, CardType::Status) => "状态",
                (Language::Zhs, CardType::Curse) => "诅咒",
                (Language::Zhs, CardType::Quest) => "任务",
        }
    }
}

/// The name of a target type.
pub open spec fn target_type_label(language: Language, target: TargetType) -> &'static str {
    match (language, target) {
            (Language::Eng, TargetType::Untargeted) => "none",
            (Language::Eng, TargetType::Enemy) => "enemy",
            (Language::Eng, TargetType::AllEnemies) => "all enemies",
            (Language::Eng, TargetType::RandomEnemy) => "random enemy",
            (Language::Eng, TargetType::SelfTarget) => "self",
            (Language::Eng, TargetType::AnyPlayer) => "player",
            (Language::Eng, TargetType::AnyAlly) => "ally",
            (Language::Eng, TargetType::AllAllies) => "all allies",
            (Language::Eng, TargetType::AnyCreature) => "any creature",
            (Language::Eng, TargetType::TargetedNoCreature) => "target",
            (Language::Eng, TargetType::Osty) => "osty",
            (Language::Zhs, TargetType::Untargeted) => "无",
            (Language::Zhs, TargetType::Enemy) => "敌人",
            (Language::Zhs, TargetType::AllEnemies) => "全体敌人",
            (Language::Zhs, TargetType::RandomEnemy) => "随机敌人",
            (Language::Zhs, TargetType::SelfTarget) => "自身",
            (Language::Zhs, TargetType::AnyPlayer) => "玩家",
            (Language::Zhs, TargetType::AnyAlly) => "友方",
            (Language::Zhs, TargetType::AllAllies) => "全体友方",
            (Language::Zhs, TargetType::AnyCreature) => "任意单位",
            (Language::Zhs, TargetType::TargetedNoCreature) => "目标",
            (Language::Zhs, TargetType::Osty) => "奥斯蒂",
    }
}

impl Localization {
    pub fn target_type(self, target: TargetType) -> (r: &'static str)
        ensures
            r == target_type_label(self.spec_language(), target),
    {
        match (self.language, target) {
                (Language::Eng, TargetType::Untargeted) => "none",
                (Language::Eng, TargetType::Enemy) => "enemy",
                (Language::Eng, TargetType::AllEnemies) => "all enemies",
                (Language::Eng, TargetType::RandomEnemy) => "random enemy",
                (Language::Eng, TargetType::SelfTarget) => "self",
                (Language::Eng, TargetType::AnyPlayer) => "player",
                (Language::Eng, TargetType::AnyAlly) => "ally",
                (Language::Eng, TargetType::AllAllies) => "all allies",
                (Language::Eng, TargetType::AnyCreature) => "any creature",
                (Language::Eng, TargetType::TargetedNoCreature) => "target",
                (Language::Eng, TargetType::Osty) => "osty",
                (Language::Zhs, TargetType::Untargeted) => "无",
                (Language::Zhs, TargetType::Enemy) => "敌人",
                (Language::Zhs, TargetType::AllEnemies) => "全体敌人",
                (Language::Zhs, TargetType::RandomEnemy) => "随机敌人",
                (Language::Zhs, TargetType::SelfTarget) => "自身",
                (Language::Zhs, TargetType::AnyPlayer) => "玩家",
                (Language::Zhs, TargetType::AnyAlly) => "友方",
                (Language::Zhs, TargetType::AllAllies) => "全体友方",
                (Language::Zhs, TargetType::AnyCreature) => "任意单位",
                (Language::Zhs, TargetType::TargetedNoCreature) => "目标",
                (Language::Zhs, TargetType::Osty) => "奥斯蒂",
        }
    }
}

/// The name of a combat phase.
pub open spec fn phase_label(language: Language, phase: CombatPhase) -> &'static str {
    match (language, phase) {
            (Language::Eng, CombatPhase::CombatStart) => "combat start",
            (Language::Eng, CombatPhase::PlayerStart) => "player start",
            (Language::Eng, CombatPhase::PlayerAction) => "player action",
            (Language::Eng, CombatPhase::PlayerEnd) => "player end",
            (Language::Eng, CombatPhase::EnemyAction) => "enemy action",
            (Language::Eng, CombatPhase::EnemyEnd) => "enemy end",
            (Language::Eng, CombatPhase::Victory) => "victory",
            (Language::Eng, CombatPhase::Defeat) => "defeat",
            (Language::Zhs, CombatPhase::CombatStart) => "战斗开始",
            (Language::Zhs, CombatPhase::PlayerStart) => "玩家回合开始",
            (Language::Zhs, CombatPhase::PlayerAction) => "玩家行动",
            (Language::Zhs, CombatPhase::PlayerEnd) => "玩家回合结束",
            (Language::Zhs, CombatPhase::EnemyAction) => "敌方行动",
            (Language::Zhs, CombatPhase::EnemyEnd) => "敌方回合结束",
            (Language::Zhs, CombatPhase::Victory) => "胜利",
            (Language::Zhs, CombatPhase::Defeat) => "失败",
    }
}

impl Localization {
    pub fn phase(self, phase: CombatPhase) -> (r: &'static str)
        ensures
            r == phase_label(self.spec_language(), phase),
    {
        match (self.language, phase) {
                (Language::Eng, CombatPhase::CombatStart) => "combat start",
                (Language::Eng, CombatPhase::PlayerStart) => "player start",
                (Language::Eng, CombatPhase::PlayerAction) => "player action",
                (Language::Eng, CombatPhase::PlayerEnd) => "player end",
                (Language::Eng, CombatPhase::EnemyAction) => "enemy action",
                (Language::Eng, CombatPhase::EnemyEnd) => "enemy end",
                (Language::Eng, CombatPhase::Victory) => "victory",
                (Language::Eng, CombatPhase::Defeat) => "defeat",
                (Language::Zhs, CombatPhase::CombatStart) => "战斗开始",
                (Language::Zhs, CombatPhase::PlayerStart) => "玩家回合开始",
                (Language::Zhs, CombatPhase::PlayerAction) => "玩家行动",
                (Language::Zhs, CombatPhase::PlayerEnd) => "玩家回合结束",
                (Language::Zhs, CombatPhase::EnemyAction) => "敌方行动",
                (Language::Zhs, CombatPhase::EnemyEnd) => "敌方回合结束",
                (Language::Zhs, CombatPhase::Victory) => "胜利",
                (Language::Zhs, CombatPhase::Defeat) => "失败",
        }
    }
}

/// The name of a card keyword.
pub open spec fn keyword_label(language: Language, keyword: CardKeyword) -> &'static str {
    match (language, keyword) {
            (Language::Eng, CardKeyword::Exhaust) => "Exhaust",
            (Language::Eng, CardKeyword::Innate) => "Innate",
            (Language::Eng, CardKeyword::Unplayable) => "Unplayable",
            (Language::Eng, CardKeyword::Ethereal) => "Ethereal",
            (Language::Eng, CardKeyword::Temporary) => "Temporary",
            (Language::Eng, CardKeyword::PurgeOnUse) => "Purge",
            (Language::Eng, CardKeyword::FreeThisTurn) => "Free this turn",
            (Language::Eng, CardKeyword::Retain) => "Retain",
            (Language::Eng, CardKeyword::Sly) => "Sly",
            (Language::Eng, CardKeyword::Eternal) => "Eternal",
            (Language::Zhs, CardKeyword::Exhaust) => "消耗",
            (Language::Zhs, CardKeyword::Innate) => "固有",
            (Language::Zhs, CardKeyword::Unplayable) => "不能打出",
            (Language::Zhs, CardKeyword::Ethereal) => "虚无",
            (Language::Zhs, CardKeyword::Temporary) => "临时",
            (Language::Zhs, CardKeyword::PurgeOnUse) => "使用后移除",
            (Language::Zhs, CardKeyword::FreeThisTurn) => "本回合免费",
            (Language::Zhs, CardKeyword::Retain) => "保留",
            (Language::Zhs, CardKeyword::Sly) => "机敏",
            (Language::Zhs, CardKeyword::Eternal) => "永恒",
    }
}

impl Localization {
    pub fn card_keyword(self, keyword: CardKeyword) -> (r: &'static str)
        ensures
            r == keyword_label(self.spec_language(), keyword),
    {
        match (self.language, keyword) {
                (Language::Eng, CardKeyword::Exhaust) => "Exhaust",
                (Language::Eng, CardKeyword::Innate) => "Innate",
                (Language::Eng, CardKeyword::Unplayable) => "Unplayable",
                (Language::Eng, CardKeyword::Ethereal) => "Ethereal",
                (Language::Eng, CardKeyword::Temporary) => "Temporary",
                (Language::Eng, CardKeyword::PurgeOnUse) => "Purge",
                (Language::Eng, CardKeyword::FreeThisTurn) => "Free this turn",
                (Language::Eng, CardKeyword::Retain) => "Retain",
                (Language::Eng, CardKeyword::Sly) => "Sly",
                (Language::Eng, CardKeyword::Eternal) => "Eternal",
                (Language::Zhs, CardKeyword::Exhaust) => "消耗",
                (Language::Zhs, CardKeyword::Innate) => "固有",
                (Language::Zhs, CardKeyword::Unplayable) => "不能打出",
                (Language::Zhs, CardKeyword::Ethereal) => "虚无",
                (Language::Zhs, CardKeyword::Temporary) => "临时",
                (Language::Zhs, CardKeyword::PurgeOnUse) => "使用后移除",
                (Language::Zhs, CardKeyword::FreeThisTurn) => "本回合免费",
                (Language::Zhs, CardKeyword::Retain) => "保留",
                (Language::Zhs, CardKeyword::Sly) => "机敏",
                (Language::Zhs, CardKeyword::Eternal) => "永恒",
        }
    }
}

} // verus!
