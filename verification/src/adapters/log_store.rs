//! What a session's step log records, and the name of its file.
use vstd::prelude::*;

use crate::log::{outcome_name, outcome_text, step_log, LogEntry, StepResult};
use crate::text::{digits, owned, push_char, push_digits};

verus! {

/// The directory the step logs are written to.
pub const LOG_DIR: &'static str = "logs";

/// The entries a step logged.
pub fn step_entries(result: &StepResult) -> (r: &Vec<LogEntry>)
    ensures
        r@ == step_log(*result),
{
    match result {
        StepResult::Done(log) => log,
        StepResult::NeedChoice(_, log) => log,
        StepResult::CombatOver(_, log) => log,
        StepResult::Rejected(_, log) => log,
        StepResult::Failed(_, log) => log,
    }
}

pub open spec fn result_text(result: StepResult) -> &'static str {
    match result {
        StepResult::Done(_) => "done",
        StepResult::NeedChoice(_, _) => "need_choice",
        StepResult::CombatOver(_, _) => "combat_over",
        StepResult::Rejected(_, _) => "rejected",
        StepResult::Failed(_, _) => "failed",
    }
}

/// The name of a step's result.
pub fn result_name(result: &StepResult) -> (r: &'static str)
    ensures
        r == result_text(*result),
{
    match result {
        StepResult::Done(_) => "done",
        StepResult::NeedChoice(_, _) => "need_choice",
        StepResult::CombatOver(_, _) => "combat_over",
        StepResult::Rejected(_, _) => "rejected",
        StepResult::Failed(_, _) => "failed",
    }
}

/// A character a file name may keep: ASCII letters and digits, `-` and `_`.
pub open spec fn file_safe(c: char) -> bool {
    ('a' <= c && c <= 'z') || ('A' <= c && c <= 'Z') || ('0' <= c && c <= '9') || c == '-' || c == '_'
}

pub open spec fn fragment_char(c: char) -> char {
    if file_safe(c) {
        c
    } else {
        '-'
    }
}

/// The characters without leading dashes.
pub open spec fn trim_dashes_start(s: Seq<char>) -> Seq<char>
    decreases s.len(),
{
    if s.len() > 0 && s[0] == '-' {
        trim_dashes_start(s.drop_first())
    } else {
        s
    }
}

/// The characters without trailing dashes.
pub open spec fn trim_dashes_end(s: Seq<char>) -> Seq<char>
    decreases s.len(),
{
    if s.len() > 0 && s.last() == '-' {
        trim_dashes_end(s.drop_last())
    } else {
        s
    }
}

/// A session's name made safe for a file name: characters a file name may
/// not hold become `-`, dashes at either end go, and an empty result becomes
/// `session`.
pub open spec fn fragment_text(input: Seq<char>) -> Seq<char> {
    let t = trim_dashes_end(trim_dashes_start(input.map_values(|c: char| fragment_char(c))));
    if t.len() == 0 {
        "session"@
    } else {
        t
    }
}

proof fn lemma_trim_start_is_suffix(s: Seq<char>)
    ensures
        exists|k: int| 0 <= k <= s.len() && trim_dashes_start(s) == s.skip(k),
    decreases s.len(),
{
    if s.len() > 0 && s[0] == '-' {
        lemma_trim_start_is_suffix(s.drop_first());
        let k = choose|k: int| 0 <= k <= s.drop_first().len() && trim_dashes_start(s.drop_first()) == s.drop_first().skip(k);
        assert(s.drop_first().skip(k) =~= s.skip(k + 1));
    } else {
        assert(s.skip(0) =~= s);
    }
}

proof fn lemma_trim_end_is_prefix(s: Seq<char>)
    ensures
        exists|k: int| 0 <= k <= s.len() && trim_dashes_end(s) == s.take(k),
    decreases s.len(),
{
    if s.len() > 0 && s.last() == '-' {
        lemma_trim_end_is_prefix(s.drop_last());
        let k = choose|k: int| 0 <= k <= s.drop_last().len() && trim_dashes_end(s.drop_last()) == s.drop_last().take(k);
        assert(s.drop_last().take(k) =~= s.take(k));
    } else {
        assert(s.take(s.len() as int) =~= s);
    }
}

proof fn lemma_trim_start_first(s: Seq<char>)
    ensures
        trim_dashes_start(s).len() > 0 ==> trim_dashes_start(s)[0] != '-',
    decreases s.len(),
{
    if s.len() > 0 && s[0] == '-' {
        lemma_trim_start_first(s.drop_first());
    }
}

proof fn lemma_trim_end_ends(s: Seq<char>)
    ensures
        trim_dashes_end(s).len() > 0 ==> trim_dashes_end(s).last() != '-',
        trim_dashes_end(s).len() > 0 && s.len() > 0 && s[0] != '-' ==> trim_dashes_end(s)[0] != '-',
    decreases s.len(),
{
    if s.len() > 0 && s.last() == '-' {
        lemma_trim_end_ends(s.drop_last());
    }
}

/// The fragment is never empty, holds only characters a file name may hold,
/// and neither starts nor ends with a dash.
pub proof fn lemma_fragment_is_safe(input: Seq<char>)
    ensures
        fragment_text(input).len() > 0,
        forall|i: int| 0 <= i < fragment_text(input).len() ==> file_safe(#[trigger] fragment_text(input)[i]),
        fragment_text(input)[0] != '-',
        fragment_text(input).last() != '-',
{
    let m = input.map_values(|c: char| fragment_char(c));
    let a = trim_dashes_start(m);
    let t = trim_dashes_end(a);
    lemma_trim_start_is_suffix(m);
    lemma_trim_end_is_prefix(a);
    lemma_trim_start_first(m);
    lemma_trim_end_ends(a);
    reveal_strlit("session");
    if t.len() > 0 {
        let k1 = choose|k: int| 0 <= k <= m.len() && a == m.skip(k);
        let k2 = choose|k: int| 0 <= k <= a.len() && t == a.take(k);
        assert forall|i: int| 0 <= i < t.len() implies file_safe(#[trigger] t[i]) by {
            assert(t[i] == m[i + k1]);
        }
    }
}

/// The session's name, made safe for a file name.
pub fn filename_fragment(input: &str) -> (r: String)
    ensures
        r@ == fragment_text(input@),
{
    let n = input.unicode_len();
    let mut mapped: Vec<char> = Vec::new();
    for i in 0..n
        invariant
            n == input@.len(),
            mapped@ == input@.take(i as int).map_values(|c: char| fragment_char(c)),
    {
        let c = input.get_char(i);
        let ok = ('a' <= c && c <= 'z') || ('A' <= c && c <= 'Z') || ('0' <= c && c <= '9') || c == '-' || c == '_';
        mapped.push(if ok { c } else { '-' });
        proof {
            assert(mapped@ =~= input@.take((i + 1) as int).map_values(|c: char| fragment_char(c)));
        }
    }
    proof {
        assert(input@.take(n as int) =~= input@);
    }
    let ghost m = mapped@;
    let mut start: usize = 0;
    proof {
        assert(m.skip(0) =~= m);
    }
    while start < n && mapped[start] == '-'
        invariant
            n == m.len(),
            mapped@ == m,
            start <= n,
            trim_dashes_start(m) == trim_dashes_start(m.skip(start as int)),
        decreases n - start,
    {
        proof {
            assert(m.skip(start as int).drop_first() =~= m.skip(start + 1));
        }
        start = start + 1;
    }
    proof {
        assert(trim_dashes_start(m.skip(start as int)) == m.skip(start as int));
    }
    let ghost a = m.skip(start as int);
    let mut end: usize = n;
    proof {
        assert(a.take(a.len() as int) =~= a);
    }
    while end > start && mapped[end - 1] == '-'
        invariant
            n == m.len(),
            mapped@ == m,
            start <= end <= n,
            a == m.skip(start as int),
            trim_dashes_end(a) == trim_dashes_end(a.take(end - start)),
        decreases end,
    {
        proof {
            assert(a.take(end - start).drop_last() =~= a.take(end - 1 - start));
        }
        end = end - 1;
    }
    let mut out = String::new();
    let mut i = start;
    while i < end
        invariant
            mapped@ == m,
            start <= i <= end <= n,
            n == m.len(),
            out@ == m.subrange(start as int, i as int),
        decreases end - i,
    {
        push_char(&mut out, mapped[i]);
        proof {
            assert(out@ =~= m.subrange(start as int, (i + 1) as int));
        }
        i = i + 1;
    }
    proof {
        assert(out@ =~= a.take(end - start));
        assert(trim_dashes_end(a.take(end - start)) == a.take(end - start));
    }
    if out.unicode_len() == 0 {
        owned("session")
    } else {
        out
    }
}

/// The head of a step's record: its number, label, result and the count of
/// its entries, then the choice, the outcome or the error where there is one.
pub open spec fn record_head(step: u64, label: Seq<char>, result: StepResult) -> Seq<char> {
    let base = "step: "@ + digits(step as nat) + "\nlabel: "@ + label + "\nresult: "@ + result_text(result)@ + "\nentries: "@
        + digits(step_log(result).len()) + "\n"@;
    match result {
        StepResult::NeedChoice(kind, _) => base + "choice: "@ + kind@ + "\n"@,
        StepResult::CombatOver(outcome, _) => base + "combat_result: "@ + outcome_text(outcome) + "\n"@,
        StepResult::Rejected(error, _) => base + "error: "@ + error@ + "\n"@,
        StepResult::Failed(error, _) => base + "error: "@ + error@ + "\n"@,
        StepResult::Done(_) => base,
    }
}

/// The head of a step's record, as written to the log.
pub fn record_step_head(step: u64, label: &str, result: &StepResult) -> (r: String)
    ensures
        r@ == record_head(step, label@, *result),
{
    let mut s = owned("step: ");
    push_digits(&mut s, step);
    s.append("\nlabel: ");
    s.append(label);
    s.append("\nresult: ");
    s.append(result_name(result));
    s.append("\nentries: ");
    push_digits(&mut s, step_entries(result).len() as u64);
    s.append("\n");
    match result {
        StepResult::NeedChoice(kind, _) => {
            s.append("choice: ");
            s.append(kind.as_str());
            s.append("\n");
        },
        StepResult::CombatOver(outcome, _) => {
            s.append("combat_result: ");
            s.append(outcome_name(*outcome));
            s.append("\n");
        },
        StepResult::Rejected(error, _) => {
            s.append("error: ");
            s.append(error.as_str());
            s.append("\n");
        },
        StepResult::Failed(error, _) => {
            s.append("error: ");
            s.append(error.as_str());
            s.append("\n");
        },
        StepResult::Done(_) => {},
    }
    s
}

} // verus!
