//! The messages that report a step of the combat.
use vstd::prelude::*;

use crate::adapters::tui::view::strings_view;
use crate::assets::localization::Localization;
use crate::log::{
    creature_text, opt_creature_text, outcome_name, outcome_text, push_creature, push_opt_creature, step_log,
    LogEntry, StateChange, StepResult,
};
use crate::text::{digits, int_text, owned, push_digits, push_int};

verus! {

/// Messages reported of one step's log, at most.
pub const MAX_LOG_MESSAGES: usize = 4;

/// The message a log entry is reported with, if any: damage that cost HP,
/// block gained, cards moved or shuffled, deaths and the end of the combat.
pub open spec fn entry_message(entry: LogEntry, loc: &Localization) -> Option<Seq<char>> {
    match entry {
        LogEntry::StateChanged(change) => match change {
            StateChange::DamageApplied(d) => if d.hp_loss > 0 {
                Some(
                    loc.spec_ui("log.damage")@ + " "@ + opt_creature_text(d.dealer) + " -> "@ + creature_text(d.target)
                        + ": "@ + int_text(d.hp_loss as int) + " "@ + loc.spec_ui("label.hp")@,
                )
            } else {
                None
            },
            StateChange::BlockGained { target, amount } => if amount > 0 {
                Some(loc.spec_ui("log.block")@ + " "@ + creature_text(target) + ": +"@ + int_text(amount as int))
            } else {
                None
            },
            StateChange::CardMoved { reason, .. } => Some(loc.spec_ui("log.card_moved")@ + ": "@ + reason@),
            StateChange::CardsShuffled { cards } => Some(
                loc.spec_ui("log.shuffled")@ + " "@ + digits(cards@.len()) + " "@ + loc.spec_ui("log.cards")@,
            ),
            StateChange::CreatureDied { creature } => Some(loc.spec_ui("log.creature_died")@ + ": "@ + creature_text(creature)),
            StateChange::Other => None,
        },
        LogEntry::CombatEnded(outcome) => Some(loc.spec_ui("log.combat_result")@ + ": "@ + outcome_text(outcome)),
        LogEntry::Other => None,
    }
}

/// The messages of every entry, in order.
pub open spec fn log_messages(entries: Seq<LogEntry>, loc: &Localization) -> Seq<Seq<char>>
    decreases entries.len(),
{
    if entries.len() == 0 {
        seq![]
    } else {
        let rest = log_messages(entries.drop_last(), loc);
        match entry_message(entries.last(), loc) {
            Some(m) => rest.push(m),
            None => rest,
        }
    }
}

/// The first messages of the log, up to the limit.
pub open spec fn summarized_log(entries: Seq<LogEntry>, loc: &Localization) -> Seq<Seq<char>> {
    let all = log_messages(entries, loc);
    if all.len() <= MAX_LOG_MESSAGES {
        all
    } else {
        all.take(MAX_LOG_MESSAGES as int)
    }
}

/// The messages of a prefix of the log begin the messages of a longer prefix.
pub proof fn lemma_log_messages_prefix(entries: Seq<LogEntry>, loc: &Localization, i: int, j: int)
    requires
        0 <= i <= j <= entries.len(),
    ensures
        log_messages(entries.take(i), loc).len() <= log_messages(entries.take(j), loc).len(),
        log_messages(entries.take(j), loc).take(log_messages(entries.take(i), loc).len() as int) == log_messages(
            entries.take(i),
            loc,
        ),
    decreases j - i,
{
    if i < j {
        lemma_log_messages_prefix(entries, loc, i, j - 1);
        assert(entries.take(j).drop_last() =~= entries.take(j - 1));
        let a = log_messages(entries.take(i), loc);
        let b = log_messages(entries.take(j - 1), loc);
        let c = log_messages(entries.take(j), loc);
        assert(c.take(a.len() as int) =~= b.take(a.len() as int));
    } else {
        let a = log_messages(entries.take(i), loc);
        assert(a.take(a.len() as int) =~= a);
    }
}

fn entry_message_exec(entry: &LogEntry, loc: &Localization) -> (r: Option<String>)
    ensures
        match r {
            Some(m) => entry_message(*entry, loc) == Some(m@),
            None => entry_message(*entry, loc) is None,
        },
{
    match entry {
        LogEntry::StateChanged(change) => match change {
            StateChange::DamageApplied(d) => {
                if d.hp_loss > 0 {
                    let mut s = owned(loc.ui("log.damage"));
                    s.append(" ");
                    push_opt_creature(&mut s, d.dealer);
                    s.append(" -> ");
                    push_creature(&mut s, d.target);
                    s.append(": ");
                    push_int(&mut s, d.hp_loss as i64);
                    s.append(" ");
                    s.append(loc.ui("label.hp"));
                    Some(s)
                } else {
                    None
                }
            },
            StateChange::BlockGained { target, amount } => {
                if *amount > 0 {
                    let mut s = owned(loc.ui("log.block"));
                    s.append(" ");
                    push_creature(&mut s, *target);
                    s.append(": +");
                    push_int(&mut s, *amount as i64);
                    Some(s)
                } else {
                    None
                }
            },
            StateChange::CardMoved { reason, .. } => {
                let mut s = owned(loc.ui("log.card_moved"));
                s.append(": ");
                s.append(reason.as_str());
                Some(s)
            },
            StateChange::CardsShuffled { cards } => {
                let mut s = owned(loc.ui("log.shuffled"));
                s.append(" ");
                push_digits(&mut s, cards.len() as u64);
                s.append(" ");
                s.append(loc.ui("log.cards"));
                Some(s)
            },
            StateChange::CreatureDied { creature } => {
                let mut s = owned(loc.ui("log.creature_died"));
                s.append(": ");
                push_creature(&mut s, *creature);
                Some(s)
            },
            StateChange::Other => None,
        },
        LogEntry::CombatEnded(outcome) => {
            let mut s = owned(loc.ui("log.combat_result"));
            s.append(": ");
            s.append(outcome_name(*outcome));
            Some(s)
        },
        LogEntry::Other => None,
    }
}

/// The messages of the log's entries that are reported, the first four at most.
pub fn summarize_log(log: Vec<LogEntry>, loc: &Localization) -> (r: Vec<String>)
    ensures
        strings_view(r@) == summarized_log(log@, loc),
        r@.len() <= MAX_LOG_MESSAGES,
{
    let mut out: Vec<String> = Vec::new();
    let n = log.len();
    let mut i: usize = 0;
    while i < n
        invariant
            n == log@.len(),
            i <= n,
            strings_view(out@) == log_messages(log@.take(i as int), loc),
            out@.len() < MAX_LOG_MESSAGES,
        decreases n - i,
    {
        proof {
            assert(log@.take((i + 1) as int).drop_last() =~= log@.take(i as int));
        }
        let ghost before = out@;
        match entry_message_exec(&log[i], loc) {
            Some(m) => {
                out.push(m);
                proof {
                    assert(strings_view(out@) =~= strings_view(before).push(m@));
                }
            },
            None => {},
        }
        i = i + 1;
        if out.len() >= MAX_LOG_MESSAGES {
            proof {
                lemma_log_messages_prefix(log@, loc, i as int, n as int);
                assert(log@.take(n as int) =~= log@);
                let all = log_messages(log@, loc);
                assert(all.take(MAX_LOG_MESSAGES as int) =~= log_messages(log@.take(i as int), loc));
            }
            return out;
        }
    }
    proof {
        assert(log@.take(n as int) =~= log@);
    }
    out
}

/// The head line of a step's report: the label, the result, the size of the
/// log and, for a refused or failed step, the reason.
pub open spec fn step_head(label: Seq<char>, result: StepResult, loc: &Localization) -> Seq<char> {
    let count = " ("@ + digits(step_log(result).len()) + " "@ + loc.spec_ui("unit.log_entries")@ + ")"@;
    match result {
        StepResult::Done(_) => label + ": "@ + loc.spec_ui("status.done")@ + count,
        StepResult::NeedChoice(kind, _) => label + ": "@ + loc.spec_ui("status.choice_requested")@ + " "@ + kind@ + count,
        StepResult::CombatOver(outcome, _) => label + ": "@ + loc.spec_ui("status.combat_ended")@ + " "@ + outcome_text(outcome)
            + count,
        StepResult::Rejected(error, _) => label + ": "@ + loc.spec_ui("status.rejected")@ + count + ": "@ + error@,
        StepResult::Failed(error, _) => label + ": "@ + loc.spec_ui("status.failed")@ + count + ": "@ + error@,
    }
}

/// The report of a step: its head line and, for a finished step, the
/// summary of its log.
pub open spec fn step_summary(label: Seq<char>, result: StepResult, loc: &Localization) -> Seq<Seq<char>> {
    match result {
        StepResult::Done(log) => seq![step_head(label, result, loc)] + summarized_log(log@, loc),
        _ => seq![step_head(label, result, loc)],
    }
}

fn push_count(s: &mut String, n: usize, loc: &Localization)
    ensures
        final(s)@ == old(s)@ + (" ("@ + digits(n as nat) + " "@ + loc.spec_ui("unit.log_entries")@ + ")"@),
{
    s.append(" (");
    push_digits(s, n as u64);
    s.append(" ");
    s.append(loc.ui("unit.log_entries"));
    s.append(")");
}

/// The messages that report a step.
pub fn summarize_step(label: &str, result: StepResult, loc: &Localization) -> (r: Vec<String>)
    ensures
        strings_view(r@) == step_summary(label@, result, loc),
{
    let ghost whole = result;
    let mut head = owned(label);
    head.append(": ");
    match result {
        StepResult::Done(log) => {
            head.append(loc.ui("status.done"));
            push_count(&mut head, log.len(), loc);
            let rest = summarize_log(log, loc);
            let mut out: Vec<String> = Vec::new();
            out.push(head);
            let n = rest.len();
            for i in 0..n
                invariant
                    n == rest@.len(),
                    strings_view(out@) == seq![step_head(label@, whole, loc)] + strings_view(rest@.take(i as int)),
            {
                let m = owned(rest[i].as_str());
                let ghost before = out@;
                out.push(m);
                proof {
                    assert(strings_view(out@) =~= strings_view(before).push(m@));
                    assert(strings_view(rest@.take((i + 1) as int)) =~= strings_view(rest@.take(i as int)).push(rest@[i as int]@));
                    assert(strings_view(out@) =~= seq![step_head(label@, whole, loc)] + strings_view(rest@.take((i + 1) as int)));
                }
            }
            proof {
                assert(rest@.take(n as int) =~= rest@);
            }
            out
        },
        StepResult::NeedChoice(kind, log) => {
            head.append(loc.ui("status.choice_requested"));
            head.append(" ");
            head.append(kind.as_str());
            push_count(&mut head, log.len(), loc);
            let mut out: Vec<String> = Vec::new();
            out.push(head);
            assert(strings_view(out@) =~= seq![step_head(label@, whole, loc)]);
            out
        },
        StepResult::CombatOver(outcome, log) => {
            head.append(loc.ui("status.combat_ended"));
            head.append(" ");
            head.append(outcome_name(outcome));
            push_count(&mut head, log.len(), loc);
            let mut out: Vec<String> = Vec::new();
            out.push(head);
            assert(strings_view(out@) =~= seq![step_head(label@, whole, loc)]);
            out
        },
        StepResult::Rejected(error, log) => {
            head.append(loc.ui("status.rejected"));
            push_count(&mut head, log.len(), loc);
            head.append(": ");
            head.append(error.as_str());
            let mut out: Vec<String> = Vec::new();
            out.push(head);
            assert(strings_view(out@) =~= seq![step_head(label@, whole, loc)]);
            out
        },
        StepResult::Failed(error, log) => {
            head.append(loc.ui("status.failed"));
            push_count(&mut head, log.len(), loc);
            head.append(": ");
            head.append(error.as_str());
            let mut out: Vec<String> = Vec::new();
            out.push(head);
            assert(strings_view(out@) =~= seq![step_head(label@, whole, loc)]);
            out
        },
    }
}

} // verus!
