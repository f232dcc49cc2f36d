//! What a step of the combat reports: its log entries and how it ended.
use vstd::prelude::*;

use crate::ids::{CardInstanceId, CreatureId};
use crate::text::{digits, push_digits};

verus! {

/// How a combat ended.
#[derive(Clone, Copy, Debug, PartialEq, Eq, Structural)]
pub enum CombatOutcome {
    Victory,
    Defeat,
}

/// Damage as it was dealt.
#[derive(Clone, Copy, Debug, PartialEq, Eq, Structural)]
pub struct DamageResult {
    pub dealer: Option<CreatureId>,
    pub target: CreatureId,
    pub hp_loss: i32,
}

/// A change of the combat's state.
#[derive(Clone, Debug)]
pub enum StateChange {
    DamageApplied(DamageResult),
    BlockGained { target: CreatureId, amount: i32 },
    /// A card changed piles; `reason` names why.
    CardMoved { card: CardInstanceId, reason: String },
    CardsShuffled { cards: Vec<CardInstanceId> },
    CreatureDied { creature: CreatureId },
    /// A change the summary does not report.
    Other,
}

/// One entry of a step's log.
#[derive(Clone, Debug)]
pub enum LogEntry {
    StateChanged(StateChange),
    CombatEnded(CombatOutcome),
    /// An entry the summary does not report.
    Other,
}

/// How a step ended, with the log it wrote.
#[derive(Clone, Debug)]
pub enum StepResult {
    Done(Vec<LogEntry>),
    /// The step waits for a choice; the text names its kind.
    NeedChoice(String, Vec<LogEntry>),
    CombatOver(CombatOutcome, Vec<LogEntry>),
    /// The command was refused; the text says why.
    Rejected(String, Vec<LogEntry>),
    /// The step failed; the text says why.
    Failed(String, Vec<LogEntry>),
}

/// The log of a step, whatever its result.
pub open spec fn step_log(result: StepResult) -> Seq<LogEntry> {
    match result {
        StepResult::Done(log) => log@,
        StepResult::NeedChoice(_, log) => log@,
        StepResult::CombatOver(_, log) => log@,
        StepResult::Rejected(_, log) => log@,
        StepResult::Failed(_, log) => log@,
    }
}

/// The name of the outcome.
pub open spec fn outcome_text(outcome: CombatOutcome) -> Seq<char> {
    match outcome {
        CombatOutcome::Victory => "Victory"@,
        CombatOutcome::Defeat => "Defeat"@,
    }
}

pub fn outcome_name(outcome: CombatOutcome) -> (r: &'static str)
    ensures
        r@ == outcome_text(outcome),
{
    match outcome {
        CombatOutcome::Victory => "Victory",
        CombatOutcome::Defeat => "Defeat",
    }
}

/// A creature as the log names it: `CreatureId(n)`.
pub open spec fn creature_text(id: CreatureId) -> Seq<char> {
    "CreatureId("@ + digits(id.0 as nat) + ")"@
}

/// A card as the log names it: `CardInstanceId(n)`.
pub open spec fn card_instance_text(id: CardInstanceId) -> Seq<char> {
    "CardInstanceId("@ + digits(id.0 as nat) + ")"@
}

/// A creature that may be absent: `Some(CreatureId(n))` or `None`.
pub open spec fn opt_creature_text(id: Option<CreatureId>) -> Seq<char> {
    match id {
        Some(c) => "Some("@ + creature_text(c) + ")"@,
        None => "None"@,
    }
}

pub fn push_creature(s: &mut String, id: CreatureId)
    ensures
        final(s)@ == old(s)@ + creature_text(id),
{
    s.append("CreatureId(");
    push_digits(s, id.0 as u64);
    s.append(")");
}

pub fn push_card_instance(s: &mut String, id: CardInstanceId)
    ensures
        final(s)@ == old(s)@ + card_instance_text(id),
{
    s.append("CardInstanceId(");
    push_digits(s, id.0 as u64);
    s.append(")");
}

pub fn push_opt_creature(s: &mut String, id: Option<CreatureId>)
    ensures
        final(s)@ == old(s)@ + opt_creature_text(id),
{
    match id {
        Some(c) => {
            s.append("Some(");
            push_creature(s, c);
            s.append(")");
        },
        None => s.append("None"),
    }
}

} // verus!
