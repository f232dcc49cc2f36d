use clire_combat::adapters::log_store::{filename_fragment, record_step_head, result_name, step_entries};
use clire_combat::adapters::tui::summary::summarize_step;
use clire_combat::assets::localization::{Language, Localization};
use clire_combat::ids::{CardInstanceId, CreatureId};
use clire_combat::log::{CombatOutcome, DamageResult, LogEntry, StateChange, StepResult};

fn damage(hp_loss: i32) -> LogEntry {
    LogEntry::StateChanged(StateChange::DamageApplied(DamageResult {
        dealer: Some(CreatureId(0)),
        target: CreatureId(1),
        hp_loss,
    }))
}

#[test]
fn finished_step_reports_its_log() {
    let loc = Localization::new(Language::Eng);
    let log = vec![
        damage(6),
        damage(0),
        LogEntry::StateChanged(StateChange::BlockGained { target: CreatureId(0), amount: 5 }),
        LogEntry::Other,
    ];
    let messages = summarize_step("play Strike", StepResult::Done(log), &loc);
    assert_eq!(messages.len(), 3);
    assert_eq!(
        messages[0],
        format!("play Strike: {} (4 {})", loc.ui("status.done"), loc.ui("unit.log_entries"))
    );
    assert_eq!(
        messages[1],
        format!("{} Some(CreatureId(0)) -> CreatureId(1): 6 {}", loc.ui("log.damage"), loc.ui("label.hp"))
    );
    assert_eq!(messages[2], format!("{} CreatureId(0): +5", loc.ui("log.block")));
}

#[test]
fn log_summary_stops_after_four_messages() {
    let loc = Localization::new(Language::Eng);
    let log = vec![
        damage(1),
        damage(2),
        LogEntry::StateChanged(StateChange::CreatureDied { creature: CreatureId(1) }),
        LogEntry::StateChanged(StateChange::CardsShuffled { cards: vec![CardInstanceId(0), CardInstanceId(1)] }),
        LogEntry::CombatEnded(CombatOutcome::Victory),
    ];
    let messages = summarize_step("end turn", StepResult::Done(log), &loc);
    assert_eq!(messages.len(), 5);
    assert_eq!(messages[3], format!("{}: CreatureId(1)", loc.ui("log.creature_died")));
    assert_eq!(messages[4], format!("{} 2 {}", loc.ui("log.shuffled"), loc.ui("log.cards")));
}

#[test]
fn other_results_report_one_line() {
    let loc = Localization::new(Language::Eng);
    let refused = summarize_step("end turn", StepResult::Rejected("not now".to_string(), vec![damage(3)]), &loc);
    assert_eq!(refused, vec![format!("end turn: {} (1 {}): not now", loc.ui("status.rejected"), loc.ui("unit.log_entries"))]);
    let over = summarize_step("end turn", StepResult::CombatOver(CombatOutcome::Defeat, Vec::new()), &loc);
    assert_eq!(over, vec![format!("end turn: {} Defeat (0 {})", loc.ui("status.combat_ended"), loc.ui("unit.log_entries"))]);
    let choice = summarize_step("play", StepResult::NeedChoice("PickCard".to_string(), Vec::new()), &loc);
    assert_eq!(
        choice,
        vec![format!("play: {} PickCard (0 {})", loc.ui("status.choice_requested"), loc.ui("unit.log_entries"))]
    );
    let failed = summarize_step("play", StepResult::Failed("broken".to_string(), Vec::new()), &loc);
    assert_eq!(failed, vec![format!("play: {} (0 {}): broken", loc.ui("status.failed"), loc.ui("unit.log_entries"))]);
}

#[test]
fn file_name_fragments_are_safe() {
    assert_eq!(filename_fragment("tui"), "tui");
    assert_eq!(filename_fragment("  my session!  "), "my-session");
    assert_eq!(filename_fragment("a/b_c-d"), "a-b_c-d");
    assert_eq!(filename_fragment("***"), "session");
    assert_eq!(filename_fragment(""), "session");
    assert_eq!(filename_fragment("战斗"), "session");
}

#[test]
fn step_records_name_the_result() {
    let done = StepResult::Done(vec![LogEntry::Other, LogEntry::Other]);
    assert_eq!(result_name(&done), "done");
    assert_eq!(step_entries(&done).len(), 2);
    assert_eq!(record_step_head(3, "end turn", &done), "step: 3\nlabel: end turn\nresult: done\nentries: 2\n");
    let refused = StepResult::Rejected("no".to_string(), Vec::new());
    assert_eq!(result_name(&refused), "rejected");
    assert_eq!(record_step_head(1, "x", &refused), "step: 1\nlabel: x\nresult: rejected\nentries: 0\nerror: no\n");
    let over = StepResult::CombatOver(CombatOutcome::Victory, Vec::new());
    assert_eq!(result_name(&over), "combat_over");
    assert!(record_step_head(2, "y", &over).ends_with("combat_result: Victory\n"));
}
