use clire_combat::adapters::tui::driver::{
    block_suffix, build_demo_engine, display_width, handle_input, pad_display, parse_language, parse_nibbit_count,
    parse_seed, resolve_target, CombatUiAction, InputOutcome, LocalCombatDriver, MessageLog, SubmitPlan, MAX_MESSAGES,
};
use clire_combat::adapters::tui::parse::UiInput;
use clire_combat::assets::localization::{Language, Localization};
use clire_combat::engine::{Command, Engine};
use clire_combat::ids::{CardInstanceId, CreatureId, DEFEND_IRONCLAD, STRIKE_IRONCLAD, WHIRLWIND};
use clire_combat::registry_static::StaticRegistry;
use clire_combat::setup::{single_player_test_combat, CombatSetupCard, CombatSetupMonster};
use clire_combat::state::{CardCosts, Side};

fn args(list: &[&str]) -> Vec<String> {
    list.iter().map(|a| a.to_string()).collect()
}

#[test]
fn command_line_values() {
    assert_eq!(parse_seed(&args(&["--plain", "--seed=42"])), Some(42));
    assert_eq!(parse_seed(&args(&["--seed=x", "--seed=3"])), None);
    assert_eq!(parse_seed(&args(&[])), None);
    assert_eq!(parse_language(&args(&["--lang=en_US"])), Some(Language::Eng));
    assert_eq!(parse_language(&args(&["--lang=zh-Hans"])), Some(Language::Zhs));
    assert_eq!(parse_language(&args(&["--lang=fr"])), None);
    assert_eq!(parse_nibbit_count(&args(&["--nibbits=2"])), Some(2));
    assert_eq!(parse_nibbit_count(&args(&["--nibbits=0"])), None);
}

#[test]
fn display_width_counts_wide_characters_twice() {
    assert_eq!(display_width("Bash"), 4);
    assert_eq!(display_width("痛击"), 4);
    assert_eq!(pad_display("Bash", 6), "Bash  ");
    assert_eq!(pad_display("痛击", 6), "痛击  ");
    assert_eq!(pad_display("Whirlwind", 4), "Whirlwind");
}

#[test]
fn block_suffix_only_for_positive_block() {
    let loc = Localization::new(Language::Eng);
    assert_eq!(block_suffix(0, &loc), "");
    assert_eq!(block_suffix(5, &loc), format!("  {} 5", loc.ui("label.block")));
}

#[test]
fn message_log_keeps_the_newest_eight() {
    let mut log = MessageLog::new("first".to_string());
    for i in 0..10 {
        log.push_message(format!("m{i}"));
    }
    assert_eq!(log.messages().len(), MAX_MESSAGES);
    assert_eq!(log.messages()[0], "m2");
    assert_eq!(log.messages()[7], "m9");
}

#[test]
fn message_log_takes_every_message_of_a_step() {
    let mut log = MessageLog::new("start".to_string());
    log.push_messages(vec!["a".to_string(), "b".to_string(), "c".to_string()]);
    assert_eq!(log.messages(), &vec!["start".to_string(), "a".to_string(), "b".to_string(), "c".to_string()]);
    let many: Vec<String> = (0..6).map(|i| format!("s{i}")).collect();
    log.push_messages(many);
    assert_eq!(log.messages().len(), MAX_MESSAGES);
    assert_eq!(log.messages()[0], "b");
    assert_eq!(log.messages()[2], "s0");
    assert_eq!(log.messages()[7], "s5");
    log.push_messages(Vec::new());
    assert_eq!(log.messages()[0], "b");
}

#[test]
fn input_is_handed_on_or_answered() {
    let mut loc = Localization::new(Language::Eng);
    let mut log = MessageLog::new("start".to_string());
    assert_eq!(handle_input(UiInput::Quit, &mut loc, &mut log), InputOutcome::Quit);
    assert_eq!(
        handle_input(UiInput::Play { hand: 1, monster: Some(0) }, &mut loc, &mut log),
        InputOutcome::Submit(CombatUiAction::PlayHandCard { hand_index: 1, monster_index: Some(0) })
    );
    assert_eq!(log.messages().len(), 1);
    assert_eq!(handle_input(UiInput::SetLanguage(Language::Zhs), &mut loc, &mut log), InputOutcome::Continue);
    assert_eq!(loc.language(), Language::Zhs);
    assert_eq!(log.messages()[1], "语言已切换为简体中文");
    assert_eq!(handle_input(UiInput::Invalid("bad".to_string()), &mut loc, &mut log), InputOutcome::Continue);
    assert_eq!(log.messages()[2], "bad");
}

fn test_engine(registry: &StaticRegistry) -> Engine<'_> {
    let state = single_player_test_combat(
        1,
        vec![
            CombatSetupCard { def: STRIKE_IRONCLAD, upgraded: false, costs: CardCosts::energy(1) },
            CombatSetupCard { def: WHIRLWIND, upgraded: false, costs: CardCosts::x_energy() },
            CombatSetupCard { def: DEFEND_IRONCLAD, upgraded: false, costs: CardCosts::energy(1) },
        ],
        vec![CombatSetupMonster { model: None, max_hp: 30 }, CombatSetupMonster { model: None, max_hp: 20 }],
        80,
        3,
        3,
    );
    Engine::with_registry(state, registry)
}

#[test]
fn targets_follow_the_card() {
    let registry = StaticRegistry::standard();
    let mut engine = test_engine(&registry);
    let strike = CardInstanceId(0);
    let whirlwind = CardInstanceId(1);
    let defend = CardInstanceId(2);
    assert_eq!(resolve_target(&engine, strike, Some(1)), Some(CreatureId(2)));
    assert_eq!(resolve_target(&engine, strike, None), Some(CreatureId(1)));
    assert_eq!(resolve_target(&engine, strike, Some(7)), Some(CreatureId(1)));
    assert_eq!(resolve_target(&engine, whirlwind, Some(0)), None);
    assert_eq!(resolve_target(&engine, defend, Some(0)), None);
    assert_eq!(resolve_target(&engine, CardInstanceId(9), Some(1)), Some(CreatureId(2)));
    engine.state.mark_dead(CreatureId(1)).unwrap();
    assert_eq!(resolve_target(&engine, strike, None), Some(CreatureId(2)));
}

#[test]
fn driver_plans_actions() {
    let registry = StaticRegistry::standard();
    let loc = Localization::new(Language::Eng);
    let mut driver = LocalCombatDriver::new(&registry, 5, 2);
    match driver.submit(CombatUiAction::EndTurn, &loc) {
        SubmitPlan::Run { label, command } => {
            assert_eq!(label, loc.ui("action.end_turn"));
            assert_eq!(command, Command::EndTurn { side: Side::Player });
        }
        SubmitPlan::Reply(_) => panic!("end turn is a command"),
    }
    match driver.submit(CombatUiAction::PlayHandCard { hand_index: 40, monster_index: None }, &loc) {
        SubmitPlan::Reply(messages) => assert_eq!(messages, vec!["no card at hand index 41".to_string()]),
        SubmitPlan::Run { .. } => panic!("no such card"),
    }
    match driver.submit(CombatUiAction::PlayHandCard { hand_index: 0, monster_index: None }, &loc) {
        SubmitPlan::Run { label, command } => {
            assert!(label.starts_with("play "));
            match command {
                Command::PlayCard { player, card, .. } => {
                    assert_eq!(player.0, 0);
                    assert_eq!(card, driver.engine.state.combat().unwrap().player.piles.hand[0]);
                }
                Command::EndTurn { .. } => panic!("a card is played"),
            }
        }
        SubmitPlan::Reply(_) => panic!("the hand has a card"),
    }
    match driver.submit(CombatUiAction::Restart, &loc) {
        SubmitPlan::Reply(messages) => assert_eq!(messages, vec!["started test combat with seed 6".to_string()]),
        SubmitPlan::Run { .. } => panic!("restart is answered at once"),
    }
    assert_eq!(driver.seed, 6);
    assert_eq!(driver.engine.state.run.seed, 6);
}

#[test]
fn demo_combat_has_the_demo_numbers() {
    let registry = StaticRegistry::standard();
    let engine = build_demo_engine(&registry, 3, 2);
    let combat = engine.state.combat().unwrap();
    assert_eq!(combat.cards.len(), 25);
    assert_eq!(combat.player.max_energy, 3);
    assert_eq!(combat.player.piles.hand.len(), 5);
    assert_eq!(combat.creatures.len(), 3);
    assert_eq!(combat.creatures[0].max_hp, 80);
    assert_eq!(engine.state.run.seed, 3);
}

#[test]
fn every_card_of_the_demo_deck_is_dealt_once() {
    let registry = StaticRegistry::standard();
    let engine = build_demo_engine(&registry, 11, 1);
    let piles = &engine.state.combat().unwrap().player.piles;
    let mut seen = piles.draw.iter().chain(piles.hand.iter()).map(|c| c.0).collect::<Vec<_>>();
    seen.sort();
    assert_eq!(seen, (0..25).collect::<Vec<u32>>());
}
