use clire_combat::adapters::cli::{monster_intent, starter_cards};
use clire_combat::adapters::tui::driver::build_demo_engine;
use clire_combat::adapters::tui::profile::{ColorMode, TerminalProfile};
use clire_combat::adapters::tui::screen::{
    card_cost_spans, hp_role, monster_hp_label, monster_label_width, selected_alive_monster_index,
    selected_display_monster_index, Focus, KeyAction, ScreenState, UiKey,
};
use clire_combat::adapters::tui::symbols::Symbols;
use clire_combat::adapters::tui::theme::{Theme, UiRole};
use clire_combat::adapters::tui::view::CombatSnapshot;
use clire_combat::assets::localization::{Language, Localization};
use clire_combat::content::monsters::MonsterIntent;
use clire_combat::content::scenarios::full_nibbit_combat;
use clire_combat::engine::Engine;
use clire_combat::ids::{CardInstanceId, CreatureId, DEFEND_IRONCLAD, STRIKE_IRONCLAD};
use clire_combat::setup::{single_player_test_combat, CombatSetupCard, CombatSetupMonster};
use clire_combat::registry_static::StaticRegistry;
use clire_combat::state::{CardCost, CardCosts};

fn ascii_profile() -> TerminalProfile {
    TerminalProfile { color: ColorMode::NoColor, unicode: false, animation: false, native_blink: false, plain_renderer: false }
}

#[test]
fn small_layout_helpers() {
    assert_eq!(monster_label_width(20), 10);
    assert_eq!(monster_label_width(30), 14);
    assert_eq!(monster_label_width(80), 24);
    assert_eq!(hp_role(10, 40), UiRole::HpLow);
    assert_eq!(hp_role(11, 40), UiRole::HpNormal);
    assert_eq!(hp_role(0, 0), UiRole::HpNormal);
}

#[test]
fn cost_spans_hide_zero_stars() {
    let loc = Localization::new(Language::Eng);
    let theme = Theme::new(ascii_profile());
    let symbols = Symbols::new(ascii_profile());
    let spans = card_cost_spans(CardCosts { energy: CardCost::Fixed(1), stars: CardCost::Fixed(0) }, symbols, loc, theme);
    let texts = spans.iter().map(|s| s.text.clone()).collect::<Vec<_>>();
    assert_eq!(texts, vec!["E ".to_string(), "1".to_string(), "  ".to_string()]);
    let spans = card_cost_spans(CardCosts { energy: CardCost::NoCost, stars: CardCost::NoCost }, symbols, loc, theme);
    assert_eq!(spans.len(), 1);
    assert_eq!(spans[0].text, "-  ");
    let spans = card_cost_spans(CardCosts { energy: CardCost::Fixed(2), stars: CardCost::Fixed(3) }, symbols, loc, theme);
    let texts = spans.iter().map(|s| s.text.clone()).collect::<Vec<_>>();
    assert_eq!(texts, vec!["E ", "2", " ", "S ", "3", "  "]);
}

fn demo_snapshot(registry: &StaticRegistry) -> CombatSnapshot {
    let mut engine = build_demo_engine(registry, 7, 3);
    engine.state.mark_dead(CreatureId(2)).ok();
    CombatSnapshot::from_engine(&engine, &Localization::new(Language::Eng))
}

#[test]
fn selection_counts_living_monsters() {
    let registry = StaticRegistry::standard();
    let snapshot = demo_snapshot(&registry);
    assert_eq!(snapshot.monsters.len(), 2);
    assert_eq!(selected_alive_monster_index(&snapshot, 1), Some(1));
    assert_eq!(selected_alive_monster_index(&snapshot, 5), None);
    assert_eq!(selected_display_monster_index(&snapshot, 5), Some(0));
    let label = monster_hp_label(&snapshot.monsters[0], Symbols::new(ascii_profile()));
    assert_eq!(label, "HP 42/42");
}

#[test]
fn keys_move_the_selection() {
    let registry = StaticRegistry::standard();
    let snapshot = demo_snapshot(&registry);
    let mut state = ScreenState::new();
    assert_eq!(state.handle_key(UiKey::Char('q'), &snapshot), KeyAction::Quit);
    assert_eq!(state.handle_key(UiKey::Char('3'), &snapshot), KeyAction::SelectCard(2));
    assert_eq!(state.handle_key(UiKey::Enter, &snapshot), KeyAction::PlayCard(0));
    assert_eq!(state.handle_key(UiKey::Down, &snapshot), KeyAction::Stay);
    assert_eq!(state.selected_monster, 1);
    assert_eq!(state.focus, Focus::Monsters);
    state.handle_key(UiKey::Down, &snapshot);
    assert_eq!(state.selected_monster, 1);
    state.handle_key(UiKey::Up, &snapshot);
    state.handle_key(UiKey::Up, &snapshot);
    assert_eq!(state.selected_monster, 0);
    state.handle_key(UiKey::Right, &snapshot);
    assert_eq!(state.selected_card, 1);
    for _ in 0..10 {
        state.handle_key(UiKey::Right, &snapshot);
    }
    assert_eq!(state.selected_card, 4);
    state.handle_key(UiKey::Char('h'), &snapshot);
    assert!(state.show_help);
    state.handle_key(UiKey::Tab, &snapshot);
    let before = state.focus;
    state.handle_key(UiKey::Tab, &snapshot);
    assert_ne!(state.focus, before);
}

#[test]
fn smoke_run_reads_its_cards_and_intent() {
    let registry = StaticRegistry::standard();
    let hand = single_player_test_combat(
        0,
        vec![
            CombatSetupCard { def: STRIKE_IRONCLAD, upgraded: false, costs: CardCosts::energy(1) },
            CombatSetupCard { def: DEFEND_IRONCLAD, upgraded: false, costs: CardCosts::energy(1) },
            CombatSetupCard { def: STRIKE_IRONCLAD, upgraded: false, costs: CardCosts::energy(1) },
        ],
        vec![CombatSetupMonster { model: None, max_hp: 30 }],
        50,
        3,
        3,
    );
    let with_hand = Engine::with_registry(hand, &registry);
    let (strike, defend) = starter_cards(&with_hand);
    assert_eq!(strike, CardInstanceId(2));
    assert_eq!(defend, CardInstanceId(1));
    let engine = Engine::with_registry(full_nibbit_combat(0), &registry);
    assert_eq!(monster_intent(&engine, CreatureId(1)), MonsterIntent::Attack { amount: 12 });
    assert_eq!(monster_intent(&engine, CreatureId(0)), MonsterIntent::Unknown);
    assert_eq!(monster_intent(&engine, CreatureId(9)), MonsterIntent::Unknown);
}
