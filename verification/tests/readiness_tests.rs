use clire_combat::adapters::tui::profile::{TerminalEnv, TerminalProfile};
use clire_combat::adapters::tui::view::{is_snapshot_ready, CombatSnapshot};
use clire_combat::assets::localization::{fallback_label, Language, Localization};
use clire_combat::content::card_text::{card_text_fits, describe_card, display_costs, CardTextCtx, CardTextScope};
use clire_combat::content::cards::CardPoolId;
use clire_combat::content::scenarios::random_combat_deck;
use clire_combat::engine::Engine;
use clire_combat::ids::{
    CardId, CardInstanceId, CreatureId, BASH, CORRUPTION_POWER, CRUELTY_POWER, DEFEND_IRONCLAD, LIGHTNING_ORB,
    RAMPAGE, STRENGTH, STRIKE_IRONCLAD, TEAR_ASUNDER, VULNERABLE,
};
use clire_combat::registry_static::StaticRegistry;
use clire_combat::setup::{single_player_test_combat, CombatSetupCard, CombatSetupMonster};
use clire_combat::state::{CardCost, CardCosts, CardCounter};

fn one_monster() -> Vec<CombatSetupMonster> {
    vec![CombatSetupMonster { model: None, max_hp: 30 }]
}

fn env() -> TerminalEnv {
    TerminalEnv {
        term: "xterm-256color".to_string(),
        no_color: false,
        ci: false,
        stdout_is_tty: true,
        colorterm: String::new(),
    }
}

fn args(list: &[&str]) -> Vec<String> {
    list.iter().map(|a| a.to_string()).collect()
}

#[test]
fn large_strength_still_previews_damage() {
    let registry = StaticRegistry::standard();
    let mut state = single_player_test_combat(
        1,
        vec![CombatSetupCard { def: STRIKE_IRONCLAD, upgraded: false, costs: CardCosts::energy(1) }],
        one_monster(),
        80,
        3,
        1,
    );
    state.apply_power(CreatureId(0), STRENGTH, 1 << 21).unwrap();
    assert!(is_snapshot_ready(&state, &registry));
    let ctx = CardTextCtx { state: &state, registry: &registry, target: Some(CreatureId(1)), scope: CardTextScope::Hand };
    let text = describe_card(&ctx, CardInstanceId(0));
    assert_eq!(text.lines[0].eng, format!("Deal {} damage.", 6 + (1 << 21)));
    let engine = Engine::with_registry(state, &registry);
    let loc = Localization::new(Language::Eng);
    let snapshot = CombatSnapshot::from_engine(&engine, &loc);
    assert_eq!(snapshot.hand.len(), 1);
}

#[test]
fn cruelty_at_the_top_of_i32_is_not_ready() {
    let registry = StaticRegistry::standard();
    let mut state = single_player_test_combat(
        1,
        vec![CombatSetupCard { def: STRIKE_IRONCLAD, upgraded: false, costs: CardCosts::energy(1) }],
        one_monster(),
        80,
        3,
        1,
    );
    state.apply_power(CreatureId(0), CRUELTY_POWER, i32::MAX - 99).unwrap();
    assert!(!is_snapshot_ready(&state, &registry));
    let mut fitting = single_player_test_combat(
        1,
        vec![CombatSetupCard { def: STRIKE_IRONCLAD, upgraded: false, costs: CardCosts::energy(1) }],
        one_monster(),
        80,
        3,
        1,
    );
    fitting.apply_power(CreatureId(0), CRUELTY_POWER, i32::MAX - 100).unwrap();
    assert!(is_snapshot_ready(&fitting, &registry));
}

#[test]
fn rampage_counter_past_i32_is_not_ready() {
    let registry = StaticRegistry::standard();
    let mut state = single_player_test_combat(
        1,
        vec![CombatSetupCard { def: RAMPAGE, upgraded: false, costs: CardCosts::energy(1) }],
        one_monster(),
        80,
        3,
        1,
    );
    state.add_card_counter(CardInstanceId(0), CardCounter::DamageIncrease, i32::MAX - 9).unwrap();
    let ctx = CardTextCtx { state: &state, registry: &registry, target: None, scope: CardTextScope::Pile };
    assert!(card_text_fits(&ctx, CardInstanceId(0)));
    state.add_card_counter(CardInstanceId(0), CardCounter::DamageIncrease, 1).unwrap();
    let ctx = CardTextCtx { state: &state, registry: &registry, target: None, scope: CardTextScope::Pile };
    assert!(!card_text_fits(&ctx, CardInstanceId(0)));
    assert!(!is_snapshot_ready(&state, &registry));
}

#[test]
fn tear_asunder_needs_room_for_its_hits() {
    let registry = StaticRegistry::standard();
    let state = single_player_test_combat(
        1,
        vec![CombatSetupCard { def: TEAR_ASUNDER, upgraded: false, costs: CardCosts::energy(2) }],
        one_monster(),
        80,
        3,
        1,
    );
    let ctx = CardTextCtx { state: &state, registry: &registry, target: None, scope: CardTextScope::Pile };
    assert!(card_text_fits(&ctx, CardInstanceId(0)));
    assert_eq!(describe_card(&ctx, CardInstanceId(0)).lines[0].eng, "Deal 5 damage.");
}

#[test]
fn corruption_makes_defend_free_in_hand_only() {
    let registry = StaticRegistry::standard();
    let mut state = single_player_test_combat(
        1,
        vec![CombatSetupCard { def: DEFEND_IRONCLAD, upgraded: false, costs: CardCosts::energy(1) }],
        one_monster(),
        80,
        3,
        1,
    );
    state.apply_power(CreatureId(0), CORRUPTION_POWER, 1).unwrap();
    let hand = CardTextCtx { state: &state, registry: &registry, target: None, scope: CardTextScope::Hand };
    assert_eq!(display_costs(&hand, CardInstanceId(0)).energy, CardCost::Fixed(0));
    let pile = CardTextCtx { state: &state, registry: &registry, target: None, scope: CardTextScope::Pile };
    assert_eq!(display_costs(&pile, CardInstanceId(0)).energy, CardCost::Fixed(1));
}

#[test]
fn standard_registry_stores_the_catalogue_definitions() {
    let registry = StaticRegistry::standard();
    let bash = registry.cards.get(BASH).unwrap();
    assert_eq!(bash.pool, CardPoolId::Ironclad);
    assert_eq!(bash.loc_key.key, "card.BASH");
    let rock = registry.cards.get(CardId::GiantRock).unwrap();
    assert_eq!(rock.pool, CardPoolId::Token);
    assert_eq!(registry.powers.get(CORRUPTION_POWER).unwrap().loc_key.key, "power.corruption");
    assert_eq!(registry.powers.get(VULNERABLE).unwrap().loc_key.key, "power.vulnerable");
    assert_eq!(registry.orbs.get(LIGHTNING_ORB).unwrap().loc_key.key, "orb.lightning");
}

#[test]
fn fallback_labels_capitalise_ascii_words() {
    assert_eq!(fallback_label("power.AGGRESSION_POWER"), "Aggression Power");
    assert_eq!(fallback_label("card.UNKNOWN_CARD"), "Unknown Card");
}

#[test]
fn last_renderer_and_glyph_flags_win() {
    let p = TerminalProfile::detect(&env(), &args(&["--plain", "--tui"]));
    assert!(!p.plain_renderer);
    let p = TerminalProfile::detect(&env(), &args(&["--tui", "--ascii", "--plain"]));
    assert!(p.plain_renderer);
    assert!(!p.unicode);
    let p = TerminalProfile::detect(&env(), &args(&["--ascii", "--unicode", "--rich"]));
    assert!(p.unicode);
    assert!(!p.plain_renderer);
}

#[test]
fn random_deck_cards_come_from_generable_definitions() {
    let registry = StaticRegistry::standard();
    let deck = random_combat_deck(&registry, 99, 30);
    assert_eq!(deck.len(), 30);
    for card in &deck {
        let def = registry.cards.get(card.def).unwrap();
        assert!(def.can_generate_in_combat);
        assert!(!card.upgraded);
        assert_eq!(card.costs, def.costs_for(false));
    }
}
