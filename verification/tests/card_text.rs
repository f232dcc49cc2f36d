use clire_combat::content::card_text::{describe_card, CardTextCtx, CardTextScope};
use clire_combat::content::cards::CardKeyword;
use clire_combat::ids::{CardInstanceId, BASH, PACTS_END, RAMPAGE, STRENGTH, STRIKE_IRONCLAD, VULNERABLE};
use clire_combat::registry_static::StaticRegistry;
use clire_combat::setup::{single_player_test_combat, CombatSetupCard, CombatSetupMonster};
use clire_combat::state::{CardCosts, CardCounter};

fn one_monster() -> Vec<CombatSetupMonster> {
    vec![CombatSetupMonster { model: None, max_hp: 30 }]
}

#[test]
fn every_registered_ironclad_card_has_display_text() {
    let registry = StaticRegistry::standard();
    let cards = registry
        .cards
        .values()
        .iter()
        .map(|def| CombatSetupCard { def: def.id, upgraded: false, costs: def.costs_for(false) })
        .collect::<Vec<_>>();
    let state = single_player_test_combat(1, cards, one_monster(), 80, 3, 0);
    let ctx = CardTextCtx {
        state: &state,
        registry: &registry,
        target: state.alive_monster_ids().first().copied(),
        scope: CardTextScope::Pile,
    };

    let count = state.combat().unwrap().cards.len();
    for index in 0..count {
        let card = CardInstanceId(index as u32);
        let text = describe_card(&ctx, card);
        assert!(!text.lines.is_empty(), "missing text for {:?}", card);
    }
}

#[test]
fn hand_damage_preview_uses_source_and_target_modifiers() {
    let registry = StaticRegistry::standard();
    let mut state = single_player_test_combat(
        1,
        vec![CombatSetupCard { def: STRIKE_IRONCLAD, upgraded: false, costs: CardCosts::energy(1) }],
        one_monster(),
        80,
        3,
        1,
    );
    let player = state.player_creature_id().unwrap();
    let enemy = state.alive_monster_ids()[0];
    state.apply_power(player, STRENGTH, 2).unwrap();
    state.apply_power(enemy, VULNERABLE, 1).unwrap();
    let card = state.combat().unwrap().player.piles.hand[0];
    let ctx = CardTextCtx { state: &state, registry: &registry, target: Some(enemy), scope: CardTextScope::Hand };

    let text = describe_card(&ctx, card);

    assert_eq!(text.lines[0].eng, "Deal 12 damage.");
}

#[test]
fn rampage_text_uses_instance_counter() {
    let registry = StaticRegistry::standard();
    let mut state = single_player_test_combat(
        1,
        vec![CombatSetupCard { def: RAMPAGE, upgraded: false, costs: CardCosts::energy(1) }],
        one_monster(),
        80,
        3,
        1,
    );
    let enemy = state.alive_monster_ids()[0];
    let card = state.combat().unwrap().player.piles.hand[0];
    state.add_card_counter(card, CardCounter::DamageIncrease, 5).unwrap();
    let ctx = CardTextCtx { state: &state, registry: &registry, target: Some(enemy), scope: CardTextScope::Hand };

    let text = describe_card(&ctx, card);

    assert_eq!(text.lines[0].eng, "Deal 14 damage.");
}

#[test]
fn pact_end_text_keeps_play_requirement_visible() {
    let registry = StaticRegistry::standard();
    let state = single_player_test_combat(
        1,
        vec![CombatSetupCard { def: PACTS_END, upgraded: false, costs: CardCosts::energy(0) }],
        one_monster(),
        80,
        3,
        1,
    );
    let card = state.combat().unwrap().player.piles.hand[0];
    let ctx = CardTextCtx {
        state: &state,
        registry: &registry,
        target: state.alive_monster_ids().first().copied(),
        scope: CardTextScope::Hand,
    };

    let text = describe_card(&ctx, card);

    assert!(text.lines[0].eng.contains("3 or more"));
}

#[test]
fn bash_keywords_include_upgraded_dynamic_keywords() {
    let registry = StaticRegistry::standard();
    let mut state = single_player_test_combat(
        1,
        vec![CombatSetupCard { def: BASH, upgraded: false, costs: CardCosts::energy(2) }],
        one_monster(),
        80,
        3,
        1,
    );
    let card = state.combat().unwrap().player.piles.hand[0];
    let mut flags = state.card(card).unwrap().flags;
    flags.zero_cost_this_turn = true;
    state.set_card_flags(card, flags).unwrap();
    let ctx = CardTextCtx { state: &state, registry: &registry, target: None, scope: CardTextScope::Hand };

    let text = describe_card(&ctx, card);

    assert!(text.keywords.contains(&CardKeyword::FreeThisTurn));
}
