use clire_combat::content::cards::{CardDef, CardPlay, CardPoolId, CardRarity, CardRules, CardTag, CardType, TargetType};
use clire_combat::content::powers::hellraiser_on_event;
use clire_combat::effect::{CardDrawn, Effect, Event};
use clire_combat::ids::{CardId, LocKey, PowerInstanceId};
use clire_combat::registry_static::StaticRegistry;
use clire_combat::rules::RuleCtx;
use clire_combat::setup::{single_player_test_combat, CombatSetupCard, CombatSetupMonster};
use clire_combat::state::CardCosts;

fn test_card_def(id: CardId, tags: Vec<CardTag>) -> CardDef {
    CardDef {
        id,
        loc_key: LocKey::new("card.test"),
        pool: CardPoolId::Ironclad,
        card_type: CardType::Attack,
        rarity: CardRarity::Common,
        target: TargetType::Enemy,
        base_costs: CardCosts::energy(1),
        upgraded_costs: None,
        keywords: Vec::new(),
        upgraded_keywords: Vec::new(),
        tags,
        can_generate_in_combat: true,
        play: CardPlay::NoEffect,
        rules: CardRules::default(),
    }
}

fn hellraiser_effects_for(card_def: CardDef) -> Vec<Effect> {
    let id = card_def.id;
    let mut registry = StaticRegistry::empty();
    registry.cards.register(card_def);
    let state = single_player_test_combat(
        1,
        vec![CombatSetupCard { def: id, upgraded: false, costs: CardCosts::energy(1) }],
        vec![CombatSetupMonster { model: None, max_hp: 30 }],
        80,
        3,
        1,
    );
    let combat = state.combat().expect("combat exists");
    let ctx = RuleCtx { state: &state, registry: &registry, listener: None };

    hellraiser_on_event(
        &ctx,
        PowerInstanceId(1),
        &Event::CardDrawn(CardDrawn { player: combat.player.id, card: combat.player.piles.hand[0], from_hand_draw: false }),
    )
}

#[test]
fn hellraiser_uses_strike_tag_when_card_id_does_not_contain_strike() {
    let effects = hellraiser_effects_for(test_card_def(CardId::Custom(1), vec![CardTag::Strike]));

    assert!(matches!(effects.as_slice(), [Effect::ExecuteCardBody { .. }]));
}

#[test]
fn hellraiser_ignores_strike_named_cards_without_strike_tag() {
    let effects = hellraiser_effects_for(test_card_def(CardId::Custom(2), Vec::new()));

    assert!(effects.is_empty());
}
