use clire_combat::content::cards::curses::curse_card_defs;
use clire_combat::content::cards::ironclad::ironclad_card_defs;
use clire_combat::content::cards::tokens::token_card_defs;
use clire_combat::content::cards::CardPoolId;
use clire_combat::ids::{
    BAD_LUCK, BODY_SLAM, DECAY, DOUBT, ENTHRALLED, GIANT_ROCK, NORMALITY, REGRET, SHAME, SLOTH, WHIRLWIND,
};
use clire_combat::registry_static::StaticRegistry;
use clire_combat::state::CardCost;

#[test]
fn ironclad_pool_matches_sts2_source_count() {
    assert_eq!(ironclad_card_defs().len(), 87);
}

#[test]
fn standard_registry_contains_ironclad_cards_and_generated_tokens() {
    let registry = StaticRegistry::standard();
    for def in ironclad_card_defs() {
        assert!(registry.cards.contains(def.id), "missing {:?}", def.id);
    }
    assert!(registry.cards.contains(GIANT_ROCK));
}

#[test]
fn upgraded_costs_are_defined_for_cost_upgrade_cards() {
    let registry = StaticRegistry::standard();
    let body_slam = registry.cards.get(BODY_SLAM).unwrap();
    assert_eq!(body_slam.costs_for(false).energy, CardCost::Fixed(1));
    assert_eq!(body_slam.costs_for(true).energy, CardCost::Fixed(0));

    let whirlwind = registry.cards.get(WHIRLWIND).unwrap();
    assert_eq!(whirlwind.costs_for(false).energy, CardCost::X);
}

#[test]
fn curse_pool_size_matches_sts2_source_count() {
    assert_eq!(curse_card_defs().len(), 18);
}

#[test]
fn standard_registry_contains_curse_pool() {
    let registry = StaticRegistry::standard();
    for def in curse_card_defs() {
        assert!(registry.cards.contains(def.id), "missing {:?}", def.id);
        assert_eq!(def.pool, CardPoolId::Curse);
    }
}

#[test]
fn turn_end_curses_carry_on_event_rule() {
    let registry = StaticRegistry::standard();
    for id in [BAD_LUCK, DECAY, DOUBT, REGRET, SHAME] {
        let def = registry.cards.get(id).expect("curse registered");
        assert!(def.rules.on_event.is_some(), "{:?} must keep its turn-end-in-hand rule", id);
    }
}

#[test]
fn play_preventing_curses_carry_decide_rule() {
    let registry = StaticRegistry::standard();
    for id in [NORMALITY, ENTHRALLED] {
        let def = registry.cards.get(id).expect("curse registered");
        assert!(def.rules.decide.is_some(), "{:?} must keep its play-prevention rule", id);
    }
}

#[test]
fn token_pool_size_matches_sts2_source_count() {
    assert_eq!(token_card_defs().len(), 13);
}

#[test]
fn standard_registry_contains_token_pool() {
    let registry = StaticRegistry::standard();
    for def in token_card_defs() {
        assert!(registry.cards.contains(def.id), "missing {:?}", def.id);
        assert_eq!(def.pool, CardPoolId::Token);
    }
    assert!(registry.cards.contains(GIANT_ROCK));
}

#[test]
fn sloth_carries_decide_rule() {
    let registry = StaticRegistry::standard();
    let sloth = registry.cards.get(SLOTH).unwrap();
    assert!(sloth.rules.decide.is_some(), "SLOTH must keep its play-prevention rule");
}

#[test]
fn standard_registry_registers_cards_in_catalogue_order() {
    let registry = StaticRegistry::standard();
    let ironclad = ironclad_card_defs();
    let curses = curse_card_defs();
    let tokens = token_card_defs();
    let values = registry.cards.values();
    assert_eq!(values.len(), ironclad.len() + 1 + curses.len() + tokens.len());
    for (i, def) in ironclad.iter().enumerate() {
        assert_eq!(values[i].id, def.id);
        assert_eq!(values[i].pool, CardPoolId::Ironclad);
    }
    assert_eq!(values[ironclad.len()].id, GIANT_ROCK);
    for (i, def) in curses.iter().enumerate() {
        assert_eq!(values[ironclad.len() + 1 + i].id, def.id);
        assert_eq!(values[ironclad.len() + 1 + i].rules, def.rules);
    }
    for (i, def) in tokens.iter().enumerate() {
        assert_eq!(values[ironclad.len() + 1 + curses.len() + i].id, def.id);
    }
}
