use clire_combat::amount::Amount;
use clire_combat::content::monsters::{nibbit_intent, MonsterIntent};
use clire_combat::effect::{DamageKind, Source};
use clire_combat::ids::{CardInstanceId, CreatureId, NIBBIT, STRENGTH, VULNERABLE, WEAK};
use clire_combat::pipeline::{pipeline_modify_damage, should_remove_creature_after_death};
use clire_combat::registry_static::StaticRegistry;
use clire_combat::rng::{Rng, RngSet};
use clire_combat::rules::{DamageCalc, Decision, RuleCtx};
use clire_combat::setup::{single_player_test_combat, CombatSetupCard, CombatSetupMonster, StateError};
use clire_combat::state::{CardCosts, CardCounter, CardFlags, GameState, RunState};

fn combat() -> GameState {
    single_player_test_combat(
        1,
        vec![CombatSetupCard { def: clire_combat::ids::STRIKE_IRONCLAD, upgraded: false, costs: CardCosts::energy(1) }],
        vec![CombatSetupMonster { model: Some(NIBBIT), max_hp: 42 }],
        80,
        3,
        1,
    )
}

#[test]
fn state_errors() {
    let mut none = GameState { run: RunState { seed: 0 }, combat: None };
    assert_eq!(none.apply_power(CreatureId(0), STRENGTH, 1), Err(StateError::NoCombat));
    assert_eq!(none.mark_dead(CreatureId(0)), Err(StateError::NoCombat));
    let mut state = combat();
    assert_eq!(state.apply_power(CreatureId(5), STRENGTH, 1), Err(StateError::NoSuchCreature));
    assert_eq!(state.mark_dead(CreatureId(5)), Err(StateError::NoSuchCreature));
    assert_eq!(state.add_card_counter(CardInstanceId(3), CardCounter::DamageIncrease, 1), Err(StateError::NoSuchCard));
    let flags = CardFlags { ethereal: true, temporary: false, purge_on_use: false, zero_cost_this_turn: false };
    assert_eq!(state.set_card_flags(CardInstanceId(3), flags), Err(StateError::NoSuchCard));
}

#[test]
fn powers_stack_on_their_first_instance() {
    let mut state = combat();
    state.apply_power(CreatureId(0), STRENGTH, 2).unwrap();
    state.apply_power(CreatureId(0), STRENGTH, 3).unwrap();
    state.apply_power(CreatureId(0), WEAK, 1).unwrap();
    assert_eq!(state.power_amount(CreatureId(0), STRENGTH), 5);
    assert_eq!(state.power_amount(CreatureId(0), WEAK), 1);
    assert_eq!(state.combat().unwrap().powers.len(), 2);
    assert!(state.has_power(CreatureId(0), WEAK));
    assert!(!state.has_power(CreatureId(1), WEAK));
}

#[test]
fn dead_creatures_have_no_hp() {
    let mut state = combat();
    state.mark_dead(CreatureId(1)).unwrap();
    let c = state.creature(CreatureId(1)).unwrap();
    assert!(!c.alive);
    assert_eq!(c.hp, 0);
    assert!(state.alive_monster_ids().is_empty());
    assert_eq!(state.combat().unwrap().monster_ids(), vec![CreatureId(1)]);
}

#[test]
fn nothing_keeps_a_dead_monster_by_default() {
    let registry = StaticRegistry::standard();
    let mut state = combat();
    state.mark_dead(CreatureId(1)).unwrap();
    assert_eq!(should_remove_creature_after_death(&registry, &state, CreatureId(1)), Decision::Allow);
}

#[test]
fn strength_and_vulnerable_shape_attack_damage() {
    let registry = StaticRegistry::standard();
    let mut state = combat();
    state.apply_power(CreatureId(0), STRENGTH, 2).unwrap();
    state.apply_power(CreatureId(1), VULNERABLE, 1).unwrap();
    let calc = DamageCalc {
        source: Some(Source::Card(CardInstanceId(0))),
        dealer: Some(CreatureId(0)),
        target: CreatureId(1),
        kind: DamageKind::Attack,
        base_amount: Amount::from_i32(6),
        amount: Amount::from_i32(6),
    };
    let out = pipeline_modify_damage(&registry, &state, calc).unwrap();
    assert_eq!(out.amount.trunc(), Amount::from_i32(12));
}

#[test]
fn random_streams_are_deterministic() {
    let mut a = Rng::seeded(9);
    let mut b = Rng::seeded(9);
    assert_eq!(a.next_u64(), b.next_u64());
    assert_eq!(a.next_usize(0), None);
    let i = a.next_usize(7).unwrap();
    assert!(i < 7);
    let set = RngSet::seeded(9);
    assert_ne!(set.combat_card_generation.state, set.shuffle.state);
}

#[test]
fn nibbit_cycles_through_three_moves() {
    let registry = StaticRegistry::standard();
    let mut state = combat();
    let ctx = RuleCtx { state: &state, registry: &registry, listener: None };
    assert_eq!(nibbit_intent(&ctx, CreatureId(1)), MonsterIntent::Attack { amount: 12 });
    state.combat.as_mut().unwrap().creatures[1].turns_taken = 1;
    let ctx = RuleCtx { state: &state, registry: &registry, listener: None };
    assert_eq!(nibbit_intent(&ctx, CreatureId(1)), MonsterIntent::AttackAndBlock { attack: 6, block: 5 });
    state.combat.as_mut().unwrap().creatures[1].turns_taken = 5;
    let ctx = RuleCtx { state: &state, registry: &registry, listener: None };
    assert_eq!(nibbit_intent(&ctx, CreatureId(1)), MonsterIntent::Buff);
}

#[test]
fn full_nibbit_combat_is_the_built_starter_combat() {
    let strike = CombatSetupCard { def: clire_combat::ids::STRIKE_IRONCLAD, upgraded: false, costs: CardCosts::energy(1) };
    let defend = CombatSetupCard { def: clire_combat::ids::DEFEND_IRONCLAD, upgraded: false, costs: CardCosts::energy(1) };
    let deck = vec![strike, strike, strike, strike, strike, defend, defend, defend, defend];
    let monsters = vec![CombatSetupMonster { model: Some(clire_combat::ids::NIBBIT), max_hp: 42 }];
    for seed in [0u64, 5, 99] {
        let built = clire_combat::setup::build_single_player_combat(seed, deck.clone(), monsters.clone(), 50, 3, 2);
        let ready = clire_combat::content::scenarios::full_nibbit_combat(seed);
        assert_eq!(format!("{:?}", ready), format!("{:?}", built));
    }
}
