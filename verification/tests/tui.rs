use clire_combat::adapters::tui::driver::build_demo_engine;
use clire_combat::adapters::tui::view::CombatSnapshot;
use clire_combat::assets::localization::{Language, Localization};
use clire_combat::content::powers::{PowerDecideRule, PowerDef, PowerRules};
use clire_combat::ids::{LocKey, PowerId};
use clire_combat::registry_static::StaticRegistry;

#[test]
fn three_nibbit_test_combat_builds_three_monsters() {
    let registry = StaticRegistry::standard();
    let engine = build_demo_engine(&registry, 7, 3);
    let loc = Localization::new(Language::Eng);
    let snapshot = CombatSnapshot::from_engine(&engine, &loc);

    assert_eq!(snapshot.monsters.len(), 3);
    assert!(snapshot.monsters.iter().all(|monster| monster.alive));
    assert!(snapshot.monsters.iter().all(|monster| monster.label == "Nibbit"));
}

#[test]
fn dead_non_revivable_monsters_are_hidden_from_snapshot() {
    let registry = StaticRegistry::standard();
    let mut engine = build_demo_engine(&registry, 7, 3);
    let first_monster = engine.state.combat().unwrap().monster_ids()[0];
    engine.state.mark_dead(first_monster).unwrap();
    let loc = Localization::new(Language::Eng);

    let snapshot = CombatSnapshot::from_engine(&engine, &loc);

    assert_eq!(snapshot.monsters.len(), 2);
    assert!(snapshot.monsters.iter().all(|monster| monster.alive));
}

fn retain_after_death_def() -> PowerDef {
    PowerDef {
        id: TEST_RETAIN_AFTER_DEATH,
        loc_key: LocKey::new("power.test_retain_after_death"),
        rules: PowerRules { decide: Some(PowerDecideRule::KeepOwnerAfterDeath), ..PowerRules::default() },
    }
}

const TEST_RETAIN_AFTER_DEATH: PowerId = PowerId::Custom(1);

#[test]
fn dead_monsters_that_prevent_removal_stay_in_snapshot() {
    let mut registry = StaticRegistry::standard();
    registry.powers.register(retain_after_death_def());
    let mut engine = build_demo_engine(&registry, 7, 2);
    let first_monster = engine.state.combat().unwrap().monster_ids()[0];
    engine.state.apply_power(first_monster, TEST_RETAIN_AFTER_DEATH, 1).unwrap();
    engine.state.mark_dead(first_monster).unwrap();
    let loc = Localization::new(Language::Eng);

    let snapshot = CombatSnapshot::from_engine(&engine, &loc);

    assert_eq!(snapshot.monsters.len(), 2);
    assert!(snapshot.monsters.iter().any(|monster| !monster.alive));
}
