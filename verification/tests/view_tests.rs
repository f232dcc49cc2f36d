use clire_combat::adapters::tui::driver::build_demo_engine;
use clire_combat::adapters::tui::plain::render_snapshot;
use clire_combat::adapters::tui::view::{
    cost_label, format_power, format_power_list, power_views, CardView, CombatSnapshot, CreatureView, PowerView,
};
use clire_combat::assets::localization::{Language, Localization};
use clire_combat::content::cards::TargetType;
use clire_combat::engine::Engine;
use clire_combat::ids::{CardInstanceId, CreatureId, BASH, STRENGTH, VULNERABLE};
use clire_combat::registry_static::StaticRegistry;
use clire_combat::setup::{single_player_test_combat, CombatSetupCard, CombatSetupMonster};
use clire_combat::state::{CardCost, CardCosts};

#[test]
fn cost_labels() {
    let loc = Localization::new(Language::Eng);
    assert_eq!(cost_label(CardCosts { energy: CardCost::NoCost, stars: CardCost::NoCost }, &loc), "-");
    assert_eq!(cost_label(CardCosts::energy(2), &loc), format!("{}:2", loc.ui("cost.energy")));
    assert_eq!(cost_label(CardCosts::x_energy(), &loc), format!("{}:X", loc.ui("cost.energy")));
    assert_eq!(
        cost_label(CardCosts { energy: CardCost::Fixed(1), stars: CardCost::Fixed(2) }, &loc),
        format!("{}:1/{}:2", loc.ui("cost.energy"), loc.ui("cost.stars"))
    );
}

#[test]
fn power_lists() {
    let a = PowerView { label: "Strength".to_string(), amount: 2 };
    let b = PowerView { label: "Barricade".to_string(), amount: 1 };
    assert_eq!(format_power(&a), "Strength 2");
    assert_eq!(format_power(&b), "Barricade");
    assert_eq!(format_power_list(&vec![a, b]), "Strength 2, Barricade");
    assert_eq!(format_power_list(&Vec::new()), "");
}

#[test]
fn creature_views_read_the_combat() {
    let registry = StaticRegistry::standard();
    let mut state = single_player_test_combat(
        1,
        vec![CombatSetupCard { def: BASH, upgraded: true, costs: CardCosts::energy(2) }],
        vec![CombatSetupMonster { model: None, max_hp: 30 }],
        80,
        3,
        1,
    );
    state.apply_power(CreatureId(1), VULNERABLE, 2).unwrap();
    state.apply_power(CreatureId(0), STRENGTH, 1).unwrap();
    let engine = Engine::with_registry(state, &registry);
    let loc = Localization::new(Language::Eng);

    let monster = CreatureView::from_monster(&engine, CreatureId(1), &loc);
    assert_eq!(monster.label, "CreatureId(1)");
    assert_eq!(monster.hp, 30);
    assert_eq!(monster.intent, loc.ui("label.unknown"));
    assert_eq!(monster.powers.len(), 1);
    assert_eq!(monster.powers[0].amount, 2);
    assert_eq!(power_views(&engine, CreatureId(0), &loc)[0].amount, 1);

    let missing = CreatureView::from_monster(&engine, CreatureId(9), &loc);
    assert_eq!(missing.label, loc.ui("entity.monster"));
    assert!(!missing.alive);

    let card = CardView::from_card(&engine, CardInstanceId(0), &loc, Some(&vec![CreatureId(1)]));
    assert!(card.label.ends_with('+'));
    assert_eq!(card.target, TargetType::Enemy);
    assert_eq!(card.target_descriptions.len(), 1);
    assert_eq!(card.description_for_target(Some(0)), &card.target_descriptions[0]);
    assert_eq!(card.description_for_target(Some(5)), &card.description);
    assert_eq!(card.description_for_target(None), &card.description);

    let unknown = CardView::from_card(&engine, CardInstanceId(4), &loc, None);
    assert_eq!(unknown.label, "CardInstanceId(4)");
    assert_eq!(unknown.cost, "?");
}

#[test]
fn snapshot_of_the_demo_combat() {
    let registry = StaticRegistry::standard();
    let engine = build_demo_engine(&registry, 7, 2);
    let loc = Localization::new(Language::Eng);
    let snapshot = CombatSnapshot::from_engine(&engine, &loc);
    assert_eq!(snapshot.seed, 7);
    assert_eq!(snapshot.player.hp, 80);
    assert_eq!(snapshot.player.label, loc.ui("entity.player"));
    assert_eq!(snapshot.energy, 3);
    assert_eq!(snapshot.hand.len(), 5);
    assert_eq!(snapshot.draw_pile.len(), 20);
    assert!(snapshot.discard_pile.is_empty());
    assert_eq!(snapshot.monsters[0].intent, "attack 12");
    for card in &snapshot.hand {
        assert_eq!(card.target_descriptions.len(), 2);
    }

    let lines = render_snapshot(&snapshot, &vec!["hello".to_string()], &loc);
    assert_eq!(lines[0], format!("{} | {} 7 | {} {} | lang eng", loc.ui("app.title"), loc.ui("label.seed"), loc.ui("label.phase"), loc.phase(snapshot.phase)));
    assert_eq!(lines[1], format!("{}: {} 80/80  {} 3/3", loc.ui("label.player"), loc.ui("label.hp"), loc.ui("label.energy")));
    assert_eq!(lines[2], format!("{}: {} 20  {} 0  {} 0", loc.ui("label.piles"), loc.ui("label.draw"), loc.ui("label.discard"), loc.ui("label.exhaust")));
    assert_eq!(lines[3], "");
    assert!(lines[5].starts_with("  1. Nibbit  "));
    assert_eq!(lines.last().unwrap(), "  hello");
}
