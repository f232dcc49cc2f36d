use clire_combat::assets::localization::{Language, Localization};
use clire_combat::ids::LocKey;

#[test]
fn resolves_current_card_names_in_both_languages() {
    let eng = Localization::new(Language::Eng);
    let zhs = Localization::new(Language::Zhs);

    assert_eq!(eng.entity_name(LocKey::new("card.BATTLE_TRANCE")), "Battle Trance");
    assert_eq!(zhs.entity_name(LocKey::new("card.BATTLE_TRANCE")), "战斗专注");
}

#[test]
fn missing_entries_fall_back_to_stable_labels() {
    let loc = Localization::new(Language::Zhs);

    assert_eq!(loc.entity_name(LocKey::new("card.UNKNOWN_CARD")), "Unknown Card");
}
