use clire_combat::assets::rich_text::strip_rich_text;

#[test]
fn strips_style_tags_and_keeps_icon_markers() {
    assert_eq!(
        strip_rich_text("Gain [blue]1[/blue] [gold]Block[/gold] and [energy:1]."),
        "Gain 1 Block and E."
    );
}
