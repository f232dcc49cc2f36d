use clire_combat::adapters::tui::animation::{AnimationClock, VisualEffect};
use clire_combat::adapters::tui::profile::{ColorMode, TerminalProfile};
use clire_combat::adapters::tui::symbols::{Symbols, UiSymbol};
use clire_combat::adapters::tui::theme::{Theme, UiColor, UiRole, UiStyle};

fn profile(color: ColorMode, unicode: bool) -> TerminalProfile {
    TerminalProfile { color, unicode, animation: true, native_blink: false, plain_renderer: false }
}

#[test]
fn mono_styles_use_modifiers_only() {
    let theme = Theme::new(profile(ColorMode::NoColor, true));
    assert_eq!(theme.style(UiRole::Title), UiStyle { fg: None, bg: None, bold: true, dim: false, reversed: false });
    assert_eq!(theme.style(UiRole::CardSelected), UiStyle { fg: None, bg: None, bold: false, dim: false, reversed: true });
    assert_eq!(theme.style(UiRole::Panel), UiStyle { fg: None, bg: None, bold: false, dim: true, reversed: false });
    assert_eq!(theme.style(UiRole::Base), UiStyle { fg: None, bg: None, bold: false, dim: false, reversed: false });
}

#[test]
fn ansi16_selected_card_is_black_on_yellow_and_bold() {
    let theme = Theme::new(profile(ColorMode::Ansi16, true));
    assert_eq!(
        theme.style(UiRole::CardSelected),
        UiStyle { fg: Some(UiColor::Black), bg: Some(UiColor::Yellow), bold: true, dim: false, reversed: false }
    );
}

#[test]
fn ansi256_and_truecolor_colours() {
    let theme = Theme::new(profile(ColorMode::Ansi256, true));
    assert_eq!(theme.style(UiRole::Ironclad).fg, Some(UiColor::Indexed(88)));
    assert!(theme.style(UiRole::Ironclad).bold);
    let theme = Theme::new(profile(ColorMode::TrueColor, true));
    assert_eq!(theme.style(UiRole::Monster).fg, Some(UiColor::Rgb(222, 139, 240)));
    assert!(theme.style(UiRole::Muted).dim);
}

#[test]
fn pulse_alternates_within_its_period() {
    let pulse = VisualEffect::Pulse { first: UiRole::Title, second: UiRole::Prompt, period_ticks: 12 };
    assert_eq!(pulse.role(true, 0), UiRole::Title);
    assert_eq!(pulse.role(true, 5), UiRole::Title);
    assert_eq!(pulse.role(true, 6), UiRole::Prompt);
    assert_eq!(pulse.role(true, 11), UiRole::Prompt);
    assert_eq!(pulse.role(true, 12), UiRole::Title);
    assert_eq!(pulse.role(false, 7), UiRole::Title);
    let short = VisualEffect::Pulse { first: UiRole::Title, second: UiRole::Prompt, period_ticks: 1 };
    assert_eq!(short.role(true, 1), UiRole::Title);
}

#[test]
fn clock_advances_one_tick() {
    let mut clock = AnimationClock::default();
    assert_eq!(clock.tick(), 0);
    clock.advance();
    clock.advance();
    assert_eq!(clock.tick(), 2);
}

#[test]
fn symbols_follow_the_charset() {
    assert_eq!(Symbols::new(profile(ColorMode::Ansi16, true)).get(UiSymbol::Heart), "\u{2665}");
    assert_eq!(Symbols::new(profile(ColorMode::Ansi16, false)).get(UiSymbol::Heart), "HP");
    assert_eq!(Symbols::new(profile(ColorMode::Ansi16, false)).get(UiSymbol::Draw), "DRW");
}
