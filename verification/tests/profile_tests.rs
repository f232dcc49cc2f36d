use clire_combat::adapters::tui::profile::{detect_color_mode, ColorMode, TerminalEnv, TerminalProfile};

fn env(term: &str, colorterm: &str, tty: bool) -> TerminalEnv {
    TerminalEnv { term: term.to_string(), no_color: false, ci: false, stdout_is_tty: tty, colorterm: colorterm.to_string() }
}

fn args(list: &[&str]) -> Vec<String> {
    list.iter().map(|a| a.to_string()).collect()
}

#[test]
fn colorterm_truecolor_wins_in_any_case() {
    assert_eq!(detect_color_mode("xterm-256color", "TrueColor"), ColorMode::TrueColor);
    assert_eq!(detect_color_mode("xterm", "24BIT"), ColorMode::TrueColor);
}

#[test]
fn term_names_the_colour_count() {
    assert_eq!(detect_color_mode("xterm-256color", ""), ColorMode::Ansi256);
    assert_eq!(detect_color_mode("xterm", ""), ColorMode::Ansi16);
    assert_eq!(detect_color_mode("dumb", ""), ColorMode::NoColor);
    assert_eq!(detect_color_mode("", ""), ColorMode::NoColor);
}

#[test]
fn rich_terminal_profile() {
    let p = TerminalProfile::detect(&env("xterm-256color", "", true), &args(&[]));
    assert_eq!(p.color, ColorMode::Ansi256);
    assert!(p.unicode);
    assert!(p.animation);
    assert!(!p.use_plain_renderer());
    assert_eq!(p.label(), "256-color/unicode/anim");
}

#[test]
fn dumb_terminal_is_plain_and_mono() {
    let p = TerminalProfile::detect(&env("dumb", "truecolor", true), &args(&[]));
    assert!(p.use_plain_renderer());
    assert_eq!(p.color, ColorMode::NoColor);
    assert!(!p.unicode);
    assert!(!p.animation);
    assert_eq!(p.label(), "mono/ascii/static");
}

#[test]
fn no_color_and_ci_are_honoured() {
    let mut e = env("xterm", "", true);
    e.no_color = true;
    e.ci = true;
    let p = TerminalProfile::detect(&e, &args(&[]));
    assert_eq!(p.color, ColorMode::NoColor);
    assert!(!p.animation);
}

#[test]
fn arguments_apply_in_order() {
    let p = TerminalProfile::detect(&env("xterm", "", false), &args(&["--tui", "--ascii", "--color=RGB", "--native-blink"]));
    assert!(!p.use_plain_renderer());
    assert!(!p.unicode);
    assert_eq!(p.color, ColorMode::TrueColor);
    assert!(p.native_blink);
    assert_eq!(p.label(), "truecolor/ascii/anim/blink");
}

#[test]
fn unknown_color_value_leaves_the_mode() {
    let p = TerminalProfile::detect(&env("xterm", "", true), &args(&["--color=purple", "--unknown"]));
    assert_eq!(p.color, ColorMode::Ansi16);
}

#[test]
fn plain_renderer_turns_off_colour_animation_and_blink() {
    let p = TerminalProfile::detect(&env("xterm-256color", "", true), &args(&["--native-blink", "--anim", "--plain"]));
    assert!(p.use_plain_renderer());
    assert_eq!(p.color, ColorMode::NoColor);
    assert!(!p.animation);
    assert!(!p.native_blink);
}
