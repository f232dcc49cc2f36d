//! What the terminal can show, from its environment and the command line.
use vstd::prelude::*;

use crate::text::{
    append_str, chars_contain, chars_eq_str, chars_from, chars_start_with, lower_chars, lowered_chars,
    owned, seq_contains_sub, str_chars,
};

verus! {

/// How many colours the terminal shows.
#[derive(Clone, Copy, Debug, PartialEq, Eq, Structural)]
pub enum ColorMode {
    NoColor,
    Ansi16,
    Ansi256,
    TrueColor,
}

/// What the environment says of the terminal.
#[derive(Clone, Debug)]
pub struct TerminalEnv {
    /// The value of `TERM`, empty when unset.
    pub term: String,
    /// Whether `NO_COLOR` is set.
    pub no_color: bool,
    /// Whether `CI` is set.
    pub ci: bool,
    /// Whether standard output is a terminal.
    pub stdout_is_tty: bool,
    /// The value of `COLORTERM`, empty when unset.
    pub colorterm: String,
}

/// How the interface is drawn on this terminal.
#[derive(Clone, Copy, Debug, PartialEq, Eq, Structural)]
pub struct TerminalProfile {
    pub color: ColorMode,
    pub unicode: bool,
    pub animation: bool,
    pub native_blink: bool,
    pub plain_renderer: bool,
}

/// The colour mode that `TERM` and `COLORTERM` announce: true colour when
/// `COLORTERM` says so (in any case), 256 colours when `TERM` mentions
/// `256color`, none for an empty or `dumb` `TERM`, else the basic sixteen.
pub open spec fn detected_color_mode(term: Seq<char>, colorterm: Seq<char>) -> ColorMode {
    let ct = lower_chars(colorterm);
    if ct == "truecolor"@ || ct == "24bit"@ {
        ColorMode::TrueColor
    } else if seq_contains_sub(term, "256color"@) {
        ColorMode::Ansi256
    } else if term.len() == 0 || term == "dumb"@ {
        ColorMode::NoColor
    } else {
        ColorMode::Ansi16
    }
}

/// The colour mode a `--color=` value names, in any case.
pub open spec fn parsed_color_mode(value: Seq<char>) -> Option<ColorMode> {
    let v = lower_chars(value);
    if v == "off"@ || v == "none"@ || v == "no"@ || v == "mono"@ {
        Some(ColorMode::NoColor)
    } else if v == "16"@ || v == "ansi16"@ || v == "basic"@ {
        Some(ColorMode::Ansi16)
    } else if v == "256"@ || v == "ansi256"@ {
        Some(ColorMode::Ansi256)
    } else if v == "true"@ || v == "truecolor"@ || v == "24bit"@ || v == "rgb"@ {
        Some(ColorMode::TrueColor)
    } else {
        None
    }
}

/// The profile the environment alone gives.
pub open spec fn initial_profile(term: Seq<char>, no_color: bool, ci: bool, stdout_is_tty: bool, colorterm: Seq<char>) -> TerminalProfile {
    TerminalProfile {
        color: if no_color { ColorMode::NoColor } else { detected_color_mode(term, colorterm) },
        unicode: term != "dumb"@,
        animation: term != "dumb"@ && !ci,
        native_blink: false,
        plain_renderer: term == "dumb"@ || !stdout_is_tty,
    }
}

/// One command-line argument's effect on the profile; arguments it does not
/// know leave the profile as it is.
pub open spec fn apply_arg(p: TerminalProfile, arg: Seq<char>) -> TerminalProfile {
    if arg == "--plain"@ {
        TerminalProfile { plain_renderer: true, ..p }
    } else if arg == "--tui"@ || arg == "--rich"@ {
        TerminalProfile { plain_renderer: false, ..p }
    } else if arg == "--ascii"@ {
        TerminalProfile { unicode: false, ..p }
    } else if arg == "--unicode"@ {
        TerminalProfile { unicode: true, ..p }
    } else if arg == "--no-color"@ {
        TerminalProfile { color: ColorMode::NoColor, ..p }
    } else if arg == "--no-anim"@ {
        TerminalProfile { animation: false, ..p }
    } else if arg == "--anim"@ {
        TerminalProfile { animation: true, ..p }
    } else if arg == "--native-blink"@ {
        TerminalProfile { native_blink: true, ..p }
    } else if arg == "--no-native-blink"@ {
        TerminalProfile { native_blink: false, ..p }
    } else if arg.len() >= "--color="@.len() && arg.subrange(0, "--color="@.len() as int) == "--color="@ {
        match parsed_color_mode(arg.subrange("--color="@.len() as int, arg.len() as int)) {
            Some(c) => TerminalProfile { color: c, ..p },
            None => p,
        }
    } else {
        p
    }
}

/// The arguments' effects, in order.
pub open spec fn apply_args(p: TerminalProfile, args: Seq<Seq<char>>) -> TerminalProfile
    decreases args.len(),
{
    if args.len() == 0 {
        p
    } else {
        apply_arg(apply_args(p, args.drop_last()), args.last())
    }
}

/// The plain renderer shows neither colour, animation nor blinking.
pub open spec fn settled(p: TerminalProfile) -> TerminalProfile {
    if p.plain_renderer {
        TerminalProfile { color: ColorMode::NoColor, animation: false, native_blink: false, ..p }
    } else {
        p
    }
}

pub open spec fn args_view(args: Seq<String>) -> Seq<Seq<char>> {
    args.map_values(|a: String| a@)
}

/// The profile of a terminal with this environment and these arguments.
pub open spec fn detected_profile(env: TerminalEnv, args: Seq<String>) -> TerminalProfile {
    settled(
        apply_args(
            initial_profile(env.term@, env.no_color, env.ci, env.stdout_is_tty, env.colorterm@),
            args_view(args),
        ),
    )
}

/// The colour mode that `TERM` and `COLORTERM` announce.
pub fn detect_color_mode(term: &str, colorterm: &str) -> (r: ColorMode)
    ensures
        r == detected_color_mode(term@, colorterm@),
{
    let ct = lowered_chars(colorterm);
    if chars_eq_str(&ct, "truecolor") || chars_eq_str(&ct, "24bit") {
        return ColorMode::TrueColor;
    }
    let t = str_chars(term);
    if chars_contain(&t, "256color") {
        return ColorMode::Ansi256;
    }
    if t.len() == 0 || chars_eq_str(&t, "dumb") {
        ColorMode::NoColor
    } else {
        ColorMode::Ansi16
    }
}

/// The colour mode a `--color=` value names.
pub fn parse_color_mode(value: &Vec<char>) -> (r: Option<ColorMode>)
    ensures
        r == parsed_color_mode(value@),
{
    let n = value.len();
    let mut v: Vec<char> = Vec::new();
    for i in 0..n
        invariant
            n == value@.len(),
            v@ == lower_chars(value@.take(i as int)),
    {
        v.push(crate::text::ascii_lower(value[i]));
        proof {
            assert(lower_chars(value@.take((i + 1) as int)) =~= lower_chars(value@.take(i as int)).push(
                crate::text::spec_ascii_lower(value@[i as int]),
            ));
        }
    }
    proof {
        assert(value@.take(n as int) =~= value@);
    }
    if chars_eq_str(&v, "off") || chars_eq_str(&v, "none") || chars_eq_str(&v, "no") || chars_eq_str(&v, "mono") {
        Some(ColorMode::NoColor)
    } else if chars_eq_str(&v, "16") || chars_eq_str(&v, "ansi16") || chars_eq_str(&v, "basic") {
        Some(ColorMode::Ansi16)
    } else if chars_eq_str(&v, "256") || chars_eq_str(&v, "ansi256") {
        Some(ColorMode::Ansi256)
    } else if chars_eq_str(&v, "true") || chars_eq_str(&v, "truecolor") || chars_eq_str(&v, "24bit") || chars_eq_str(
        &v,
        "rgb",
    ) {
        Some(ColorMode::TrueColor)
    } else {
        None
    }
}

fn apply_arg_exec(p: TerminalProfile, arg: &str) -> (r: TerminalProfile)
    ensures
        r == apply_arg(p, arg@),
{
    let a = str_chars(arg);
    if chars_eq_str(&a, "--plain") {
        TerminalProfile { plain_renderer: true, ..p }
    } else if chars_eq_str(&a, "--tui") || chars_eq_str(&a, "--rich") {
        TerminalProfile { plain_renderer: false, ..p }
    } else if chars_eq_str(&a, "--ascii") {
        TerminalProfile { unicode: false, ..p }
    } else if chars_eq_str(&a, "--unicode") {
        TerminalProfile { unicode: true, ..p }
    } else if chars_eq_str(&a, "--no-color") {
        TerminalProfile { color: ColorMode::NoColor, ..p }
    } else if chars_eq_str(&a, "--no-anim") {
        TerminalProfile { animation: false, ..p }
    } else if chars_eq_str(&a, "--anim") {
        TerminalProfile { animation: true, ..p }
    } else if chars_eq_str(&a, "--native-blink") {
        TerminalProfile { native_blink: true, ..p }
    } else if chars_eq_str(&a, "--no-native-blink") {
        TerminalProfile { native_blink: false, ..p }
    } else if chars_start_with(&a, "--color=") {
        let prefix = "--color=".unicode_len();
        let value = chars_from(&a, prefix);
        match parse_color_mode(&value) {
            Some(c) => TerminalProfile { color: c, ..p },
            None => p,
        }
    } else {
        p
    }
}

impl TerminalProfile {
    /// The profile for this environment and these arguments: the environment
    /// first, then each argument in order, and the plain renderer turns off
    /// colour, animation and blinking.
    pub fn detect(env: &TerminalEnv, args: &Vec<String>) -> (r: TerminalProfile)
        ensures
            r == detected_profile(*env, args@),
            r.plain_renderer ==> r.color == ColorMode::NoColor && !r.animation && !r.native_blink,
    {
        let term = env.term.as_str();
        let mut profile = TerminalProfile {
            color: if env.no_color { ColorMode::NoColor } else { detect_color_mode(term, env.colorterm.as_str()) },
            unicode: !crate::text::str_eq(term, "dumb"),
            animation: !crate::text::str_eq(term, "dumb") && !env.ci,
            native_blink: false,
            plain_renderer: crate::text::str_eq(term, "dumb") || !env.stdout_is_tty,
        };
        let ghost start = profile;
        let n = args.len();
        for i in 0..n
            invariant
                n == args@.len(),
                profile == apply_args(start, args_view(args@).take(i as int)),
        {
            proof {
                assert(args_view(args@).take((i + 1) as int).drop_last() =~= args_view(args@).take(i as int));
            }
            profile = apply_arg_exec(profile, args[i].as_str());
        }
        proof {
            assert(args_view(args@).take(n as int) =~= args_view(args@));
        }
        if profile.plain_renderer {
            profile.color = ColorMode::NoColor;
            profile.animation = false;
            profile.native_blink = false;
        }
        profile
    }

    pub fn use_plain_renderer(self) -> (r: bool)
        ensures
            r == self.plain_renderer,
    {
        self.plain_renderer
    }

    /// A short description, such as `256-color/unicode/anim/blink`.
    pub fn label(self) -> (r: String)
        ensures
            r@ == profile_label(self),
    {
        let color = match self.color {
            ColorMode::NoColor => "mono",
            ColorMode::Ansi16 => "16-color",
            ColorMode::Ansi256 => "256-color",
            ColorMode::TrueColor => "truecolor",
        };
        let charset = if self.unicode { "unicode" } else { "ascii" };
        let animation = if self.animation { "anim" } else { "static" };
        let blink = if self.native_blink { "/blink" } else { "" };
        let s = owned(color);
        let s = append_str(s, "/");
        let s = append_str(s, charset);
        let s = append_str(s, "/");
        let s = append_str(s, animation);
        append_str(s, blink)
    }
}

pub open spec fn color_word(c: ColorMode) -> Seq<char> {
    match c {
        ColorMode::NoColor => "mono"@,
        ColorMode::Ansi16 => "16-color"@,
        ColorMode::Ansi256 => "256-color"@,
        ColorMode::TrueColor => "truecolor"@,
    }
}

/// The colour word, the charset, whether animated, and `/blink` when blinking.
pub open spec fn profile_label(p: TerminalProfile) -> Seq<char> {
    color_word(p.color) + "/"@ + (if p.unicode { "unicode"@ } else { "ascii"@ }) + "/"@ + (if p.animation {
        "anim"@
    } else {
        "static"@
    }) + (if p.native_blink { "/blink"@ } else { ""@ })
}

/// What an argument sets the renderer to: plain for `--plain`, the full
/// interface for `--tui` and `--rich`.
pub open spec fn renderer_flag(arg: Seq<char>) -> Option<bool> {
    if arg == "--plain"@ {
        Some(true)
    } else if arg == "--tui"@ || arg == "--rich"@ {
        Some(false)
    } else {
        None
    }
}

/// What an argument sets the glyphs to: ASCII for `--ascii`, Unicode for `--unicode`.
pub open spec fn glyph_flag(arg: Seq<char>) -> Option<bool> {
    if arg == "--ascii"@ {
        Some(false)
    } else if arg == "--unicode"@ {
        Some(true)
    } else {
        None
    }
}

proof fn lemma_flag_literals()
    ensures
        "--plain"@ != "--tui"@,
        "--plain"@ != "--rich"@,
        "--ascii"@ != "--plain"@,
        "--ascii"@ != "--tui"@,
        "--ascii"@ != "--rich"@,
        "--unicode"@ != "--plain"@,
        "--unicode"@ != "--tui"@,
        "--unicode"@ != "--rich"@,
        "--unicode"@ != "--ascii"@,
{
    reveal_strlit("--plain");
    reveal_strlit("--tui");
    reveal_strlit("--rich");
    reveal_strlit("--ascii");
    reveal_strlit("--unicode");
    assert("--plain"@.len() != "--tui"@.len());
    assert("--plain"@.len() != "--rich"@.len());
    assert("--ascii"@[2] != "--plain"@[2]);
    assert("--ascii"@.len() != "--tui"@.len());
    assert("--ascii"@[2] != "--rich"@[2]);
    assert("--unicode"@.len() != "--plain"@.len());
    assert("--unicode"@.len() != "--tui"@.len());
    assert("--unicode"@.len() != "--rich"@.len());
    assert("--unicode"@.len() != "--ascii"@.len());
}

proof fn lemma_last_renderer_flag(p: TerminalProfile, args: Seq<Seq<char>>, i: int)
    requires
        0 <= i < args.len(),
        renderer_flag(args[i]) is Some,
        forall|k: int| i < k < args.len() ==> renderer_flag(#[trigger] args[k]) is None,
    ensures
        apply_args(p, args).plain_renderer == renderer_flag(args[i])->0,
    decreases args.len(),
{
    lemma_flag_literals();
    let rest = args.drop_last();
    if i < args.len() - 1 {
        assert(renderer_flag(args[args.len() - 1]) is None);
        assert forall|k: int| i < k < rest.len() implies renderer_flag(#[trigger] rest[k]) is None by {
            assert(rest[k] == args[k]);
        }
        assert(rest[i] == args[i]);
        lemma_last_renderer_flag(p, rest, i);
    }
}

proof fn lemma_last_glyph_flag(p: TerminalProfile, args: Seq<Seq<char>>, j: int)
    requires
        0 <= j < args.len(),
        glyph_flag(args[j]) is Some,
        forall|k: int| j < k < args.len() ==> glyph_flag(#[trigger] args[k]) is None,
    ensures
        apply_args(p, args).unicode == glyph_flag(args[j])->0,
    decreases args.len(),
{
    lemma_flag_literals();
    let rest = args.drop_last();
    if j < args.len() - 1 {
        assert(glyph_flag(args[args.len() - 1]) is None);
        assert forall|k: int| j < k < rest.len() implies glyph_flag(#[trigger] rest[k]) is None by {
            assert(rest[k] == args[k]);
        }
        assert(rest[j] == args[j]);
        lemma_last_glyph_flag(p, rest, j);
    }
}

/// The last of `--plain`, `--tui` and `--rich` decides the renderer,
/// whatever the environment and the arguments before it say.
pub proof fn lemma_last_renderer_flag_wins(env: TerminalEnv, args: Seq<String>, i: int)
    requires
        0 <= i < args.len(),
        renderer_flag(args[i]@) is Some,
        forall|k: int| i < k < args.len() ==> renderer_flag(#[trigger] args[k]@) is None,
    ensures
        detected_profile(env, args).plain_renderer == renderer_flag(args[i]@)->0,
{
    let a = args_view(args);
    assert forall|k: int| i < k < a.len() implies renderer_flag(#[trigger] a[k]) is None by {
        assert(renderer_flag(args[k]@) is None);
    }
    lemma_last_renderer_flag(initial_profile(env.term@, env.no_color, env.ci, env.stdout_is_tty, env.colorterm@), a, i);
}

/// The last of `--ascii` and `--unicode` decides the glyphs, whatever the
/// environment and the arguments before it say.
pub proof fn lemma_last_glyph_flag_wins(env: TerminalEnv, args: Seq<String>, j: int)
    requires
        0 <= j < args.len(),
        glyph_flag(args[j]@) is Some,
        forall|k: int| j < k < args.len() ==> glyph_flag(#[trigger] args[k]@) is None,
    ensures
        detected_profile(env, args).unicode == glyph_flag(args[j]@)->0,
{
    let a = args_view(args);
    assert forall|k: int| j < k < a.len() implies glyph_flag(#[trigger] a[k]) is None by {
        assert(glyph_flag(args[k]@) is None);
    }
    lemma_last_glyph_flag(initial_profile(env.term@, env.no_color, env.ci, env.stdout_is_tty, env.colorterm@), a, j);
}

/// `--plain` and `--tui` decide the renderer whatever came before them.
pub proof fn lemma_renderer_flags_override(p: TerminalProfile)
    ensures
        apply_arg(p, "--plain"@).plain_renderer,
        !apply_arg(p, "--tui"@).plain_renderer,
{
    reveal_strlit("--plain");
    reveal_strlit("--tui");
    assert("--tui"@.len() != "--plain"@.len());
}

} // verus!
