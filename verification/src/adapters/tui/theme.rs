//! Colours and emphasis of the terminal interface, by role and colour mode.
use vstd::prelude::*;

use crate::adapters::tui::profile::{ColorMode, TerminalProfile};

verus! {

/// What a piece of the interface is, for the purpose of styling it.
#[derive(Clone, Copy, Debug, PartialEq, Eq, Structural)]
pub enum UiRole {
    Base,
    CardDisabled,
    CardPlayable,
    CardSelected,
    Defeat,
    Energy,
    HpLow,
    HpNormal,
    Ironclad,
    Log,
    LogWarning,
    Monster,
    Muted,
    Panel,
    Prompt,
    Title,
}

/// A terminal colour: one of the named sixteen, a 256-colour index or RGB.
#[derive(Clone, Copy, Debug, PartialEq, Eq, Structural)]
pub enum UiColor {
    White,
    DarkGray,
    Black,
    Yellow,
    Red,
    Magenta,
    Cyan,
    Indexed(u8),
    Rgb(u8, u8, u8),
}

/// A text style: colours and modifiers, each possibly unset.
#[derive(Clone, Copy, Debug, PartialEq, Eq, Structural)]
pub struct UiStyle {
    pub fg: Option<UiColor>,
    pub bg: Option<UiColor>,
    pub bold: bool,
    pub dim: bool,
    pub reversed: bool,
}

/// The style with nothing set.
pub open spec fn plain_style() -> UiStyle {
    UiStyle { fg: None, bg: None, bold: false, dim: false, reversed: false }
}

pub open spec fn fg_style(c: UiColor) -> UiStyle {
    UiStyle { fg: Some(c), ..plain_style() }
}

pub open spec fn fg_bg_style(f: UiColor, b: UiColor) -> UiStyle {
    UiStyle { fg: Some(f), bg: Some(b), ..plain_style() }
}

/// Without colour: bold for what must stand out, reversed for the selected
/// card, dim for what is in the background.
pub open spec fn mono_style(role: UiRole) -> UiStyle {
    match role {
        UiRole::Title | UiRole::Energy | UiRole::HpLow | UiRole::Ironclad | UiRole::LogWarning => UiStyle {
            bold: true,
            ..plain_style()
        },
        UiRole::CardSelected => UiStyle { reversed: true, ..plain_style() },
        UiRole::CardDisabled | UiRole::Muted | UiRole::Panel => UiStyle { dim: true, ..plain_style() },
        _ => plain_style(),
    }
}

pub open spec fn ansi16_colors(role: UiRole) -> UiStyle {
    match role {
        UiRole::Base | UiRole::Log => fg_style(UiColor::White),
        UiRole::CardDisabled | UiRole::Muted | UiRole::Panel => fg_style(UiColor::DarkGray),
        UiRole::CardPlayable => fg_style(UiColor::White),
        UiRole::CardSelected => fg_bg_style(UiColor::Black, UiColor::Yellow),
        UiRole::Defeat | UiRole::HpLow => fg_style(UiColor::Red),
        UiRole::Energy | UiRole::LogWarning => fg_style(UiColor::Yellow),
        UiRole::HpNormal | UiRole::Ironclad => fg_style(UiColor::Red),
        UiRole::Monster => fg_style(UiColor::Magenta),
        UiRole::Prompt | UiRole::Title => fg_style(UiColor::Cyan),
    }
}

pub open spec fn ansi256_colors(role: UiRole) -> UiStyle {
    match role {
        UiRole::Base | UiRole::Log => fg_style(UiColor::Indexed(252)),
        UiRole::CardDisabled | UiRole::Muted | UiRole::Panel => fg_style(UiColor::Indexed(244)),
        UiRole::CardPlayable => fg_style(UiColor::Indexed(230)),
        UiRole::CardSelected => fg_bg_style(UiColor::Indexed(16), UiColor::Indexed(220)),
        UiRole::Defeat | UiRole::HpLow => fg_style(UiColor::Indexed(203)),
        UiRole::Energy | UiRole::LogWarning => fg_style(UiColor::Indexed(220)),
        UiRole::HpNormal => fg_style(UiColor::Indexed(160)),
        UiRole::Ironclad => fg_style(UiColor::Indexed(88)),
        UiRole::Monster => fg_style(UiColor::Indexed(176)),
        UiRole::Prompt | UiRole::Title => fg_style(UiColor::Indexed(81)),
    }
}

pub open spec fn truecolor_colors(role: UiRole) -> UiStyle {
    match role {
        UiRole::Base | UiRole::Log => fg_style(UiColor::Rgb(224, 225, 221)),
        UiRole::CardDisabled | UiRole::Muted | UiRole::Panel => fg_style(UiColor::Rgb(128, 134, 144)),
        UiRole::CardPlayable => fg_style(UiColor::Rgb(246, 241, 213)),
        UiRole::CardSelected => fg_bg_style(UiColor::Rgb(21, 26, 33), UiColor::Rgb(244, 196, 48)),
        UiRole::Defeat | UiRole::HpLow => fg_style(UiColor::Rgb(235, 94, 85)),
        UiRole::Energy | UiRole::LogWarning => fg_style(UiColor::Rgb(255, 209, 102)),
        UiRole::HpNormal => fg_style(UiColor::Rgb(185, 52, 45)),
        UiRole::Ironclad => fg_style(UiColor::Rgb(125, 35, 32)),
        UiRole::Monster => fg_style(UiColor::Rgb(222, 139, 240)),
        UiRole::Prompt | UiRole::Title => fg_style(UiColor::Rgb(100, 223, 223)),
    }
}

/// With colour, the same emphasis is added on top of the role's colours.
pub open spec fn with_emphasis(role: UiRole, style: UiStyle) -> UiStyle {
    match role {
        UiRole::Title | UiRole::Energy | UiRole::HpLow | UiRole::Ironclad | UiRole::CardSelected
        | UiRole::LogWarning | UiRole::Defeat => UiStyle { bold: true, ..style },
        UiRole::CardDisabled | UiRole::Muted | UiRole::Panel => UiStyle { dim: true, ..style },
        _ => style,
    }
}

/// The style of a role in a colour mode.
pub open spec fn role_style(mode: ColorMode, role: UiRole) -> UiStyle {
    match mode {
        ColorMode::NoColor => mono_style(role),
        ColorMode::Ansi16 => with_emphasis(role, ansi16_colors(role)),
        ColorMode::Ansi256 => with_emphasis(role, ansi256_colors(role)),
        ColorMode::TrueColor => with_emphasis(role, truecolor_colors(role)),
    }
}

fn fg(c: UiColor) -> (r: UiStyle)
    ensures
        r == fg_style(c),
{
    UiStyle { fg: Some(c), bg: None, bold: false, dim: false, reversed: false }
}

fn fg_bg(f: UiColor, b: UiColor) -> (r: UiStyle)
    ensures
        r == fg_bg_style(f, b),
{
    UiStyle { fg: Some(f), bg: Some(b), bold: false, dim: false, reversed: false }
}

/// The interface's styles for one terminal.
#[derive(Clone, Copy, Debug)]
pub struct Theme {
    profile: TerminalProfile,
}

impl Theme {
    pub closed spec fn spec_profile(self) -> TerminalProfile {
        self.profile
    }

    pub fn new(profile: TerminalProfile) -> (r: Theme)
        ensures
            r.spec_profile() == profile,
    {
        Theme { profile }
    }

    pub fn profile(self) -> (r: TerminalProfile)
        ensures
            r == self.spec_profile(),
    {
        self.profile
    }

    /// The style of a role under the terminal's colour mode.
    pub fn style(self, role: UiRole) -> (r: UiStyle)
        ensures
            r == role_style(self.spec_profile().color, role),
    {
        match self.profile.color {
            ColorMode::NoColor => self.mono_style(role),
            ColorMode::Ansi16 => self.with_emphasis(role, self.ansi16_style(role)),
            ColorMode::Ansi256 => self.with_emphasis(role, self.ansi256_style(role)),
            ColorMode::TrueColor => self.with_emphasis(role, self.truecolor_style(role)),
        }
    }

    fn mono_style(self, role: UiRole) -> (r: UiStyle)
        ensures
            r == mono_style(role),
    {
        let none = UiStyle { fg: None, bg: None, bold: false, dim: false, reversed: false };
        match role {
            UiRole::Title | UiRole::Energy | UiRole::HpLow | UiRole::Ironclad | UiRole::LogWarning => UiStyle {
                bold: true,
                ..none
            },
            UiRole::CardSelected => UiStyle { reversed: true, ..none },
            UiRole::CardDisabled | UiRole::Muted | UiRole::Panel => UiStyle { dim: true, ..none },
            _ => none,
        }
    }

    fn ansi16_style(self, role: UiRole) -> (r: UiStyle)
        ensures
            r == ansi16_colors(role),
    {
        match role {
            UiRole::Base | UiRole::Log => fg(UiColor::White),
            UiRole::CardDisabled | UiRole::Muted | UiRole::Panel => fg(UiColor::DarkGray),
            UiRole::CardPlayable => fg(UiColor::White),
            UiRole::CardSelected => fg_bg(UiColor::Black, UiColor::Yellow),
            UiRole::Defeat | UiRole::HpLow => fg(UiColor::Red),
            UiRole::Energy | UiRole::LogWarning => fg(UiColor::Yellow),
            UiRole::HpNormal | UiRole::Ironclad => fg(UiColor::Red),
            UiRole::Monster => fg(UiColor::Magenta),
            UiRole::Prompt | UiRole::Title => fg(UiColor::Cyan),
        }
    }

    fn ansi256_style(self, role: UiRole) -> (r: UiStyle)
        ensures
            r == ansi256_colors(role),
    {
        match role {
            UiRole::Base | UiRole::Log => fg(UiColor::Indexed(252)),
            UiRole::CardDisabled | UiRole::Muted | UiRole::Panel => fg(UiColor::Indexed(244)),
            UiRole::CardPlayable => fg(UiColor::Indexed(230)),
            UiRole::CardSelected => fg_bg(UiColor::Indexed(16), UiColor::Indexed(220)),
            UiRole::Defeat | UiRole::HpLow => fg(UiColor::Indexed(203)),
            UiRole::Energy | UiRole::LogWarning => fg(UiColor::Indexed(220)),
            UiRole::HpNormal => fg(UiColor::Indexed(160)),
            UiRole::Ironclad => fg(UiColor::Indexed(88)),
            UiRole::Monster => fg(UiColor::Indexed(176)),
            UiRole::Prompt | UiRole::Title => fg(UiColor::Indexed(81)),
        }
    }

    fn truecolor_style(self, role: UiRole) -> (r: UiStyle)
        ensures
            r == truecolor_colors(role),
    {
        match role {
            UiRole::Base | UiRole::Log => fg(UiColor::Rgb(224, 225, 221)),
            UiRole::CardDisabled | UiRole::Muted | UiRole::Panel => fg(UiColor::Rgb(128, 134, 144)),
            UiRole::CardPlayable => fg(UiColor::Rgb(246, 241, 213)),
            UiRole::CardSelected => fg_bg(UiColor::Rgb(21, 26, 33), UiColor::Rgb(244, 196, 48)),
            UiRole::Defeat | UiRole::HpLow => fg(UiColor::Rgb(235, 94, 85)),
            UiRole::Energy | UiRole::LogWarning => fg(UiColor::Rgb(255, 209, 102)),
            UiRole::HpNormal => fg(UiColor::Rgb(185, 52, 45)),
            UiRole::Ironclad => fg(UiColor::Rgb(125, 35, 32)),
            UiRole::Monster => fg(UiColor::Rgb(222, 139, 240)),
            UiRole::Prompt | UiRole::Title => fg(UiColor::Rgb(100, 223, 223)),
        }
    }

    fn with_emphasis(self, role: UiRole, style: UiStyle) -> (r: UiStyle)
        ensures
            r == with_emphasis(role, style),
    {
        match role {
            UiRole::Title | UiRole::Energy | UiRole::HpLow | UiRole::Ironclad | UiRole::CardSelected
            | UiRole::LogWarning | UiRole::Defeat => UiStyle { bold: true, ..style },
            UiRole::CardDisabled | UiRole::Muted | UiRole::Panel => UiStyle { dim: true, ..style },
            _ => style,
        }
    }
}

/// Without colour, no role carries a colour.
pub proof fn lemma_mono_has_no_color(role: UiRole)
    ensures
        role_style(ColorMode::NoColor, role).fg is None,
        role_style(ColorMode::NoColor, role).bg is None,
{
}

} // verus!
