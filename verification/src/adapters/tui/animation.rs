//! The interface's clock and the effects that change with it.
use vstd::prelude::*;

use crate::adapters::tui::theme::{role_style, Theme, UiRole, UiStyle};

verus! {

/// Counts the frames drawn; wraps around at the end of `u64`.
#[derive(Clone, Copy, Debug)]
pub struct AnimationClock {
    tick: u64,
}

impl AnimationClock {
    pub closed spec fn spec_tick(self) -> u64 {
        self.tick
    }

    pub fn tick(self) -> (r: u64)
        ensures
            r == self.spec_tick(),
    {
        self.tick
    }

    /// One tick on, from the largest value back to zero.
    pub fn advance(&mut self)
        ensures
            final(self).spec_tick() == vstd::wrapping::u64_specs::wrapping_add(old(self).spec_tick(), 1),
    {
        self.tick = self.tick.wrapping_add(1);
    }
}

impl Default for AnimationClock {
    fn default() -> (r: AnimationClock)
        ensures
            r.spec_tick() == 0,
    {
        AnimationClock { tick: 0 }
    }
}

/// An effect whose role changes with the clock.
#[derive(Clone, Copy, Debug)]
pub enum VisualEffect {
    /// Alternates between two roles: the first for the first half of each
    /// period, the second for the rest.
    Pulse { first: UiRole, second: UiRole, period_ticks: u64 },
}

/// The role an effect shows at a tick: without animation, or with a period
/// under two ticks, always the first.
pub open spec fn effect_role(effect: VisualEffect, animation_enabled: bool, tick: u64) -> UiRole {
    match effect {
        VisualEffect::Pulse { first, second, period_ticks } => {
            if animation_enabled && period_ticks > 1 {
                if tick % period_ticks < period_ticks / 2 {
                    first
                } else {
                    second
                }
            } else {
                first
            }
        },
    }
}

impl VisualEffect {
    pub fn role(self, animation_enabled: bool, tick: u64) -> (r: UiRole)
        ensures
            r == effect_role(self, animation_enabled, tick),
    {
        match self {
            VisualEffect::Pulse { first, second, period_ticks } => {
                if animation_enabled && period_ticks > 1 {
                    if tick % period_ticks < period_ticks / 2 {
                        first
                    } else {
                        second
                    }
                } else {
                    first
                }
            },
        }
    }

    /// The theme's style for the role the effect shows at this tick.
    pub fn style(self, theme: Theme, animation_enabled: bool, tick: u64) -> (r: UiStyle)
        ensures
            r == role_style(theme.spec_profile().color, effect_role(self, animation_enabled, tick)),
    {
        theme.style(self.role(animation_enabled, tick))
    }
}

/// A pulse shows each of its roles within every period.
pub proof fn lemma_pulse_alternates(first: UiRole, second: UiRole, period_ticks: u64, k: u64)
    requires
        period_ticks > 1,
        k as int * period_ticks as int + period_ticks as int <= u64::MAX as int,
    ensures
        effect_role(VisualEffect::Pulse { first, second, period_ticks }, true, (k * period_ticks) as u64) == first,
        effect_role(VisualEffect::Pulse { first, second, period_ticks }, true, (k * period_ticks + period_ticks - 1) as u64)
            == second,
{
    let t0 = (k * period_ticks) as u64;
    let t1 = (k * period_ticks + period_ticks - 1) as u64;
    assert(t0 % period_ticks == 0) by (nonlinear_arith)
        requires
            t0 == k * period_ticks,
            period_ticks > 1,
    {
        vstd::arithmetic::div_mod::lemma_mod_multiples_basic(k as int, period_ticks as int);
    }
    assert(t1 % period_ticks == period_ticks - 1) by (nonlinear_arith)
        requires
            t1 == k * period_ticks + period_ticks - 1,
            period_ticks > 1,
    {
        vstd::arithmetic::div_mod::lemma_mod_multiples_vanish(k as int, (period_ticks - 1) as int, period_ticks as int);
        vstd::arithmetic::div_mod::lemma_small_mod((period_ticks - 1) as nat, period_ticks as nat);
    }
}

} // verus!
