//! Blink finite-state machine: a bounded sweep counter with a configurable
//! ceiling that rotates among zero, a user-set custom width, and the live
//! terminal width. The counter advances once per refresh tick while the
//! battery is charging and restarts when the renderer reports that the sweep
//! has reached the glyph's trailing edge.

use vstd::prelude::*;

verus! {

/// Next blink ceiling in the rotation: comparing the ceiling against the
/// stored custom width each call makes the rotation converge back through
/// the custom width regardless of intervening terminal resizes.
pub open spec fn spec_cycle(custom: u16, max: u16, size: u16) -> u16 {
    if custom < max {
        0
    } else if custom == max {
        size
    } else {
        custom
    }
}

/// Rotates a blink ceiling through `{custom, size, 0, custom, ...}`.
pub fn cycle(blink_max: u16, blink_custom: u16, size: u16) -> (r: u16)
    ensures
        r == spec_cycle(blink_custom, blink_max, size),
{
    if blink_custom < blink_max {
        0
    } else if blink_custom == blink_max {
        size
    } else {
        blink_custom
    }
}

/// Next blink offset for a stateless caller: zero while not charging or once
/// the ceiling is reached, otherwise one step further.
pub fn increment(charging: bool, blink: u16, blink_max: u16) -> (r: u16)
    ensures
        !charging || blink >= blink_max ==> r == 0,
        charging && blink < blink_max ==> r == blink + 1,
{
    if !charging || blink >= blink_max {
        return 0;
    }

    blink + 1
}

/// State of the charging blink animation.
///
/// `val` is the current sweep offset in glyph columns, `max` its active
/// ceiling, `custom` the user-configured ceiling the rotation converges
/// through, and `reset` a one-shot flag the renderer raises when the sweep
/// has visually exhausted the glyph width; the next `increment` consumes it.
pub struct BlinkState {
    pub val: u16,
    pub max: u16,
    pub custom: u16,
    pub reset: bool,
}

impl BlinkState {
    /// Internal constructor with default values.
    pub fn new() -> (r: BlinkState)
        ensures
            r == (BlinkState { val: 0u16, max: 1u16, custom: 1u16, reset: false }),
    {
        BlinkState { val: 0, max: 1, custom: 1, reset: false }
    }

    /// Rotates the ceiling through `{custom, terminal-width, 0, custom, ...}`.
    pub fn cycle(&mut self, size: u16)
        ensures
            final(self).max == spec_cycle(old(self).custom, old(self).max, size),
            final(self).val == old(self).val,
            final(self).custom == old(self).custom,
            final(self).reset == old(self).reset,
    {
        self.max = cycle(self.max, self.custom, size);
    }

    /// Advances the blink offset by one tick: forced to zero while not
    /// charging; restarted at zero when a reset is pending or the ceiling is
    /// reached, consuming the pending reset; otherwise one step further.
    /// The offset never exceeds the ceiling afterwards.
    pub fn increment(&mut self, charging: bool)
        ensures
            final(self).max == old(self).max,
            final(self).custom == old(self).custom,
            !charging ==> final(self).val == 0 && final(self).reset == old(self).reset,
            charging && (old(self).reset || old(self).val >= old(self).max) ==> final(self).val
                == 0 && !final(self).reset,
            charging && !old(self).reset && old(self).val < old(self).max ==> final(self).val
                == old(self).val + 1 && final(self).reset == old(self).reset,
            final(self).val <= final(self).max,
    {
        if !charging {
            self.val = 0;
            return ;
        }
        if self.reset || self.val >= self.max {
            self.val = 0;
            self.reset = false;
        } else {
            self.val = self.val + 1;
        }
    }

    /// Getter function for the current blink offset.
    pub fn get_value(&self) -> (r: u16)
        ensures
            r == self.val,
    {
        self.val
    }

    /// Setter function for the ceiling and the custom ceiling, used once at
    /// startup from a parsed flag.
    pub fn set_max(&mut self, new_max: u16)
        ensures
            final(self).max == new_max,
            final(self).custom == new_max,
            final(self).val == old(self).val,
            final(self).reset == old(self).reset,
    {
        self.max = new_max;
        self.custom = new_max;
    }

    /// Raises the one-shot reset flag; raising it again before the next
    /// `increment` changes nothing.
    pub fn set_reset(&mut self)
        ensures
            final(self).reset,
            final(self).val == old(self).val,
            final(self).max == old(self).max,
            final(self).custom == old(self).custom,
    {
        self.reset = true;
    }
}

/// Law: the ceiling rotation is a 3-cycle. From any state whose ceiling
/// equals its custom width (as after construction or `set_max`), with a
/// positive custom width below the terminal width, three successive `cycle`
/// calls with that terminal width bring the ceiling back to where it began.
pub proof fn lemma_cycle_rotation(custom: u16, size: u16)
    requires
        1 <= custom,
        custom < size,
    ensures
        spec_cycle(custom, spec_cycle(custom, spec_cycle(custom, custom, size), size), size)
            == custom,
{
}

} // verus!
