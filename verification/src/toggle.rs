//! The enable hotkey: an edge- or level-triggered toggle, depending on the
//! configured mode.

use vstd::prelude::*;

verus! {

/// How the enable hotkey drives the feature's enabled state.
#[derive(Clone, Copy, Debug, PartialEq, Eq, Structural)]
pub enum KeyToggleMode {
    /// The feature stays off whatever the key does.
    Off,
    /// The feature stays on whatever the key does.
    AlwaysOn,
    /// Edge-triggered: each new press flips the enabled state; holding the
    /// key changes nothing further.
    Toggle,
    /// Level-triggered: enabled exactly while the key is held.
    Hold,
}

/// The toggle's state: whether the feature is enabled, and whether the key
/// was down on the previous tick (for edge detection).
#[derive(Clone, Copy, Debug, PartialEq, Eq, Structural)]
pub struct KeyToggle {
    pub enabled: bool,
    pub key_down: bool,
}

/// The toggle's next state after one tick in which the key is `pressed`.
pub open spec fn toggle_step(t: KeyToggle, mode: KeyToggleMode, pressed: bool) -> KeyToggle {
    KeyToggle {
        enabled: match mode {
            KeyToggleMode::Off => false,
            KeyToggleMode::AlwaysOn => true,
            KeyToggleMode::Toggle => if pressed && !t.key_down {
                !t.enabled
            } else {
                t.enabled
            },
            KeyToggleMode::Hold => pressed,
        },
        key_down: pressed,
    }
}

impl KeyToggle {
    pub fn new() -> (t: KeyToggle)
        ensures
            t == (KeyToggle { enabled: false, key_down: false }),
    {
        KeyToggle { enabled: false, key_down: false }
    }

    /// Advance the toggle by one tick; the result says whether the enabled
    /// state changed, which is when a telemetry event is owed.
    pub fn update(&mut self, mode: KeyToggleMode, pressed: bool) -> (changed: bool)
        ensures
            *final(self) == toggle_step(*old(self), mode, pressed),
            changed == (final(self).enabled != old(self).enabled),
    {
        let was_enabled = self.enabled;
        self.enabled = match mode {
            KeyToggleMode::Off => false,
            KeyToggleMode::AlwaysOn => true,
            KeyToggleMode::Toggle => if pressed && !self.key_down {
                !self.enabled
            } else {
                self.enabled
            },
            KeyToggleMode::Hold => pressed,
        };
        self.key_down = pressed;
        self.enabled != was_enabled
    }
}

/// Edge- versus level-triggering. In `Toggle` mode a fresh press flips the
/// enabled state once, and keeping the key held across the next tick changes
/// nothing; in `Hold` mode the state follows the key level on every tick.
pub proof fn lemma_toggle_edge(t: KeyToggle)
    requires
        !t.key_down,
    ensures
        toggle_step(t, KeyToggleMode::Toggle, true).enabled == !t.enabled,
        toggle_step(toggle_step(t, KeyToggleMode::Toggle, true), KeyToggleMode::Toggle, true)
            == toggle_step(t, KeyToggleMode::Toggle, true),
        toggle_step(t, KeyToggleMode::Hold, true).enabled,
        !toggle_step(toggle_step(t, KeyToggleMode::Hold, true), KeyToggleMode::Hold, false).enabled,
{
}

} // verus!
