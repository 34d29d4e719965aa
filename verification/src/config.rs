//! The configuration store: per-selector enabled flags and visual profiles,
//! read-only for this crate.

use vstd::prelude::*;
use crate::color::{rule_ok, ColorRule};
use crate::selector::ConfigKey;
use crate::toggle::KeyToggleMode;

verus! {

#[derive(Clone, Copy, Debug, PartialEq, Eq, Structural)]
pub enum EspBoxType {
    Off,
    Box2D,
    Box3D,
}

#[derive(Clone, Copy, Debug, PartialEq, Eq, Structural)]
pub enum EspHeadDot {
    Off,
    Filled,
    NotFilled,
}

/// On which side of the 2D box the health bar is placed.
#[derive(Clone, Copy, Debug, PartialEq, Eq, Structural)]
pub enum EspHealthBar {
    Off,
    Left,
    Right,
    Top,
    Bottom,
}

/// The fixed screen anchor a tracer line starts from.
#[derive(Clone, Copy, Debug, PartialEq, Eq, Structural)]
pub enum EspTracePosition {
    Off,
    TopLeft,
    TopCenter,
    TopRight,
    Center,
    BottomLeft,
    BottomCenter,
    BottomRight,
}

/// One visual profile: an independently toggle-able bundle of rendering
/// options, used wholesale once selected.
#[derive(Clone, Copy, Debug, PartialEq, Eq, Structural)]
pub struct EspPlayerSettings {
    pub box_type: EspBoxType,
    pub box_color: ColorRule,
    pub box_width: i64,
    pub skeleton: bool,
    pub skeleton_color: ColorRule,
    pub skeleton_width: i64,
    pub head_dot: EspHeadDot,
    pub head_dot_color: ColorRule,
    /// Vertical offset of the head marker's probe points, in world units.
    pub head_dot_z: i64,
    /// Scale applied to the apparent head size, in percent.
    pub head_dot_base_radius: i64,
    pub head_dot_thickness: i64,
    pub health_bar: EspHealthBar,
    pub health_bar_width: i64,
    /// When set, actors beyond `near_players_distance` meters are skipped.
    pub near_players: bool,
    pub near_players_distance: i64,
    pub info_name: bool,
    pub info_name_color: ColorRule,
    pub info_weapon: bool,
    pub info_weapon_color: ColorRule,
    pub info_hp_text: bool,
    pub info_hp_text_color: ColorRule,
    pub info_flag_kit: bool,
    pub info_flag_flashed: bool,
    pub info_flags_color: ColorRule,
    pub info_distance: bool,
    pub info_distance_color: ColorRule,
    pub tracer_lines: EspTracePosition,
    pub tracer_lines_color: ColorRule,
    pub tracer_lines_width: i64,
}

/// Bounds under which every size and offset computation of the render pass
/// stays free of overflow.
pub open spec fn player_settings_ok(s: EspPlayerSettings) -> bool {
    &&& rule_ok(s.box_color)
    &&& rule_ok(s.skeleton_color)
    &&& rule_ok(s.head_dot_color)
    &&& rule_ok(s.info_name_color)
    &&& rule_ok(s.info_weapon_color)
    &&& rule_ok(s.info_hp_text_color)
    &&& rule_ok(s.info_flags_color)
    &&& rule_ok(s.info_distance_color)
    &&& rule_ok(s.tracer_lines_color)
    &&& 0 <= s.box_width <= 10_000
    &&& 0 <= s.skeleton_width <= 10_000
    &&& -10_000 <= s.head_dot_z <= 10_000
    &&& 0 <= s.head_dot_base_radius <= 10_000
    &&& 0 <= s.head_dot_thickness <= 10_000
    &&& 0 <= s.health_bar_width <= 10_000
    &&& 0 <= s.near_players_distance
    &&& 0 <= s.tracer_lines_width <= 10_000
}

/// A profile under a selector key; only the player variant applies to the
/// actors tracked here.
#[derive(Clone, Copy, Debug, PartialEq, Eq, Structural)]
pub enum EspConfig {
    Player(EspPlayerSettings),
    Other,
}

/// The application settings read by this crate: the hotkey mode and the two
/// keyed tables of the configuration store.
#[derive(Clone, Debug)]
pub struct AppSettings {
    pub esp_mode: KeyToggleMode,
    /// Selector key to enabled flag; an absent key counts as disabled.
    pub esp_settings_enabled: Vec<(ConfigKey, bool)>,
    /// Selector key to stored profile.
    pub esp_settings: Vec<(ConfigKey, EspConfig)>,
}

/// First-match lookup of an enabled flag; absent keys count as disabled.
pub open spec fn enabled_of(entries: Seq<(ConfigKey, bool)>, key: ConfigKey) -> bool
    decreases entries.len(),
{
    if entries.len() == 0 {
        false
    } else if entries[0].0 == key {
        entries[0].1
    } else {
        enabled_of(entries.drop_first(), key)
    }
}

/// First-match lookup of a stored profile.
pub open spec fn config_of(entries: Seq<(ConfigKey, EspConfig)>, key: ConfigKey) -> Option<
    EspConfig,
>
    decreases entries.len(),
{
    if entries.len() == 0 {
        Option::None
    } else if entries[0].0 == key {
        Option::Some(entries[0].1)
    } else {
        config_of(entries.drop_first(), key)
    }
}

pub open spec fn settings_ok(s: AppSettings) -> bool {
    forall|i: int|
        0 <= i < s.esp_settings@.len() ==> match #[trigger] s.esp_settings@[i].1 {
            EspConfig::Player(p) => player_settings_ok(p),
            EspConfig::Other => true,
        }
}

impl AppSettings {
    pub fn is_enabled(&self, key: ConfigKey) -> (r: bool)
        ensures
            r == enabled_of(self.esp_settings_enabled@, key),
    {
        let entries = &self.esp_settings_enabled;
        let ghost all = entries@;
        let mut i: usize = 0;
        proof {
            assert(all.skip(0) =~= all);
        }
        while i < entries.len()
            invariant
                0 <= i <= all.len(),
                entries@ == all,
                self.esp_settings_enabled@ == all,
                enabled_of(all, key) == enabled_of(all.skip(i as int), key),
            decreases all.len() - i,
        {
            proof {
                assert(all.skip(i as int).drop_first() =~= all.skip(i as int + 1));
                assert(all.skip(i as int)[0] == all[i as int]);
            }
            if entries[i].0 == key {
                assert(enabled_of(all.skip(i as int), key) == all[i as int].1);
                return entries[i].1;
            }
            i = i + 1;
        }
        proof {
            assert(all.skip(all.len() as int).len() == 0);
        }
        false
    }

    /// The stored profile under `key`, if any.
    pub fn lookup_config(&self, key: ConfigKey) -> (r: Option<&EspConfig>)
        ensures
            match r {
                Option::Some(c) => config_of(self.esp_settings@, key) == Option::Some(*c),
                Option::None => config_of(self.esp_settings@, key) is None,
            },
    {
        let entries = &self.esp_settings;
        let ghost all = entries@;
        let mut i: usize = 0;
        proof {
            assert(all.skip(0) =~= all);
        }
        while i < entries.len()
            invariant
                0 <= i <= all.len(),
                entries@ == all,
                self.esp_settings@ == all,
                config_of(all, key) == config_of(all.skip(i as int), key),
            decreases all.len() - i,
        {
            proof {
                assert(all.skip(i as int).drop_first() =~= all.skip(i as int + 1));
                assert(all.skip(i as int)[0] == all[i as int]);
            }
            if entries[i].0 == key {
                assert(config_of(all.skip(i as int), key) == Option::Some(all[i as int].1));
                return Option::Some(&entries[i].1);
            }
            i = i + 1;
        }
        proof {
            assert(all.skip(all.len() as int).len() == 0);
        }
        Option::None
    }
}

} // verus!
