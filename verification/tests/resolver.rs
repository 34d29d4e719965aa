use player_esp::actor::{PawnInfo, WeaponKind};
use player_esp::color::ColorRule;
use player_esp::color::Rgba;
use player_esp::config::{
    AppSettings, EspBoxType, EspConfig, EspHeadDot, EspHealthBar, EspPlayerSettings,
    EspTracePosition,
};
use player_esp::esp::PlayerESP;
use player_esp::geom::WorldPos;
use player_esp::selector::{ConfigKey, EspSelector};
use player_esp::toggle::KeyToggleMode;

fn profile(width: i64) -> EspPlayerSettings {
    EspPlayerSettings {
        box_type: EspBoxType::Off,
        box_color: ColorRule::Solid(Rgba { r: 0, g: 0, b: 0, a: 255 }),
        box_width: width,
        skeleton: false,
        skeleton_color: ColorRule::Solid(Rgba { r: 0, g: 0, b: 0, a: 255 }),
        skeleton_width: 1,
        head_dot: EspHeadDot::Off,
        head_dot_color: ColorRule::Solid(Rgba { r: 0, g: 0, b: 0, a: 255 }),
        head_dot_z: 0,
        head_dot_base_radius: 100,
        head_dot_thickness: 1,
        health_bar: EspHealthBar::Off,
        health_bar_width: 10,
        near_players: false,
        near_players_distance: 0,
        info_name: false,
        info_name_color: ColorRule::Solid(Rgba { r: 0, g: 0, b: 0, a: 255 }),
        info_weapon: false,
        info_weapon_color: ColorRule::Solid(Rgba { r: 0, g: 0, b: 0, a: 255 }),
        info_hp_text: false,
        info_hp_text_color: ColorRule::Solid(Rgba { r: 0, g: 0, b: 0, a: 255 }),
        info_flag_kit: false,
        info_flag_flashed: false,
        info_flags_color: ColorRule::Solid(Rgba { r: 0, g: 0, b: 0, a: 255 }),
        info_distance: false,
        info_distance_color: ColorRule::Solid(Rgba { r: 0, g: 0, b: 0, a: 255 }),
        tracer_lines: EspTracePosition::Off,
        tracer_lines_color: ColorRule::Solid(Rgba { r: 0, g: 0, b: 0, a: 255 }),
        tracer_lines_width: 1,
    }
}

fn enemy_pawn() -> PawnInfo {
    PawnInfo {
        position: WorldPos { x: 0, y: 0, z: 0 },
        team_id: 2,
        player_health: 100,
        player_name: Some("x".to_string()),
        weapon: WeaponKind::Rifle,
        player_has_defuser: false,
        player_flashtime: 0,
    }
}

fn concrete_key() -> ConfigKey {
    ConfigKey::PlayerTeamVisibility { enemy: true, visible: true }
}

fn team_key() -> ConfigKey {
    ConfigKey::PlayerTeam { enemy: true }
}

fn esp_with_team(team: u8) -> PlayerESP {
    let mut esp = PlayerESP::new();
    esp.local_team_id = team;
    esp
}

#[test]
fn specificity_wins_over_enabled_ancestor() {
    let esp = esp_with_team(1);
    let settings = AppSettings {
        esp_mode: KeyToggleMode::AlwaysOn,
        esp_settings_enabled: vec![(concrete_key(), true), (team_key(), true), (ConfigKey::Player, true)],
        esp_settings: vec![
            (ConfigKey::Player, EspConfig::Player(profile(30))),
            (team_key(), EspConfig::Player(profile(20))),
            (concrete_key(), EspConfig::Player(profile(10))),
        ],
    };
    let r = esp.resolve_esp_player_config(&settings, &enemy_pawn());
    assert_eq!(r.unwrap().box_width, 10);
}

#[test]
fn disabled_selector_falls_back_to_parent() {
    let esp = esp_with_team(1);
    let settings = AppSettings {
        esp_mode: KeyToggleMode::AlwaysOn,
        esp_settings_enabled: vec![(concrete_key(), false), (team_key(), true)],
        esp_settings: vec![
            (concrete_key(), EspConfig::Player(profile(10))),
            (team_key(), EspConfig::Player(profile(20))),
        ],
    };
    let r = esp.resolve_esp_player_config(&settings, &enemy_pawn());
    assert_eq!(r.unwrap().box_width, 20);
}

#[test]
fn missing_profile_falls_back_to_generic() {
    let esp = esp_with_team(1);
    let settings = AppSettings {
        esp_mode: KeyToggleMode::AlwaysOn,
        esp_settings_enabled: vec![(concrete_key(), true), (ConfigKey::Player, true)],
        esp_settings: vec![(ConfigKey::Player, EspConfig::Player(profile(30)))],
    };
    let r = esp.resolve_esp_player_config(&settings, &enemy_pawn());
    assert_eq!(r.unwrap().box_width, 30);
}

#[test]
fn non_player_variant_is_skipped() {
    let esp = esp_with_team(1);
    let settings = AppSettings {
        esp_mode: KeyToggleMode::AlwaysOn,
        esp_settings_enabled: vec![(concrete_key(), true), (team_key(), true)],
        esp_settings: vec![
            (concrete_key(), EspConfig::Other),
            (team_key(), EspConfig::Player(profile(20))),
        ],
    };
    let r = esp.resolve_esp_player_config(&settings, &enemy_pawn());
    assert_eq!(r.unwrap().box_width, 20);
}

#[test]
fn exhausted_chain_resolves_nothing() {
    let esp = esp_with_team(1);
    let settings = AppSettings {
        esp_mode: KeyToggleMode::AlwaysOn,
        esp_settings_enabled: vec![],
        esp_settings: vec![(concrete_key(), EspConfig::Player(profile(10)))],
    };
    let r = esp.resolve_esp_player_config(&settings, &enemy_pawn());
    assert!(r.is_none());
}

#[test]
fn teammate_uses_non_enemy_selector() {
    let esp = esp_with_team(2);
    let mate_key = ConfigKey::PlayerTeamVisibility { enemy: false, visible: true };
    let settings = AppSettings {
        esp_mode: KeyToggleMode::AlwaysOn,
        esp_settings_enabled: vec![(mate_key, true), (concrete_key(), true)],
        esp_settings: vec![
            (mate_key, EspConfig::Player(profile(40))),
            (concrete_key(), EspConfig::Player(profile(10))),
        ],
    };
    let r = esp.resolve_esp_player_config(&settings, &enemy_pawn());
    assert_eq!(r.unwrap().box_width, 40);
}

#[test]
fn parent_chain_terminates_at_generic_selector() {
    let s0 = EspSelector::PlayerTeamVisibility { enemy: true, visible: false };
    let s1 = s0.parent().expect("team-visibility has a parent");
    assert_eq!(s1, EspSelector::PlayerTeam { enemy: true });
    let s2 = s1.parent().expect("team selector has a parent");
    assert_eq!(s2, EspSelector::Player);
    assert!(s2.parent().is_none());
}

#[test]
fn config_keys_mirror_selectors() {
    assert_eq!(EspSelector::Player.config_key(), ConfigKey::Player);
    assert_eq!(
        EspSelector::PlayerTeam { enemy: false }.config_key(),
        ConfigKey::PlayerTeam { enemy: false }
    );
    assert_eq!(
        EspSelector::PlayerTeamVisibility { enemy: true, visible: true }.config_key(),
        ConfigKey::PlayerTeamVisibility { enemy: true, visible: true }
    );
}
