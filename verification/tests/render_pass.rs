use player_esp::actor::{Bone, ModelInfo, PawnInfo, PawnModelInfo, PlayerESPInfo, WeaponKind,
    BONE_FLAG_HITBOX};
use player_esp::color::{calculate_color, ColorRule, Rgba};
use player_esp::config::{
    AppSettings, EspBoxType, EspConfig, EspHeadDot, EspHealthBar, EspPlayerSettings,
    EspTracePosition,
};
use player_esp::draw::DrawCommand;
use player_esp::esp::PlayerESP;
use player_esp::geom::{distance_meters, isqrt, ScreenPos, WorldPos};
use player_esp::render::{head_dot_commands, health_bar_commands, health_fraction_pct,
    label_commands, skeleton_commands, tracer_commands};
use player_esp::selector::ConfigKey;
use player_esp::text::{dist_text, flags_text, hp_text, u64_to_dec};
use player_esp::toggle::KeyToggleMode;
use player_esp::view::{ModelStore, ProjectionView};

fn solid(r: u8, g: u8, b: u8) -> ColorRule {
    ColorRule::Solid(Rgba { r, g, b, a: 255 })
}

fn profile() -> EspPlayerSettings {
    EspPlayerSettings {
        box_type: EspBoxType::Off,
        box_color: solid(1, 1, 1),
        box_width: 3,
        skeleton: true,
        skeleton_color: solid(2, 2, 2),
        skeleton_width: 2,
        head_dot: EspHeadDot::Off,
        head_dot_color: solid(3, 3, 3),
        head_dot_z: 10,
        head_dot_base_radius: 100,
        head_dot_thickness: 2,
        health_bar: EspHealthBar::Off,
        health_bar_width: 7,
        near_players: false,
        near_players_distance: 0,
        info_name: false,
        info_name_color: solid(4, 4, 4),
        info_weapon: false,
        info_weapon_color: solid(5, 5, 5),
        info_hp_text: false,
        info_hp_text_color: solid(6, 6, 6),
        info_flag_kit: false,
        info_flag_flashed: false,
        info_flags_color: solid(7, 7, 7),
        info_distance: false,
        info_distance_color: solid(8, 8, 8),
        tracer_lines: EspTracePosition::Off,
        tracer_lines_color: solid(9, 9, 9),
        tracer_lines_width: 1,
    }
}

fn empty_view() -> ProjectionView {
    ProjectionView {
        camera_world: Some(WorldPos { x: 0, y: 0, z: 0 }),
        screen_bounds: ScreenPos { x: 800, y: 600 },
        points: vec![],
        hulls: vec![],
    }
}

#[test]
fn health_fraction_is_clamped() {
    assert_eq!(health_fraction_pct(150), 100);
    assert_eq!(health_fraction_pct(100), 100);
    assert_eq!(health_fraction_pct(50), 50);
    assert_eq!(health_fraction_pct(1), 1);
    assert_eq!(health_fraction_pct(0), 0);
    assert_eq!(health_fraction_pct(-5), 0);
}

fn bar_fill(pct: u8) -> (DrawCommand, DrawCommand) {
    let mut s = profile();
    s.health_bar = EspHealthBar::Left;
    let mut out: Vec<DrawCommand> = Vec::new();
    health_bar_commands(
        &s,
        ScreenPos { x: 380, y: 280 },
        ScreenPos { x: 420, y: 400 },
        pct,
        &mut out,
    );
    assert_eq!(out.len(), 3);
    let green = out.pop().unwrap();
    let red = out.pop().unwrap();
    (red, green)
}

#[test]
fn health_bar_is_fully_green_at_full_health() {
    let (red, green) = bar_fill(100);
    match red {
        DrawCommand::Rect { min, max, .. } => assert_eq!(min.y, max.y),
        other => panic!("expected a rect, got {:?}", other),
    }
    match green {
        DrawCommand::Rect { min, max, .. } => assert_eq!(max.y - min.y, 120),
        other => panic!("expected a rect, got {:?}", other),
    }
}

#[test]
fn health_bar_is_fully_red_at_zero_health() {
    let (red, green) = bar_fill(0);
    match red {
        DrawCommand::Rect { min, max, .. } => assert_eq!(max.y - min.y, 120),
        other => panic!("expected a rect, got {:?}", other),
    }
    match green {
        DrawCommand::Rect { min, max, .. } => assert_eq!(min.y, max.y),
        other => panic!("expected a rect, got {:?}", other),
    }
}

#[test]
fn health_bar_splits_evenly_at_half_health() {
    let (red, green) = bar_fill(50);
    match (red, green) {
        (
            DrawCommand::Rect { min: rmin, max: rmax, .. },
            DrawCommand::Rect { min: gmin, max: gmax, .. },
        ) => {
            assert_eq!(rmax.y - rmin.y, 60);
            assert_eq!(gmax.y - gmin.y, 60);
            assert_eq!(rmax.y, gmin.y);
        },
        other => panic!("expected two rects, got {:?}", other),
    }
}

#[test]
fn root_bone_yields_no_skeleton_segment() {
    let s = profile();
    let model = ModelInfo {
        vhull_min: WorldPos { x: -16, y: -16, z: 0 },
        vhull_max: WorldPos { x: 16, y: 16, z: 120 },
        bones: vec![
            Bone { name: "pelvis".to_string(), flags: BONE_FLAG_HITBOX, parent: None },
            Bone { name: "spine".to_string(), flags: BONE_FLAG_HITBOX, parent: Some(0) },
            Bone { name: "decor".to_string(), flags: 0, parent: Some(1) },
        ],
    };
    let states = vec![
        WorldPos { x: 0, y: 0, z: 50 },
        WorldPos { x: 0, y: 0, z: 80 },
        WorldPos { x: 0, y: 0, z: 110 },
    ];
    let view = ProjectionView {
        camera_world: Some(WorldPos { x: 0, y: 0, z: 0 }),
        screen_bounds: ScreenPos { x: 800, y: 600 },
        points: vec![
            (WorldPos { x: 0, y: 0, z: 50 }, true, ScreenPos { x: 400, y: 360 }),
            (WorldPos { x: 0, y: 0, z: 80 }, true, ScreenPos { x: 400, y: 330 }),
            (WorldPos { x: 0, y: 0, z: 110 }, true, ScreenPos { x: 400, y: 300 }),
        ],
        hulls: vec![],
    };
    let mut out: Vec<DrawCommand> = Vec::new();
    skeleton_commands(&s, &model, &states, &view, 100, 5, &mut out);
    assert_eq!(
        out,
        vec![DrawCommand::Line {
            from: ScreenPos { x: 400, y: 360 },
            to: ScreenPos { x: 400, y: 330 },
            color: Rgba { r: 2, g: 2, b: 2, a: 255 },
            thickness: 2,
        }]
    );
}

#[test]
fn unprojected_bone_yields_no_segment() {
    let s = profile();
    let model = ModelInfo {
        vhull_min: WorldPos { x: 0, y: 0, z: 0 },
        vhull_max: WorldPos { x: 0, y: 0, z: 0 },
        bones: vec![
            Bone { name: "pelvis".to_string(), flags: BONE_FLAG_HITBOX, parent: None },
            Bone { name: "spine".to_string(), flags: BONE_FLAG_HITBOX, parent: Some(0) },
        ],
    };
    let states = vec![WorldPos { x: 0, y: 0, z: 50 }, WorldPos { x: 0, y: 0, z: 80 }];
    let mut out: Vec<DrawCommand> = Vec::new();
    skeleton_commands(&s, &model, &states, &empty_view(), 100, 5, &mut out);
    assert!(out.is_empty());
}

#[test]
fn distance_uses_fixed_unit_factor() {
    let cam = WorldPos { x: 0, y: 0, z: 0 };
    assert_eq!(distance_meters(WorldPos { x: 1000, y: 0, z: 0 }, cam), 19);
    assert_eq!(distance_meters(WorldPos { x: 100, y: 0, z: 0 }, cam), 1);
    assert_eq!(distance_meters(cam, cam), 0);
}

#[test]
fn integer_square_root_rounds_down() {
    assert_eq!(isqrt(0), 0);
    assert_eq!(isqrt(1), 1);
    assert_eq!(isqrt(10), 3);
    assert_eq!(isqrt(1_000_000), 1000);
    assert_eq!(isqrt(999_999), 999);
}

#[test]
fn solid_and_gradient_colors() {
    let c = calculate_color(&solid(10, 20, 30), 50, 7);
    assert_eq!(c, Rgba { r: 10, g: 20, b: 30, a: 255 });
    assert_eq!(
        calculate_color(&ColorRule::HealthGradient, 0, 0),
        Rgba { r: 255, g: 0, b: 0, a: 255 }
    );
    assert_eq!(
        calculate_color(&ColorRule::HealthGradient, 100, 0),
        Rgba { r: 0, g: 255, b: 0, a: 255 }
    );
    assert_eq!(
        calculate_color(&ColorRule::HealthGradient, 50, 0),
        Rgba { r: 127, g: 127, b: 0, a: 255 }
    );
}

#[test]
fn distance_fade_reduces_alpha() {
    let rule = ColorRule::DistanceFade {
        base: Rgba { r: 9, g: 9, b: 9, a: 200 },
        max_distance: 100,
    };
    assert_eq!(calculate_color(&rule, 50, 0).a, 200);
    assert_eq!(calculate_color(&rule, 50, 50).a, 100);
    assert_eq!(calculate_color(&rule, 50, 100).a, 0);
    assert_eq!(calculate_color(&rule, 50, 1000).a, 0);
}

#[test]
fn decimal_and_label_texts() {
    assert_eq!(u64_to_dec(0), "0");
    assert_eq!(u64_to_dec(7), "7");
    assert_eq!(u64_to_dec(1234), "1234");
    assert_eq!(hp_text(50), "50 HP");
    assert_eq!(dist_text(19), "19m");
    assert_eq!(flags_text(true, true), "Kit, flashed");
    assert_eq!(flags_text(true, false), "Kit");
    assert_eq!(flags_text(false, true), "flashed");
    assert_eq!(flags_text(false, false), "");
}

#[test]
fn weapon_display_names() {
    assert_eq!(WeaponKind::Rifle.display_name(), "Rifle");
    assert_eq!(WeaponKind::Knife.display_name(), "Knife");
    assert_eq!(WeaponKind::Unknown.display_name(), "Unknown");
}

#[test]
fn missing_model_aborts_render_pass() {
    let mut esp = PlayerESP::new();
    esp.local_team_id = 1;
    esp.players.push(PlayerESPInfo {
        pawn_info: PawnInfo {
            position: WorldPos { x: 100, y: 0, z: 0 },
            team_id: 2,
            player_health: 50,
            player_name: Some("x".to_string()),
            weapon: WeaponKind::Rifle,
            player_has_defuser: false,
            player_flashtime: 0,
        },
        pawn_model: PawnModelInfo { model_id: 7, bone_states: vec![] },
    });
    let key = ConfigKey::PlayerTeamVisibility { enemy: true, visible: true };
    let settings = AppSettings {
        esp_mode: KeyToggleMode::AlwaysOn,
        esp_settings_enabled: vec![(key, true)],
        esp_settings: vec![(key, EspConfig::Player(profile()))],
    };
    let models = ModelStore { entries: vec![] };
    let r = esp.render(&settings, &empty_view(), &models);
    assert_eq!(r, Err(player_esp::actor::EspError::ModelRead { model_id: 7 }));
}

#[test]
fn missing_camera_renders_nothing() {
    let esp = PlayerESP::new();
    let settings = AppSettings {
        esp_mode: KeyToggleMode::AlwaysOn,
        esp_settings_enabled: vec![],
        esp_settings: vec![],
    };
    let mut view = empty_view();
    view.camera_world = None;
    let r = esp.render(&settings, &view, &ModelStore { entries: vec![] }).unwrap();
    assert!(r.commands.is_empty());
    assert!(r.glyph_texts.is_empty());
}

#[test]
fn tracer_anchors_follow_screen_bounds() {
    let s_base = profile();
    let pos = WorldPos { x: 1, y: 2, z: 3 };
    let mut view = empty_view();
    view.points.push((pos, false, ScreenPos { x: 100, y: 100 }));
    let cases = vec![
        (EspTracePosition::TopLeft, ScreenPos { x: 0, y: 0 }),
        (EspTracePosition::TopCenter, ScreenPos { x: 400, y: 0 }),
        (EspTracePosition::TopRight, ScreenPos { x: 800, y: 0 }),
        (EspTracePosition::Center, ScreenPos { x: 400, y: 300 }),
        (EspTracePosition::BottomLeft, ScreenPos { x: 0, y: 600 }),
        (EspTracePosition::BottomCenter, ScreenPos { x: 400, y: 600 }),
        (EspTracePosition::BottomRight, ScreenPos { x: 800, y: 600 }),
    ];
    for (anchor, origin) in cases {
        let mut s = s_base.clone();
        s.tracer_lines = anchor;
        let mut out: Vec<DrawCommand> = Vec::new();
        tracer_commands(&s, &view, pos, 50, 10, &mut out);
        assert_eq!(
            out,
            vec![DrawCommand::Line {
                from: origin,
                to: ScreenPos { x: 100, y: 100 },
                color: Rgba { r: 9, g: 9, b: 9, a: 255 },
                thickness: 1,
            }]
        );
    }
    let mut s = s_base.clone();
    s.tracer_lines = EspTracePosition::Off;
    let mut out: Vec<DrawCommand> = Vec::new();
    tracer_commands(&s, &view, pos, 50, 10, &mut out);
    assert!(out.is_empty());
}

#[test]
fn flags_line_is_emitted_between_health_and_distance() {
    let mut s = profile();
    s.info_hp_text = true;
    s.info_flag_kit = true;
    s.info_flag_flashed = true;
    s.info_distance = true;
    let info = PawnInfo {
        position: WorldPos { x: 0, y: 0, z: 0 },
        team_id: 2,
        player_health: 80,
        player_name: Some("x".to_string()),
        weapon: WeaponKind::Rifle,
        player_has_defuser: true,
        player_flashtime: 250,
    };
    let mut out: Vec<DrawCommand> = Vec::new();
    label_commands(&s, &info, 80, 12, ScreenPos { x: 0, y: 0 }, ScreenPos { x: 40, y: 90 }, &mut out);
    let texts: Vec<String> = out
        .iter()
        .map(|c| match c {
            DrawCommand::Text { text, .. } => text.clone(),
            other => panic!("expected only text commands, got {:?}", other),
        })
        .collect();
    assert_eq!(texts, vec!["80 HP".to_string(), "Kit, flashed".to_string(), "12m".to_string()]);
}

#[test]
fn outlined_head_dot_keeps_thickness() {
    let mut s = profile();
    s.head_dot = EspHeadDot::NotFilled;
    s.head_dot_z = 0;
    let model = ModelInfo {
        vhull_min: WorldPos { x: 0, y: 0, z: 0 },
        vhull_max: WorldPos { x: 0, y: 0, z: 0 },
        bones: vec![Bone { name: "head_0".to_string(), flags: 0, parent: Some(0) }],
    };
    let states = vec![WorldPos { x: 0, y: 0, z: 100 }];
    let mut view = empty_view();
    view.points.push((WorldPos { x: 0, y: 0, z: 100 }, true, ScreenPos { x: 10, y: 50 }));
    view.points.push((WorldPos { x: 0, y: 0, z: 102 }, true, ScreenPos { x: 10, y: 44 }));
    let mut out: Vec<DrawCommand> = Vec::new();
    head_dot_commands(&s, &model, &states, &view, 50, 10, &mut out);
    assert_eq!(
        out,
        vec![DrawCommand::Circle {
            center: ScreenPos { x: 10, y: 50 },
            radius: 6,
            color: Rgba { r: 3, g: 3, b: 3, a: 255 },
            filled: false,
            thickness: 2,
        }]
    );
}
