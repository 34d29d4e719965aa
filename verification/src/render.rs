//! The render pass: per-element command builders, each an exact function of
//! the snapshot record, the resolved profile and the projection view.

use vstd::prelude::*;
use vstd::string::StringExecFns;
use crate::actor::{model_ok, record_ok, Bone, EspError, ModelInfo, PawnInfo, PlayerESPInfo,
    BONE_FLAG_HITBOX};
use crate::color::{calculate_color, eval_color, Rgba};
use crate::config::{config_of, player_settings_ok, settings_ok, AppSettings, EspBoxType,
    EspConfig, EspHeadDot, EspHealthBar, EspPlayerSettings, EspTracePosition};
use crate::draw::{cmd_view, cmds_view, lemma_cmds_view_push, lemma_texts_view_push, texts_view,
    CmdV, DrawCommand, DrawOutput};
use crate::esp::{spec_resolve, start_selector, PlayerESP};
use crate::geom::{dist_meters, distance_meters, screen_ok, world_add, world_ok, world_sum,
    ScreenPos, WorldPos};
use crate::selector::{ConfigKey, EspSelector};
use crate::text::{dec_seq, dist_text, flags_seq, flags_text, hp_text};
use crate::view::{hull_of, lemma_hull_of_screen_ok, lemma_point_of_screen_ok, model_of, point_of,
    store_ok, view_ok, ModelStore, ProjectionView};

verus! {

/// The health fraction, clamped to the unit interval, in percent.
pub open spec fn clamp_pct(health: int) -> int {
    if health <= 0 {
        0
    } else if health >= 100 {
        100
    } else {
        health
    }
}

/// The clamped health fraction: whatever the health value, the result stays
/// within zero and one hundred percent.
pub fn health_fraction_pct(health: i64) -> (pct: u8)
    ensures
        pct == clamp_pct(health as int),
        pct <= 100,
{
    if health <= 0 {
        0
    } else if health >= 100 {
        100
    } else {
        health as u8
    }
}

/// How far into a bar of the given extent the empty (missing health) part
/// reaches; the rest is the filled part.
pub open spec fn fill_offset(extent: int, pct: int) -> int {
    (100 - pct) * (if extent < 0 {
        0
    } else {
        extent
    }) / 100
}

/// At the boundary fractions the bar is entirely one color: at zero percent
/// the empty part spans the whole extent, at one hundred percent none of it.
pub proof fn lemma_fill_extremes(extent: int)
    requires
        0 <= extent,
    ensures
        fill_offset(extent, 100) == 0,
        fill_offset(extent, 0) == extent,
{
    assert((100 - 100) * extent == 0);
    assert(100 * extent / 100 == extent) by (nonlinear_arith);
}

/// One skeleton segment candidate: the commands bone `i` contributes.
pub open spec fn bone_segment(
    s: EspPlayerSettings,
    model: ModelInfo,
    states: Seq<WorldPos>,
    view: ProjectionView,
    pct: int,
    dist: int,
    i: int,
) -> Seq<CmdV> {
    let bone = model.bones@[i];
    if bone.flags & BONE_FLAG_HITBOX == 0 {
        Seq::empty()
    } else {
        match bone.parent {
            Option::Some(pi) => if pi < states.len() {
                match (point_of(view.points@, states[pi as int], true), point_of(
                    view.points@,
                    states[i],
                    true,
                )) {
                    (Option::Some(pp), Option::Some(bp)) => seq![
                        CmdV::Line {
                            from: pp,
                            to: bp,
                            color: eval_color(s.skeleton_color, pct, dist),
                            thickness: s.skeleton_width as int,
                        },
                    ],
                    _ => Seq::empty(),
                }
            } else {
                Seq::empty()
            },
            Option::None => Seq::empty(),
        }
    }
}

/// A skeleton segment is emitted for a bone exactly when the bone is
/// flagged as a hitbox bone, has a parent with a bone state, and both
/// endpoint world positions project to screen points.
pub proof fn lemma_bone_segment_iff(
    s: EspPlayerSettings,
    model: ModelInfo,
    states: Seq<WorldPos>,
    view: ProjectionView,
    pct: int,
    dist: int,
    i: int,
)
    requires
        0 <= i < model.bones@.len(),
    ensures
        bone_segment(s, model, states, view, pct, dist, i).len() <= 1,
        bone_segment(s, model, states, view, pct, dist, i).len() == 1 <==> {
            let bone = model.bones@[i];
            &&& bone.flags & BONE_FLAG_HITBOX != 0
            &&& bone.parent matches Option::Some(pi)
            &&& bone.parent.unwrap() < states.len()
            &&& point_of(view.points@, states[bone.parent.unwrap() as int], true) is Some
            &&& point_of(view.points@, states[i], true) is Some
        },
{
}

pub open spec fn skeleton_cmds_upto(
    s: EspPlayerSettings,
    model: ModelInfo,
    states: Seq<WorldPos>,
    view: ProjectionView,
    pct: int,
    dist: int,
    n: int,
) -> Seq<CmdV>
    decreases n,
{
    if n <= 0 {
        Seq::empty()
    } else {
        skeleton_cmds_upto(s, model, states, view, pct, dist, n - 1) + bone_segment(
            s,
            model,
            states,
            view,
            pct,
            dist,
            n - 1,
        )
    }
}

/// All skeleton segments of one actor, in bone-table order; the bone table
/// is walked in step with the bone states, up to the shorter of the two.
#[verifier::opaque]
pub open spec fn skeleton_cmds(
    s: EspPlayerSettings,
    model: ModelInfo,
    states: Seq<WorldPos>,
    view: ProjectionView,
    pct: int,
    dist: int,
) -> Seq<CmdV> {
    let n = if model.bones@.len() <= states.len() {
        model.bones@.len() as int
    } else {
        states.len() as int
    };
    skeleton_cmds_upto(s, model, states, view, pct, dist, n)
}

pub fn skeleton_commands(
    s: &EspPlayerSettings,
    model: &ModelInfo,
    states: &Vec<WorldPos>,
    view: &ProjectionView,
    pct: u8,
    dist: i64,
    out: &mut Vec<DrawCommand>,
)
    requires
        player_settings_ok(*s),
        pct <= 100,
        0 <= dist,
    ensures
        cmds_view(final(out)@) == cmds_view(old(out)@) + skeleton_cmds(
            *s,
            *model,
            states@,
            *view,
            pct as int,
            dist as int,
        ),
{
    proof {
        reveal(skeleton_cmds);
    }
    let ghost out0 = old(out)@;
    let n = if model.bones.len() <= states.len() {
        model.bones.len()
    } else {
        states.len()
    };
    let mut i: usize = 0;
    while i < n
        invariant
            0 <= i <= n,
            n == (if model.bones@.len() <= states@.len() {
                model.bones@.len()
            } else {
                states@.len()
            }),
            player_settings_ok(*s),
            pct <= 100,
            0 <= dist,
            cmds_view(out@) == cmds_view(out0) + skeleton_cmds_upto(
                *s,
                *model,
                states@,
                *view,
                pct as int,
                dist as int,
                i as int,
            ),
        decreases n - i,
    {
        let ghost pre = out@;
        let bone = &model.bones[i];
        if bone.flags & BONE_FLAG_HITBOX != 0 {
            match bone.parent {
                Option::Some(pi) => if pi < states.len() {
                    match view.world_to_screen(states[pi], true) {
                        Option::Some(pp) => match view.world_to_screen(states[i], true) {
                            Option::Some(bp) => {
                                let color = calculate_color(&s.skeleton_color, pct, dist);
                                out.push(
                                    DrawCommand::Line {
                                        from: pp,
                                        to: bp,
                                        color,
                                        thickness: s.skeleton_width,
                                    },
                                );
                            },
                            Option::None => {},
                        },
                        Option::None => {},
                    }
                },
                Option::None => {},
            }
        }
        proof {
            let seg = bone_segment(*s, *model, states@, *view, pct as int, dist as int, i as int);
            if out@.len() > pre.len() {
                lemma_cmds_view_push(pre, out@.last());
                assert(out@.drop_last() =~= pre);
                assert(out@ =~= pre.push(out@.last()));
                assert(cmds_view(out@) =~= cmds_view(pre) + seg);
            } else {
                assert(cmds_view(out@) =~= cmds_view(pre) + seg);
            }
            assert(cmds_view(out0) + skeleton_cmds_upto(
                *s,
                *model,
                states@,
                *view,
                pct as int,
                dist as int,
                i as int,
            ) + seg =~= cmds_view(out0) + skeleton_cmds_upto(
                *s,
                *model,
                states@,
                *view,
                pct as int,
                dist as int,
                i as int + 1,
            ));
        }
        i = i + 1;
    }
}

/// Largest apparent head size, in screen units, the marker is scaled from.
pub const MAX_HEAD_SIZE: i64 = 250;

/// Index of the first bone carrying the head bone name, searched from the
/// front of the bone table.
pub open spec fn find_head_from(bones: Seq<Bone>, i: int) -> Option<int>
    decreases bones.len() - i,
{
    if i < 0 || i >= bones.len() {
        Option::None
    } else if bones[i].name@ == "head_0"@ {
        Option::Some(i)
    } else {
        find_head_from(bones, i + 1)
    }
}

pub fn find_head_bone(bones: &Vec<Bone>) -> (r: Option<usize>)
    ensures
        match r {
            Option::Some(i) => find_head_from(bones@, 0) == Option::Some(i as int),
            Option::None => find_head_from(bones@, 0) is None,
        },
{
    let head = String::from_str("head_0");
    let mut i: usize = 0;
    while i < bones.len()
        invariant
            0 <= i <= bones@.len(),
            head@ == "head_0"@,
            find_head_from(bones@, 0) == find_head_from(bones@, i as int),
        decreases bones@.len() - i,
    {
        if bones[i].name == head {
            return Option::Some(i);
        }
        i = i + 1;
    }
    Option::None
}

/// The head marker of one actor: a circle sized from the apparent on-screen
/// head diameter, capped, filled or outlined per the configured style.
#[verifier::opaque]
pub open spec fn head_cmds(
    s: EspPlayerSettings,
    model: ModelInfo,
    states: Seq<WorldPos>,
    view: ProjectionView,
    pct: int,
    dist: int,
) -> Seq<CmdV> {
    if s.head_dot == EspHeadDot::Off {
        Seq::empty()
    } else {
        match find_head_from(model.bones@, 0) {
            Option::Some(hi) => if hi < states.len() {
                let hp = states[hi];
                let near = world_sum(hp, WorldPos { x: 0, y: 0, z: s.head_dot_z });
                let far = world_sum(hp, WorldPos { x: 0, y: 0, z: (s.head_dot_z + 2) as i64 });
                match (point_of(view.points@, near, true), point_of(view.points@, far, true)) {
                    (Option::Some(hpos), Option::Some(hfar)) => {
                        let dy = if hpos.y >= hfar.y {
                            hpos.y - hfar.y
                        } else {
                            hfar.y - hpos.y
                        };
                        let capped = if dy < MAX_HEAD_SIZE {
                            dy
                        } else {
                            MAX_HEAD_SIZE as int
                        };
                        seq![
                            CmdV::Circle {
                                center: hpos,
                                radius: capped * s.head_dot_base_radius / 100,
                                color: eval_color(s.head_dot_color, pct, dist),
                                filled: s.head_dot == EspHeadDot::Filled,
                                thickness: if s.head_dot == EspHeadDot::Filled {
                                    0
                                } else {
                                    s.head_dot_thickness as int
                                },
                            },
                        ]
                    },
                    _ => Seq::empty(),
                }
            } else {
                Seq::empty()
            },
            Option::None => Seq::empty(),
        }
    }
}

pub fn head_dot_commands(
    s: &EspPlayerSettings,
    model: &ModelInfo,
    states: &Vec<WorldPos>,
    view: &ProjectionView,
    pct: u8,
    dist: i64,
    out: &mut Vec<DrawCommand>,
)
    requires
        player_settings_ok(*s),
        view_ok(*view),
        forall|i: int| 0 <= i < states@.len() ==> world_ok(#[trigger] states@[i]),
        pct <= 100,
        0 <= dist,
    ensures
        cmds_view(final(out)@) == cmds_view(old(out)@) + head_cmds(
            *s,
            *model,
            states@,
            *view,
            pct as int,
            dist as int,
        ),
{
    proof {
        reveal(head_cmds);
    }
    let ghost pre = out@;
    let ghost target = head_cmds(*s, *model, states@, *view, pct as int, dist as int);
    let is_off = match s.head_dot {
        EspHeadDot::Off => true,
        _ => false,
    };
    if !is_off {
        match find_head_bone(&model.bones) {
            Option::Some(hi) => if hi < states.len() {
                let hp = states[hi];
                let near = crate::geom::world_add(hp, WorldPos { x: 0, y: 0, z: s.head_dot_z });
                let far = crate::geom::world_add(
                    hp,
                    WorldPos { x: 0, y: 0, z: s.head_dot_z + 2 },
                );
                match view.world_to_screen(near, true) {
                    Option::Some(hpos) => match view.world_to_screen(far, true) {
                        Option::Some(hfar) => {
                            proof {
                                lemma_point_of_screen_ok(*view, near, true);
                                lemma_point_of_screen_ok(*view, far, true);
                            }
                            let dy = if hpos.y >= hfar.y {
                                hpos.y - hfar.y
                            } else {
                                hfar.y - hpos.y
                            };
                            let capped = if dy < MAX_HEAD_SIZE {
                                dy
                            } else {
                                MAX_HEAD_SIZE
                            };
                            proof {
                                assert(0 <= capped * s.head_dot_base_radius <= 2_500_000_000)
                                    by (nonlinear_arith)
                                    requires
                                        0 <= capped <= 250,
                                        0 <= s.head_dot_base_radius <= 10_000,
                                ;
                            }
                            let radius = capped * s.head_dot_base_radius / 100;
                            let filled = match s.head_dot {
                                EspHeadDot::Filled => true,
                                _ => false,
                            };
                            let color = calculate_color(&s.head_dot_color, pct, dist);
                            out.push(
                                DrawCommand::Circle {
                                    center: hpos,
                                    radius,
                                    color,
                                    filled,
                                    thickness: if filled {
                                        0
                                    } else {
                                        s.head_dot_thickness
                                    },
                                },
                            );
                        },
                        Option::None => {},
                    },
                    Option::None => {},
                }
            },
            Option::None => {},
        }
    }
    proof {
        if out@.len() > pre.len() {
            lemma_cmds_view_push(pre, out@.last());
            assert(out@ =~= pre.push(out@.last()));
            assert(cmds_view(out@) =~= cmds_view(pre) + target);
        } else {
            assert(cmds_view(out@) =~= cmds_view(pre) + target);
        }
    }
}

/// The bounding shape of one actor: a projected 2D rectangle, a world-space
/// box handed on for live projection, or nothing, per the configured style.
#[verifier::opaque]
pub open spec fn box_cmds(
    s: EspPlayerSettings,
    model: ModelInfo,
    pos: WorldPos,
    box2d: Option<(ScreenPos, ScreenPos)>,
    pct: int,
    dist: int,
) -> Seq<CmdV> {
    match s.box_type {
        EspBoxType::Off => Seq::empty(),
        EspBoxType::Box2D => match box2d {
            Option::Some(r) => seq![
                CmdV::Rect {
                    min: r.0,
                    max: r.1,
                    color: eval_color(s.box_color, pct, dist),
                    thickness: s.box_width as int,
                    filled: false,
                },
            ],
            Option::None => Seq::empty(),
        },
        EspBoxType::Box3D => seq![
            CmdV::Box3D {
                min: world_sum(model.vhull_min, pos),
                max: world_sum(model.vhull_max, pos),
                color: eval_color(s.box_color, pct, dist),
                width: s.box_width as int,
            },
        ],
    }
}

pub fn box_commands(
    s: &EspPlayerSettings,
    model: &ModelInfo,
    pos: WorldPos,
    box2d: Option<(ScreenPos, ScreenPos)>,
    pct: u8,
    dist: i64,
    out: &mut Vec<DrawCommand>,
)
    requires
        player_settings_ok(*s),
        crate::actor::model_ok(*model),
        world_ok(pos),
        pct <= 100,
        0 <= dist,
    ensures
        cmds_view(final(out)@) == cmds_view(old(out)@) + box_cmds(
            *s,
            *model,
            pos,
            box2d,
            pct as int,
            dist as int,
        ),
{
    proof {
        reveal(box_cmds);
    }
    let ghost pre = out@;
    let ghost target = box_cmds(*s, *model, pos, box2d, pct as int, dist as int);
    match s.box_type {
        EspBoxType::Off => {},
        EspBoxType::Box2D => match box2d {
            Option::Some(r) => {
                let color = calculate_color(&s.box_color, pct, dist);
                out.push(
                    DrawCommand::Rect {
                        min: r.0,
                        max: r.1,
                        color,
                        thickness: s.box_width,
                        filled: false,
                    },
                );
            },
            Option::None => {},
        },
        EspBoxType::Box3D => {
            let color = calculate_color(&s.box_color, pct, dist);
            let bmin = crate::geom::world_add(model.vhull_min, pos);
            let bmax = crate::geom::world_add(model.vhull_max, pos);
            out.push(DrawCommand::Box3D { min: bmin, max: bmax, color, width: s.box_width });
        },
    }
    proof {
        if out@.len() > pre.len() {
            lemma_cmds_view_push(pre, out@.last());
            assert(out@ =~= pre.push(out@.last()));
            assert(cmds_view(out@) =~= cmds_view(pre) + target);
        } else {
            assert(cmds_view(out@) =~= cmds_view(pre) + target);
        }
    }
}

/// Placement of the health bar beside the 2D box: position and size, per
/// the configured side.
pub open spec fn bar_rect(
    side: EspHealthBar,
    vmin: ScreenPos,
    vmax: ScreenPos,
    box_width: int,
    bar_width: int,
) -> Option<(int, int, int, int)> {
    match side {
        EspHealthBar::Off => Option::None,
        EspHealthBar::Left => Option::Some(
            (
                vmin.x - box_width / 2 - bar_width,
                vmin.y - box_width / 2,
                bar_width,
                vmax.y - vmin.y + box_width,
            ),
        ),
        EspHealthBar::Right => Option::Some(
            (vmax.x + box_width / 2, vmin.y - box_width / 2, bar_width, vmax.y - vmin.y + box_width),
        ),
        EspHealthBar::Top => Option::Some(
            (
                vmin.x - box_width / 2,
                vmin.y - box_width / 2 - bar_width,
                vmax.x - vmin.x + box_width,
                bar_width,
            ),
        ),
        EspHealthBar::Bottom => Option::Some(
            (vmin.x - box_width / 2, vmax.y + box_width / 2, vmax.x - vmin.x + box_width, bar_width),
        ),
    }
}

/// The health bar of one actor: a black border and a two-segment fill, the
/// empty part red, the remaining part green, split along the bar's longer
/// axis in proportion to the health fraction.
#[verifier::opaque]
pub open spec fn health_bar_cmds(
    s: EspPlayerSettings,
    vmin: ScreenPos,
    vmax: ScreenPos,
    pct: int,
) -> Seq<CmdV> {
    match bar_rect(s.health_bar, vmin, vmax, s.box_width as int, s.health_bar_width as int) {
        Option::None => Seq::empty(),
        Option::Some((x0, y0, w0, h0)) => {
            let border = CmdV::Rect {
                min: ScreenPos { x: x0 as i64, y: y0 as i64 },
                max: ScreenPos { x: (x0 + w0) as i64, y: (y0 + h0) as i64 },
                color: (Rgba { r: 0, g: 0, b: 0, a: 255 }),
                thickness: 1,
                filled: false,
            };
            let x = x0 + 1;
            let y = y0 + 1;
            let w = w0 - 3;
            let h = h0 - 3;
            let red = Rgba { r: 255, g: 0, b: 0, a: 255 };
            let green = Rgba { r: 0, g: 255, b: 0, a: 255 };
            if w < h {
                let yoff = y + fill_offset(h, pct);
                seq![
                    border,
                    CmdV::Rect {
                        min: ScreenPos { x: x as i64, y: y as i64 },
                        max: ScreenPos { x: (x + w) as i64, y: yoff as i64 },
                        color: red,
                        thickness: 0,
                        filled: true,
                    },
                    CmdV::Rect {
                        min: ScreenPos { x: x as i64, y: yoff as i64 },
                        max: ScreenPos { x: (x + w) as i64, y: (y + h) as i64 },
                        color: green,
                        thickness: 0,
                        filled: true,
                    },
                ]
            } else {
                let xoff = x + fill_offset(w, pct);
                seq![
                    border,
                    CmdV::Rect {
                        min: ScreenPos { x: x as i64, y: y as i64 },
                        max: ScreenPos { x: xoff as i64, y: (y + h) as i64 },
                        color: red,
                        thickness: 0,
                        filled: true,
                    },
                    CmdV::Rect {
                        min: ScreenPos { x: xoff as i64, y: y as i64 },
                        max: ScreenPos { x: (x + w) as i64, y: (y + h) as i64 },
                        color: green,
                        thickness: 0,
                        filled: true,
                    },
                ]
            }
        },
    }
}

pub fn health_bar_commands(
    s: &EspPlayerSettings,
    vmin: ScreenPos,
    vmax: ScreenPos,
    pct: u8,
    out: &mut Vec<DrawCommand>,
)
    requires
        player_settings_ok(*s),
        screen_ok(vmin),
        screen_ok(vmax),
        pct <= 100,
    ensures
        cmds_view(final(out)@) == cmds_view(old(out)@) + health_bar_cmds(
            *s,
            vmin,
            vmax,
            pct as int,
        ),
{
    proof {
        reveal(health_bar_cmds);
    }
    let ghost pre = out@;
    let ghost target = health_bar_cmds(*s, vmin, vmax, pct as int);
    let bounds: Option<(i64, i64, i64, i64)> = match s.health_bar {
        EspHealthBar::Off => Option::None,
        EspHealthBar::Left => Option::Some(
            (
                vmin.x - s.box_width / 2 - s.health_bar_width,
                vmin.y - s.box_width / 2,
                s.health_bar_width,
                vmax.y - vmin.y + s.box_width,
            ),
        ),
        EspHealthBar::Right => Option::Some(
            (
                vmax.x + s.box_width / 2,
                vmin.y - s.box_width / 2,
                s.health_bar_width,
                vmax.y - vmin.y + s.box_width,
            ),
        ),
        EspHealthBar::Top => Option::Some(
            (
                vmin.x - s.box_width / 2,
                vmin.y - s.box_width / 2 - s.health_bar_width,
                vmax.x - vmin.x + s.box_width,
                s.health_bar_width,
            ),
        ),
        EspHealthBar::Bottom => Option::Some(
            (
                vmin.x - s.box_width / 2,
                vmax.y + s.box_width / 2,
                vmax.x - vmin.x + s.box_width,
                s.health_bar_width,
            ),
        ),
    };
    match bounds {
        Option::None => {},
        Option::Some((x0, y0, w0, h0)) => {
            out.push(
                DrawCommand::Rect {
                    min: ScreenPos { x: x0, y: y0 },
                    max: ScreenPos { x: x0 + w0, y: y0 + h0 },
                    color: Rgba { r: 0, g: 0, b: 0, a: 255 },
                    thickness: 1,
                    filled: false,
                },
            );
            let x = x0 + 1;
            let y = y0 + 1;
            let w = w0 - 3;
            let h = h0 - 3;
            let red = Rgba { r: 255, g: 0, b: 0, a: 255 };
            let green = Rgba { r: 0, g: 255, b: 0, a: 255 };
            if w < h {
                let eff = if h < 0 {
                    0
                } else {
                    h
                };
                proof {
                    assert(0 <= (100 - pct) * eff <= 300_000_000) by (nonlinear_arith)
                        requires
                            0 <= 100 - pct <= 100,
                            0 <= eff <= 3_000_000,
                    ;
                }
                let yoff = y + (100 - pct as i64) * eff / 100;
                out.push(
                    DrawCommand::Rect {
                        min: ScreenPos { x, y },
                        max: ScreenPos { x: x + w, y: yoff },
                        color: red,
                        thickness: 0,
                        filled: true,
                    },
                );
                out.push(
                    DrawCommand::Rect {
                        min: ScreenPos { x, y: yoff },
                        max: ScreenPos { x: x + w, y: y + h },
                        color: green,
                        thickness: 0,
                        filled: true,
                    },
                );
            } else {
                let eff = if w < 0 {
                    0
                } else {
                    w
                };
                proof {
                    assert(0 <= (100 - pct) * eff <= 300_000_000) by (nonlinear_arith)
                        requires
                            0 <= 100 - pct <= 100,
                            0 <= eff <= 3_000_000,
                    ;
                }
                let xoff = x + (100 - pct as i64) * eff / 100;
                out.push(
                    DrawCommand::Rect {
                        min: ScreenPos { x, y },
                        max: ScreenPos { x: xoff, y: y + h },
                        color: red,
                        thickness: 0,
                        filled: true,
                    },
                );
                out.push(
                    DrawCommand::Rect {
                        min: ScreenPos { x: xoff, y },
                        max: ScreenPos { x: x + w, y: y + h },
                        color: green,
                        thickness: 0,
                        filled: true,
                    },
                );
            }
        },
    }
    proof {
        assert(cmds_view(out@) =~= cmds_view(pre) + target);
    }
}

pub open spec fn lines_view(s: Seq<(Rgba, String)>) -> Seq<(Rgba, Seq<char>)> {
    s.map_values(|p: (Rgba, String)| (p.0, p.1@))
}

proof fn lemma_lines_view_push(s: Seq<(Rgba, String)>, x: (Rgba, String))
    ensures
        lines_view(s.push(x)) == lines_view(s).push((x.0, x.1@)),
{
    assert(lines_view(s.push(x)) =~= lines_view(s).push((x.0, x.1@)));
}

/// The text lines of one actor's label stack, in order: name, weapon,
/// health, status flags, distance — each present exactly when its option is
/// enabled (the flags line only when some flag applies).
#[verifier::opaque]
pub open spec fn label_lines(s: EspPlayerSettings, info: PawnInfo, pct: int, dist: int) -> Seq<
    (Rgba, Seq<char>),
> {
    let kit = s.info_flag_kit && info.player_has_defuser;
    let flashed = s.info_flag_flashed && info.player_flashtime > 0;
    (if s.info_name {
        seq![
            (
                eval_color(s.info_name_color, pct, dist),
                match info.player_name {
                    Option::Some(n) => n@,
                    Option::None => "unknown"@,
                },
            ),
        ]
    } else {
        Seq::empty()
    }) + (if s.info_weapon {
        seq![(eval_color(s.info_weapon_color, pct, dist), info.weapon.spec_display_name())]
    } else {
        Seq::empty()
    }) + (if s.info_hp_text {
        seq![(eval_color(s.info_hp_text_color, pct, dist), dec_seq(info.player_health as int) + " HP"@)]
    } else {
        Seq::empty()
    }) + (if kit || flashed {
        seq![(eval_color(s.info_flags_color, pct, dist), flags_seq(kit, flashed))]
    } else {
        Seq::empty()
    }) + (if s.info_distance {
        seq![(eval_color(s.info_distance_color, pct, dist), dec_seq(dist) + "m"@)]
    } else {
        Seq::empty()
    })
}

/// Horizontal gap between the 2D box and the label stack, in screen units.
pub const LABEL_OFFSET_X: i64 = 5;

/// Vertical step between label lines, in screen units.
pub const LABEL_LINE_HEIGHT: i64 = 16;

/// The label stack placed beside the 2D box: line `k` sits one line height
/// below line `k - 1`, starting level with the box top.
#[verifier::opaque]
pub open spec fn label_cmds(
    lines: Seq<(Rgba, Seq<char>)>,
    vmin: ScreenPos,
    vmax: ScreenPos,
) -> Seq<CmdV> {
    Seq::new(
        lines.len(),
        |k: int|
            CmdV::Text {
                pos: ScreenPos {
                    x: (vmax.x + LABEL_OFFSET_X) as i64,
                    y: (vmin.y + LABEL_LINE_HEIGHT * k) as i64,
                },
                color: lines[k].0,
                text: lines[k].1,
            },
    )
}

#[verifier::rlimit(100)]
#[verifier::spinoff_prover]
pub fn label_commands(
    s: &EspPlayerSettings,
    info: &PawnInfo,
    pct: u8,
    dist: i64,
    vmin: ScreenPos,
    vmax: ScreenPos,
    out: &mut Vec<DrawCommand>,
)
    requires
        player_settings_ok(*s),
        screen_ok(vmin),
        screen_ok(vmax),
        0 <= info.player_health,
        pct <= 100,
        0 <= dist,
    ensures
        cmds_view(final(out)@) == cmds_view(old(out)@) + label_cmds(
            label_lines(*s, *info, pct as int, dist as int),
            vmin,
            vmax,
        ),
{
    proof {
        reveal(label_lines);
        reveal(label_cmds);
    }
    let ghost pre = out@;
    let ghost target_lines = label_lines(*s, *info, pct as int, dist as int);
    let mut lines: Vec<(Rgba, String)> = Vec::new();
    if s.info_name {
        let name = match &info.player_name {
            Option::Some(n) => n.clone(),
            Option::None => String::from_str("unknown"),
        };
        let color = calculate_color(&s.info_name_color, pct, dist);
        proof {
            lemma_lines_view_push(lines@, (color, name));
        }
        lines.push((color, name));
    }
    if s.info_weapon {
        let text = info.weapon.display_name();
        let color = calculate_color(&s.info_weapon_color, pct, dist);
        proof {
            lemma_lines_view_push(lines@, (color, text));
        }
        lines.push((color, text));
    }
    if s.info_hp_text {
        let text = hp_text(info.player_health as u64);
        let color = calculate_color(&s.info_hp_text_color, pct, dist);
        proof {
            lemma_lines_view_push(lines@, (color, text));
        }
        lines.push((color, text));
    }
    let kit = s.info_flag_kit && info.player_has_defuser;
    let flashed = s.info_flag_flashed && info.player_flashtime > 0;
    if kit || flashed {
        let text = flags_text(kit, flashed);
        let color = calculate_color(&s.info_flags_color, pct, dist);
        proof {
            lemma_lines_view_push(lines@, (color, text));
        }
        lines.push((color, text));
    }
    if s.info_distance {
        let text = dist_text(dist as u64);
        let color = calculate_color(&s.info_distance_color, pct, dist);
        proof {
            lemma_lines_view_push(lines@, (color, text));
        }
        lines.push((color, text));
    }
    proof {
        assert(lines_view(lines@) =~= target_lines);
        assert(lines@.len() <= 5);
        assert(label_cmds(target_lines, vmin, vmax).take(0) =~= Seq::<CmdV>::empty());
    }
    let mut k: usize = 0;
    while k < lines.len()
        invariant
            0 <= k <= lines@.len(),
            lines@.len() <= 5,
            lines_view(lines@) == target_lines,
            screen_ok(vmin),
            screen_ok(vmax),
            cmds_view(out@) == cmds_view(pre) + label_cmds(target_lines, vmin, vmax).take(k as int),
        decreases lines@.len() - k,
    {
        let ghost before = out@;
        let entry = &lines[k];
        let text = entry.1.clone();
        out.push(
            DrawCommand::Text {
                pos: ScreenPos {
                    x: vmax.x + LABEL_OFFSET_X,
                    y: vmin.y + LABEL_LINE_HEIGHT * (k as i64),
                },
                color: entry.0,
                text,
            },
        );
        proof {
            reveal(label_cmds);
            lemma_cmds_view_push(before, out@.last());
            assert(out@ =~= before.push(out@.last()));
            assert(cmd_view(out@.last()) == label_cmds(target_lines, vmin, vmax)[k as int]);
            assert(label_cmds(target_lines, vmin, vmax).take(k as int + 1) =~= label_cmds(
                target_lines,
                vmin,
                vmax,
            ).take(k as int).push(label_cmds(target_lines, vmin, vmax)[k as int]));
        }
        k = k + 1;
    }
    proof {
        reveal(label_cmds);
        assert(label_cmds(target_lines, vmin, vmax).take(lines@.len() as int) =~= label_cmds(
            target_lines,
            vmin,
            vmax,
        ));
    }
}

/// The fixed screen anchor of a tracer line, per the configured position.
pub open spec fn tracer_origin(t: EspTracePosition, bounds: ScreenPos) -> Option<ScreenPos> {
    match t {
        EspTracePosition::Off => Option::None,
        EspTracePosition::TopLeft => Option::Some(ScreenPos { x: 0, y: 0 }),
        EspTracePosition::TopCenter => Option::Some(ScreenPos { x: (bounds.x / 2) as i64, y: 0 }),
        EspTracePosition::TopRight => Option::Some(ScreenPos { x: bounds.x, y: 0 }),
        EspTracePosition::Center => Option::Some(ScreenPos { x: (bounds.x / 2) as i64, y: (bounds.y / 2) as i64 }),
        EspTracePosition::BottomLeft => Option::Some(ScreenPos { x: 0, y: bounds.y }),
        EspTracePosition::BottomCenter => Option::Some(ScreenPos { x: (bounds.x / 2) as i64, y: bounds.y }),
        EspTracePosition::BottomRight => Option::Some(ScreenPos { x: bounds.x, y: bounds.y }),
    }
}

/// The tracer line of one actor: from the configured screen anchor to the
/// actor's unclamped screen point, when that point projects.
#[verifier::opaque]
pub open spec fn tracer_cmds(
    s: EspPlayerSettings,
    view: ProjectionView,
    pos: WorldPos,
    pct: int,
    dist: int,
) -> Seq<CmdV> {
    match point_of(view.points@, pos, false) {
        Option::Some(sp) => match tracer_origin(s.tracer_lines, view.screen_bounds) {
            Option::Some(origin) => seq![
                CmdV::Line {
                    from: origin,
                    to: sp,
                    color: eval_color(s.tracer_lines_color, pct, dist),
                    thickness: s.tracer_lines_width as int,
                },
            ],
            Option::None => Seq::empty(),
        },
        Option::None => Seq::empty(),
    }
}

pub fn tracer_commands(
    s: &EspPlayerSettings,
    view: &ProjectionView,
    pos: WorldPos,
    pct: u8,
    dist: i64,
    out: &mut Vec<DrawCommand>,
)
    requires
        player_settings_ok(*s),
        view_ok(*view),
        pct <= 100,
        0 <= dist,
    ensures
        cmds_view(final(out)@) == cmds_view(old(out)@) + tracer_cmds(
            *s,
            *view,
            pos,
            pct as int,
            dist as int,
        ),
{
    proof {
        reveal(tracer_cmds);
    }
    let ghost pre = out@;
    let ghost target = tracer_cmds(*s, *view, pos, pct as int, dist as int);
    match view.world_to_screen(pos, false) {
        Option::Some(sp) => {
            let origin: Option<ScreenPos> = match s.tracer_lines {
                EspTracePosition::Off => Option::None,
                EspTracePosition::TopLeft => Option::Some(ScreenPos { x: 0, y: 0 }),
                EspTracePosition::TopCenter => Option::Some(
                    ScreenPos { x: view.screen_bounds.x / 2, y: 0 },
                ),
                EspTracePosition::TopRight => Option::Some(
                    ScreenPos { x: view.screen_bounds.x, y: 0 },
                ),
                EspTracePosition::Center => Option::Some(
                    ScreenPos { x: view.screen_bounds.x / 2, y: view.screen_bounds.y / 2 },
                ),
                EspTracePosition::BottomLeft => Option::Some(
                    ScreenPos { x: 0, y: view.screen_bounds.y },
                ),
                EspTracePosition::BottomCenter => Option::Some(
                    ScreenPos { x: view.screen_bounds.x / 2, y: view.screen_bounds.y },
                ),
                EspTracePosition::BottomRight => Option::Some(
                    ScreenPos { x: view.screen_bounds.x, y: view.screen_bounds.y },
                ),
            };
            match origin {
                Option::Some(o) => {
                    let color = calculate_color(&s.tracer_lines_color, pct, dist);
                    out.push(
                        DrawCommand::Line { from: o, to: sp, color, thickness: s.tracer_lines_width },
                    );
                },
                Option::None => {},
            }
        },
        Option::None => {},
    }
    proof {
        if out@.len() > pre.len() {
            lemma_cmds_view_push(pre, out@.last());
            assert(out@ =~= pre.push(out@.last()));
        }
        assert(cmds_view(out@) =~= cmds_view(pre) + target);
    }
}

/// Everything one render pass yields, as mathematical values.
pub struct RenderV {
    pub commands: Seq<CmdV>,
    pub glyphs: Seq<Seq<char>>,
}

/// The projected 2D rectangle gating box, health bar and label draws of one
/// actor: the model hull offset by the actor position, projected.
pub open spec fn actor_box2d(
    model: ModelInfo,
    entry: PlayerESPInfo,
    view: ProjectionView,
) -> Option<(ScreenPos, ScreenPos)> {
    hull_of(
        view.hulls@,
        world_sum(model.vhull_min, entry.pawn_info.position),
        world_sum(model.vhull_max, entry.pawn_info.position),
    )
}

/// All commands one actor contributes, in emission order: skeleton, head
/// marker, bounding shape, health bar, label stack, tracer.
pub open spec fn actor_cmds(
    s: EspPlayerSettings,
    entry: PlayerESPInfo,
    model: ModelInfo,
    view: ProjectionView,
    pct: int,
    dist: int,
) -> Seq<CmdV> {
    let states = entry.pawn_model.bone_states@;
    let box2d = actor_box2d(model, entry, view);
    (if s.skeleton {
        skeleton_cmds(s, model, states, view, pct, dist)
    } else {
        Seq::empty()
    }) + head_cmds(s, model, states, view, pct, dist) + box_cmds(
        s,
        model,
        entry.pawn_info.position,
        box2d,
        pct,
        dist,
    ) + (match box2d {
        Option::Some(r) => health_bar_cmds(s, r.0, r.1, pct),
        Option::None => Seq::empty(),
    }) + (match box2d {
        Option::Some(r) => label_cmds(label_lines(s, entry.pawn_info, pct, dist), r.0, r.1),
        Option::None => Seq::empty(),
    }) + tracer_cmds(s, view, entry.pawn_info.position, pct, dist)
}

/// The texts one actor hands to the glyph-preparation collaborator: the
/// drawn name, exactly when the name line is drawn.
pub open spec fn actor_glyphs(
    s: EspPlayerSettings,
    entry: PlayerESPInfo,
    box2d: Option<(ScreenPos, ScreenPos)>,
) -> Seq<Seq<char>> {
    if box2d is Some && s.info_name && entry.pawn_info.player_name is Some {
        seq![entry.pawn_info.player_name.unwrap()@]
    } else {
        Seq::empty()
    }
}

/// What one snapshot record yields: nothing when no profile resolves or the
/// near-players filter applies, an error when its model is missing from the
/// store, and its commands and glyph texts otherwise.
pub open spec fn actor_result(
    entry: PlayerESPInfo,
    settings: AppSettings,
    local_team: u8,
    view: ProjectionView,
    models: Seq<(u64, ModelInfo)>,
    cam: WorldPos,
) -> Result<RenderV, EspError> {
    let dist = dist_meters(entry.pawn_info.position, cam);
    match spec_resolve(settings, start_selector(local_team, entry.pawn_info)) {
        Option::None => Result::Ok(RenderV { commands: Seq::empty(), glyphs: Seq::empty() }),
        Option::Some(s) => if s.near_players && dist > s.near_players_distance {
            Result::Ok(RenderV { commands: Seq::empty(), glyphs: Seq::empty() })
        } else {
            match model_of(models, entry.pawn_model.model_id) {
                Option::None => Result::Err(
                    EspError::ModelRead { model_id: entry.pawn_model.model_id },
                ),
                Option::Some(model) => {
                    let pct = clamp_pct(entry.pawn_info.player_health as int);
                    Result::Ok(
                        RenderV {
                            commands: actor_cmds(s, entry, model, view, pct, dist),
                            glyphs: actor_glyphs(s, entry, actor_box2d(model, entry, view)),
                        },
                    )
                },
            }
        },
    }
}

/// One whole render pass over a snapshot, first record first; the first
/// missing model aborts the pass with its error.
pub open spec fn render_seq(
    players: Seq<PlayerESPInfo>,
    settings: AppSettings,
    local_team: u8,
    view: ProjectionView,
    models: Seq<(u64, ModelInfo)>,
    cam: WorldPos,
) -> Result<RenderV, EspError>
    decreases players.len(),
{
    if players.len() == 0 {
        Result::Ok(RenderV { commands: Seq::empty(), glyphs: Seq::empty() })
    } else {
        match render_seq(players.drop_last(), settings, local_team, view, models, cam) {
            Result::Err(e) => Result::Err(e),
            Result::Ok(acc) => match actor_result(
                players.last(),
                settings,
                local_team,
                view,
                models,
                cam,
            ) {
                Result::Err(e) => Result::Err(e),
                Result::Ok(av) => Result::Ok(
                    RenderV {
                        commands: acc.commands + av.commands,
                        glyphs: acc.glyphs + av.glyphs,
                    },
                ),
            },
        }
    }
}

proof fn lemma_render_seq_err(
    players: Seq<PlayerESPInfo>,
    k: int,
    settings: AppSettings,
    local_team: u8,
    view: ProjectionView,
    models: Seq<(u64, ModelInfo)>,
    cam: WorldPos,
)
    requires
        0 <= k <= players.len(),
        render_seq(players.take(k), settings, local_team, view, models, cam) is Err,
    ensures
        render_seq(players, settings, local_team, view, models, cam) == render_seq(
            players.take(k),
            settings,
            local_team,
            view,
            models,
            cam,
        ),
    decreases players.len() - k,
{
    if k < players.len() {
        assert(players.take(k + 1).drop_last() =~= players.take(k));
        lemma_render_seq_err(players, k + 1, settings, local_team, view, models, cam);
    } else {
        assert(players.take(k) =~= players);
    }
}

proof fn lemma_config_of_member(entries: Seq<(ConfigKey, EspConfig)>, key: ConfigKey)
    ensures
        match config_of(entries, key) {
            Option::Some(c) => exists|i: int|
                0 <= i < entries.len() && (#[trigger] entries[i]).1 == c,
            Option::None => true,
        },
    decreases entries.len(),
{
    if entries.len() > 0 && entries[0].0 != key {
        lemma_config_of_member(entries.drop_first(), key);
        if config_of(entries, key) is Some {
            let c = config_of(entries, key).unwrap();
            let i = choose|i: int|
                0 <= i < entries.drop_first().len() && (#[trigger] entries.drop_first()[i]).1 == c;
            assert(entries[i + 1].1 == c);
        }
    }
}

proof fn lemma_resolve_settings_ok(settings: AppSettings, sel: EspSelector)
    requires
        settings_ok(settings),
    ensures
        match spec_resolve(settings, sel) {
            Option::Some(p) => player_settings_ok(p),
            Option::None => true,
        },
    decreases sel.depth(),
{
    lemma_config_of_member(settings.esp_settings@, sel.spec_config_key());
    match sel.spec_parent() {
        Option::Some(par) => lemma_resolve_settings_ok(settings, par),
        Option::None => {},
    }
}

proof fn lemma_model_of_member(entries: Seq<(u64, ModelInfo)>, id: u64)
    ensures
        match model_of(entries, id) {
            Option::Some(m) => exists|i: int|
                0 <= i < entries.len() && (#[trigger] entries[i]).1 == m,
            Option::None => true,
        },
    decreases entries.len(),
{
    if entries.len() > 0 && entries[0].0 != id {
        lemma_model_of_member(entries.drop_first(), id);
        if model_of(entries, id) is Some {
            let m = model_of(entries, id).unwrap();
            let i = choose|i: int|
                0 <= i < entries.drop_first().len() && (#[trigger] entries.drop_first()[i]).1 == m;
            assert(entries[i + 1].1 == m);
        }
    }
}

impl PlayerESP {
    /// Render one snapshot record: resolve its profile, apply the
    /// near-players filter, and append this actor's commands and glyph
    /// texts — or report its missing model, appending nothing.
    #[verifier::rlimit(100)]
    #[verifier::spinoff_prover]
    fn render_actor(
        &self,
        entry: &PlayerESPInfo,
        settings: &AppSettings,
        view: &ProjectionView,
        models: &ModelStore,
        cam: WorldPos,
        commands: &mut Vec<DrawCommand>,
        glyphs: &mut Vec<String>,
    ) -> (r: Result<(), EspError>)
        requires
            settings_ok(*settings),
            view_ok(*view),
            store_ok(*models),
            record_ok(*entry),
            world_ok(cam),
        ensures
            match actor_result(*entry, *settings, self.local_team_id, *view, models.entries@, cam) {
                Result::Ok(av) => r == Result::Ok::<(), EspError>(())
                    && cmds_view(final(commands)@) == cmds_view(old(commands)@) + av.commands
                    && texts_view(final(glyphs)@) == texts_view(old(glyphs)@) + av.glyphs,
                Result::Err(e) => r == Result::Err::<(), EspError>(e)
                    && final(commands)@ == old(commands)@ && final(glyphs)@ == old(glyphs)@,
            },
    {
        let ghost pre_c = commands@;
        let ghost pre_g = glyphs@;
        let dist = distance_meters(entry.pawn_info.position, cam);
        match self.resolve_esp_player_config(settings, &entry.pawn_info) {
            Option::None => {
                proof {
                    assert(cmds_view(pre_c) + Seq::<CmdV>::empty() =~= cmds_view(pre_c));
                    assert(texts_view(pre_g) + Seq::<Seq<char>>::empty() =~= texts_view(pre_g));
                }
                Result::Ok(())
            },
            Option::Some(esp_settings) => {
                proof {
                    lemma_resolve_settings_ok(
                        *settings,
                        start_selector(self.local_team_id, entry.pawn_info),
                    );
                }
                if esp_settings.near_players && dist > esp_settings.near_players_distance {
                    proof {
                        assert(cmds_view(pre_c) + Seq::<CmdV>::empty() =~= cmds_view(pre_c));
                        assert(texts_view(pre_g) + Seq::<Seq<char>>::empty() =~= texts_view(pre_g));
                    }
                    Result::Ok(())
                } else {
                    let pct = health_fraction_pct(entry.pawn_info.player_health);
                    match models.lookup(entry.pawn_model.model_id) {
                        Option::None => Result::Err(
                            EspError::ModelRead { model_id: entry.pawn_model.model_id },
                        ),
                        Option::Some(model) => {
                            proof {
                                lemma_model_of_member(models.entries@, entry.pawn_model.model_id);
                            }
                            let bmin = world_add(model.vhull_min, entry.pawn_info.position);
                            let bmax = world_add(model.vhull_max, entry.pawn_info.position);
                            let box2d = view.calculate_box_2d(bmin, bmax);
                            if esp_settings.skeleton {
                                skeleton_commands(esp_settings, model,
                                    &entry.pawn_model.bone_states, view, pct, dist, commands);
                            }
                            head_dot_commands(esp_settings, model, &entry.pawn_model.bone_states,
                                view, pct, dist, commands);
                            box_commands(esp_settings, model, entry.pawn_info.position, box2d, pct,
                                dist, commands);
                            match box2d {
                                Option::Some(rect) => {
                                    proof {
                                        lemma_hull_of_screen_ok(*view, bmin, bmax);
                                    }
                                    health_bar_commands(esp_settings, rect.0, rect.1, pct,
                                        commands);
                                    label_commands(esp_settings, &entry.pawn_info, pct, dist,
                                        rect.0, rect.1, commands);
                                    if esp_settings.info_name {
                                        match &entry.pawn_info.player_name {
                                            Option::Some(n) => {
                                                proof {
                                                    lemma_texts_view_push(glyphs@, *n);
                                                }
                                                glyphs.push(n.clone());
                                            },
                                            Option::None => {},
                                        }
                                    }
                                },
                                Option::None => {},
                            }
                            tracer_commands(esp_settings, view, entry.pawn_info.position, pct,
                                dist, commands);
                            proof {
                                assert(cmds_view(commands@) =~= cmds_view(pre_c) + actor_cmds(
                                    *esp_settings, *entry, *model, *view, pct as int, dist as int));
                                assert(texts_view(glyphs@) =~= texts_view(pre_g) + actor_glyphs(
                                    *esp_settings, *entry, actor_box2d(*model, *entry, *view)));
                            }
                            Result::Ok(())
                        },
                    }
                }
            },
        }
    }

    /// One render pass over the current snapshot: nothing at all when no
    /// camera position is available; otherwise each actor's commands in
    /// snapshot order, or the first missing model's error.
    pub fn render(&self, settings: &AppSettings, view: &ProjectionView, models: &ModelStore) -> (r:
        Result<DrawOutput, EspError>)
        requires
            settings_ok(*settings),
            view_ok(*view),
            store_ok(*models),
            forall|k: int| 0 <= k < self.players@.len() ==> record_ok(#[trigger] self.players@[k]),
        ensures
            view.camera_world is None ==> (r matches Result::Ok(out) && out.commands@.len() == 0
                && out.glyph_texts@.len() == 0),
            view.camera_world matches Option::Some(cam) ==> match render_seq(
                self.players@,
                *settings,
                self.local_team_id,
                *view,
                models.entries@,
                cam,
            ) {
                Result::Ok(rv) => r matches Result::Ok(out) && cmds_view(out.commands@)
                    == rv.commands && texts_view(out.glyph_texts@) == rv.glyphs,
                Result::Err(e) => r == Result::Err::<DrawOutput, EspError>(e),
            },
    {
        let cam = match view.camera_world {
            Option::Some(c) => c,
            Option::None => {
                return Result::Ok(DrawOutput { commands: Vec::new(), glyph_texts: Vec::new() });
            },
        };
        let mut commands: Vec<DrawCommand> = Vec::new();
        let mut glyphs: Vec<String> = Vec::new();
        let ghost all = self.players@;
        proof {
            assert(all.take(0) =~= Seq::<PlayerESPInfo>::empty());
            assert(cmds_view(Seq::<DrawCommand>::empty()) =~= Seq::<CmdV>::empty());
            assert(texts_view(Seq::<String>::empty()) =~= Seq::<Seq<char>>::empty());
        }
        let mut idx: usize = 0;
        while idx < self.players.len()
            invariant
                0 <= idx <= all.len(),
                self.players@ == all,
                settings_ok(*settings),
                view_ok(*view),
                store_ok(*models),
                forall|k: int| 0 <= k < all.len() ==> record_ok(#[trigger] all[k]),
                view.camera_world == Option::Some(cam),
                world_ok(cam),
                render_seq(all.take(idx as int), *settings, self.local_team_id, *view,
                    models.entries@, cam) == Result::Ok::<RenderV, EspError>(
                    (RenderV { commands: cmds_view(commands@), glyphs: texts_view(glyphs@) }),
                ),
            decreases all.len() - idx,
        {
            let entry = &self.players[idx];
            let step = self.render_actor(entry, settings, view, models, cam, &mut commands,
                &mut glyphs);
            proof {
                assert(all.take(idx as int + 1).drop_last() =~= all.take(idx as int));
                assert(all.take(idx as int + 1).last() == all[idx as int]);
            }
            match step {
                Result::Err(e) => {
                    proof {
                        lemma_render_seq_err(all, idx as int + 1, *settings, self.local_team_id,
                            *view, models.entries@, cam);
                    }
                    return Result::Err(e);
                },
                Result::Ok(()) => {},
            }
            idx = idx + 1;
        }
        proof {
            assert(all.take(all.len() as int) =~= all);
        }
        Result::Ok(DrawOutput { commands, glyph_texts: glyphs })
    }
}

} // verus!
