//! Drawing commands: the render pass emits these as plain data; the draw
//! surface replays them outside this crate.

use vstd::prelude::*;
use crate::color::Rgba;
use crate::geom::{ScreenPos, WorldPos};

verus! {

/// One primitive handed to the draw surface.
#[derive(Debug, PartialEq)]
pub enum DrawCommand {
    Line { from: ScreenPos, to: ScreenPos, color: Rgba, thickness: i64 },
    Rect { min: ScreenPos, max: ScreenPos, color: Rgba, thickness: i64, filled: bool },
    Circle { center: ScreenPos, radius: i64, color: Rgba, filled: bool, thickness: i64 },
    Text { pos: ScreenPos, color: Rgba, text: String },
    /// A world-space box the projection collaborator draws edge by edge.
    Box3D { min: WorldPos, max: WorldPos, color: Rgba, width: i64 },
}

/// The mathematical value of a drawing command; text is a character
/// sequence.
pub enum CmdV {
    Line { from: ScreenPos, to: ScreenPos, color: Rgba, thickness: int },
    Rect { min: ScreenPos, max: ScreenPos, color: Rgba, thickness: int, filled: bool },
    Circle { center: ScreenPos, radius: int, color: Rgba, filled: bool, thickness: int },
    Text { pos: ScreenPos, color: Rgba, text: Seq<char> },
    Box3D { min: WorldPos, max: WorldPos, color: Rgba, width: int },
}

pub open spec fn cmd_view(c: DrawCommand) -> CmdV {
    match c {
        DrawCommand::Line { from, to, color, thickness } => CmdV::Line {
            from,
            to,
            color,
            thickness: thickness as int,
        },
        DrawCommand::Rect { min, max, color, thickness, filled } => CmdV::Rect {
            min,
            max,
            color,
            thickness: thickness as int,
            filled,
        },
        DrawCommand::Circle { center, radius, color, filled, thickness } => CmdV::Circle {
            center,
            radius: radius as int,
            color,
            filled,
            thickness: thickness as int,
        },
        DrawCommand::Text { pos, color, text } => CmdV::Text { pos, color, text: text@ },
        DrawCommand::Box3D { min, max, color, width } => CmdV::Box3D {
            min,
            max,
            color,
            width: width as int,
        },
    }
}

pub open spec fn cmds_view(s: Seq<DrawCommand>) -> Seq<CmdV> {
    s.map_values(|c: DrawCommand| cmd_view(c))
}

pub open spec fn texts_view(s: Seq<String>) -> Seq<Seq<char>> {
    s.map_values(|t: String| t@)
}

/// Everything one render pass produces: the commands for the draw surface,
/// in emission order, and the texts to hand to the glyph-preparation
/// collaborator before the frame is presented.
#[derive(Debug, PartialEq)]
pub struct DrawOutput {
    pub commands: Vec<DrawCommand>,
    pub glyph_texts: Vec<String>,
}

pub proof fn lemma_cmds_view_push(s: Seq<DrawCommand>, c: DrawCommand)
    ensures
        cmds_view(s.push(c)) == cmds_view(s).push(cmd_view(c)),
{
    assert(cmds_view(s.push(c)) =~= cmds_view(s).push(cmd_view(c)));
}

pub proof fn lemma_texts_view_push(s: Seq<String>, t: String)
    ensures
        texts_view(s.push(t)) == texts_view(s).push(t@),
{
    assert(texts_view(s.push(t)) =~= texts_view(s).push(t@));
}

} // verus!
