//! Direction indicators: the markers at the edge of the screen that point
//! at what has been revealed.

use vstd::prelude::*;
use crate::geometry::{
    add_sat, in_rect, point_in_rect, project_onto_bounding_rectangle, project_spec, sub_sat,
    Edge, Vec2,
};

verus! {

/// Half the width of the rectangle on whose edge the indicators sit.
pub const INDICATOR_HALF_WIDTH: i32 = 625_000;

/// Half the height of the rectangle on whose edge the indicators sit.
pub const INDICATOR_HALF_HEIGHT: i32 = 345_000;

/// Half the width of the screen.
pub const SCREEN_HALF_WIDTH: i32 = 640_000;

/// Half the height of the screen.
pub const SCREEN_HALF_HEIGHT: i32 = 360_000;

/// By how much a label is moved off the indicator.
pub const LABEL_SHIFT: i32 = 6_000;

/// How an indicator looks: a colour as red, green, blue and alpha bytes,
/// and a label or none.
#[derive(Clone, Debug)]
pub struct DirectionIndicatorSettings {
    pub color: u32,
    pub label: Option<String>,
}

/// An indicator that points at the entity with the handle `target`.
#[derive(Clone, Debug)]
pub struct DirectionIndicator {
    pub target: u64,
    pub settings: DirectionIndicatorSettings,
}

/// Where an indicator is shown.
#[derive(Clone, Copy, Debug, PartialEq, Eq, Structural)]
pub struct Placement {
    /// The indicator's place in the world.
    pub position: Vec2,
    /// The side of the screen that it sits on.
    pub edge: Edge,
    /// By how much its label is moved off it.
    pub label_offset: Vec2,
}

/// Whether the target is on the screen that is centred on the player.
pub open spec fn on_screen(target: Vec2, player: Vec2) -> bool {
    in_rect(
        sub_sat(target, player),
        Vec2 { x: (-SCREEN_HALF_WIDTH) as i32, y: (-SCREEN_HALF_HEIGHT) as i32 },
        Vec2 { x: SCREEN_HALF_WIDTH, y: SCREEN_HALF_HEIGHT },
    )
}

/// By how much the label of an indicator on the side `edge` is moved: down
/// on the top side, up on the others, and not at all where there is no
/// label.
pub open spec fn label_offset_spec(edge: Edge, labelled: bool) -> Vec2 {
    if !labelled {
        Vec2 { x: 0, y: 0 }
    } else if edge == Edge::Top {
        Vec2 { x: 0, y: (-LABEL_SHIFT) as i32 }
    } else {
        Vec2 { x: 0, y: LABEL_SHIFT }
    }
}

/// Where the indicator for `target` is shown: nowhere while the target is on
/// the screen, else where the ray from the player toward the target leaves
/// the indicator rectangle around the player.
pub open spec fn placement_spec(target: Vec2, player: Vec2, labelled: bool) -> Option<Placement> {
    if on_screen(target, player) {
        None
    } else {
        match project_spec(
            sub_sat(target, player),
            Vec2 { x: (-INDICATOR_HALF_WIDTH) as i32, y: (-INDICATOR_HALF_HEIGHT) as i32 },
            Vec2 { x: INDICATOR_HALF_WIDTH, y: INDICATOR_HALF_HEIGHT },
        ) {
            Some(hit) => Some(
                Placement {
                    position: add_sat(hit.0, player),
                    edge: hit.1,
                    label_offset: label_offset_spec(hit.1, labelled),
                },
            ),
            None => None,
        }
    }
}

/// Places the indicator for a target. The result is `None` exactly when the
/// target is on the screen, where the indicator is hidden.
pub fn update(target: Vec2, player: Vec2, labelled: bool) -> (r: Option<Placement>)
    ensures
        r == placement_spec(target, player, labelled),
        r is None <==> on_screen(target, player),
{
    let diff: Vec2 = target.saturating_sub(player);
    let screen_min = Vec2 { x: -SCREEN_HALF_WIDTH, y: -SCREEN_HALF_HEIGHT };
    let screen_max = Vec2 { x: SCREEN_HALF_WIDTH, y: SCREEN_HALF_HEIGHT };
    if point_in_rect(diff, screen_min, screen_max) {
        return None;
    }
    let min = Vec2 { x: -INDICATOR_HALF_WIDTH, y: -INDICATOR_HALF_HEIGHT };
    let max = Vec2 { x: INDICATOR_HALF_WIDTH, y: INDICATOR_HALF_HEIGHT };
    match project_onto_bounding_rectangle(diff, min, max) {
        Some(hit) => {
            let label_offset = if !labelled {
                Vec2::zero()
            } else {
                match hit.1 {
                    Edge::Top => Vec2 { x: 0, y: -LABEL_SHIFT },
                    _ => Vec2 { x: 0, y: LABEL_SHIFT },
                }
            };
            Some(Placement { position: hit.0.saturating_add(player), edge: hit.1, label_offset })
        },
        None => None,
    }
}

} // verus!
