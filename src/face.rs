//! The two facial expressions as lists of shapes on the active screen.
//! Rendering clears the screen and then draws the expression's shapes, so
//! the screen afterwards depends on the expression alone.
use vstd::prelude::*;

use crate::touch::{Expression, STATE_PRESSED, STATE_RELEASED, outcome_of};
use crate::telemetry::TouchPoint;

verus! {

/// Length of the straight eye strokes.
pub const EYE_LENGTH: i16 = 50;

/// Length of the straight mouth stroke.
pub const MOUTH_LENGTH: i16 = 100;

/// A shape placed relative to the screen's center.
#[derive(Clone, Copy, Debug, PartialEq, Eq, Structural)]
pub enum Shape {
    /// A horizontal line from (0, 0) to (`length`, 0).
    Line { length: i16, x_ofs: i16, y_ofs: i16 },
    /// The curve of an arc between two angles in degrees (0 to 360), with
    /// its knob hidden and not clickable.
    Arc { start_angle: u16, end_angle: u16, width: i16, height: i16, x_ofs: i16, y_ofs: i16 },
}

pub open spec fn face_layout(e: Expression) -> Seq<Shape> {
    match e {
        Expression::Neutral => seq![
            Shape::Line { length: EYE_LENGTH, x_ofs: 65, y_ofs: 50 },
            Shape::Line { length: EYE_LENGTH, x_ofs: -65i16, y_ofs: 50 },
            Shape::Line { length: MOUTH_LENGTH, x_ofs: 0, y_ofs: -25i16 },
        ],
        Expression::Smiling => seq![
            Shape::Arc { start_angle: 0, end_angle: 360, width: 58, height: 50, x_ofs: 65, y_ofs: 46 },
            Shape::Arc { start_angle: 0, end_angle: 360, width: 58, height: 50, x_ofs: -65i16, y_ofs: 46 },
            Shape::Line { length: MOUTH_LENGTH, x_ofs: 0, y_ofs: -25i16 },
            Shape::Arc { start_angle: 180, end_angle: 360, width: 108, height: 100, x_ofs: 0, y_ofs: -25i16 },
        ],
    }
}

/// The screen after rendering `e` on a screen that showed `screen`: it is
/// cleared first, so only the expression's shapes remain.
pub open spec fn screen_after_render(screen: Seq<Shape>, e: Expression) -> Seq<Shape> {
    face_layout(e)
}

/// The shapes to draw, in order, for an expression.
pub fn face_shapes(e: Expression) -> (r: Vec<Shape>)
    ensures
        r@ == face_layout(e),
{
    let r = match e {
        Expression::Neutral => vec![
            Shape::Line { length: EYE_LENGTH, x_ofs: 65, y_ofs: 50 },
            Shape::Line { length: EYE_LENGTH, x_ofs: -65, y_ofs: 50 },
            Shape::Line { length: MOUTH_LENGTH, x_ofs: 0, y_ofs: -25 },
        ],
        Expression::Smiling => vec![
            Shape::Arc { start_angle: 0, end_angle: 360, width: 58, height: 50, x_ofs: 65, y_ofs: 46 },
            Shape::Arc { start_angle: 0, end_angle: 360, width: 58, height: 50, x_ofs: -65, y_ofs: 46 },
            Shape::Line { length: MOUTH_LENGTH, x_ofs: 0, y_ofs: -25 },
            Shape::Arc { start_angle: 180, end_angle: 360, width: 108, height: 100, x_ofs: 0, y_ofs: -25 },
        ],
    };
    proof {
        assert(r@ =~= face_layout(e));
    }
    r
}

/// Rendering an expression twice leaves the screen as rendering it once.
pub proof fn lemma_render_idempotent(screen: Seq<Shape>, e: Expression)
    ensures
        screen_after_render(screen_after_render(screen, e), e) == screen_after_render(screen, e),
{
}

/// Two press edges without a release in between both ask for the smiling
/// face, and the second render leaves the screen as the first left it.
pub proof fn lemma_repeated_press_edge_keeps_smile(screen: Seq<Shape>, p1: TouchPoint, p2: TouchPoint)
    ensures
        outcome_of(STATE_RELEASED, STATE_PRESSED, p1).render == Some(Expression::Smiling),
        outcome_of(STATE_RELEASED, STATE_PRESSED, p2).render == Some(Expression::Smiling),
        screen_after_render(screen_after_render(screen, Expression::Smiling), Expression::Smiling)
            == screen_after_render(screen, Expression::Smiling),
{
}

} // verus!
