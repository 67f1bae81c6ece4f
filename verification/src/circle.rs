//! The circle drawing plan: per frame, one filled circle at a fixed offset
//! from the canvas center, and a second one that follows the pointer while
//! the pointer is within the canvas bounds. Coordinates are whole canvas
//! units; the rendering backend turns a plan into actual geometry.

use vstd::prelude::*;

verus! {

/// The circle descriptor held in the application state: an offset from the
/// canvas center and a radius, both in whole canvas units.
#[derive(Debug, Clone, Copy, PartialEq, Eq)]
pub struct Circle {
    pub x: i64,
    pub y: i64,
    pub radius: i64,
}

/// A position on the canvas, in whole canvas units.
#[derive(Debug, Clone, Copy, PartialEq, Eq)]
pub struct CanvasPoint {
    pub x: i64,
    pub y: i64,
}

/// The fill of a planned circle: black for the fixed circle, blue for the
/// one following the pointer.
#[derive(Debug, Clone, Copy, PartialEq, Eq)]
pub enum FillColor {
    Black,
    Blue,
}

/// One filled circle of the drawing plan.
#[derive(Debug, Clone, Copy, PartialEq, Eq)]
pub struct CircleShape {
    pub center_x: i64,
    pub center_y: i64,
    pub radius: i64,
    pub color: FillColor,
}

impl Circle {
    /// The per-frame drawing plan. The first circle always stands at the
    /// canvas center moved by the fixed offset, filled black. When the
    /// pointer is within the canvas bounds (`cursor` is `Some`), a second
    /// circle of the same radius stands at the pointer, filled blue; when it
    /// is outside, the plan holds exactly the one fixed circle.
    pub fn draw(&self, center: CanvasPoint, cursor: Option<CanvasPoint>) -> (shapes: Vec<
        CircleShape,
    >)
        requires
            i64::MIN <= center.x + self.x <= i64::MAX,
            i64::MIN <= center.y + self.y <= i64::MAX,
        ensures
            shapes@.len() == (if cursor is Some {
                2int
            } else {
                1int
            }),
            shapes@[0].center_x == center.x + self.x,
            shapes@[0].center_y == center.y + self.y,
            shapes@[0].radius == self.radius,
            shapes@[0].color == FillColor::Black,
            cursor matches Some(p) ==> shapes@[1] == (CircleShape {
                center_x: p.x,
                center_y: p.y,
                radius: self.radius,
                color: FillColor::Blue,
            }),
    {
        let mut shapes: Vec<CircleShape> = Vec::new();
        shapes.push(
            CircleShape {
                center_x: center.x + self.x,
                center_y: center.y + self.y,
                radius: self.radius,
                color: FillColor::Black,
            },
        );
        match cursor {
            Some(p) => {
                shapes.push(
                    CircleShape {
                        center_x: p.x,
                        center_y: p.y,
                        radius: self.radius,
                        color: FillColor::Blue,
                    },
                );
            },
            None => {},
        }
        shapes
    }
}

} // verus!
