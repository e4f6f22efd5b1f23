//! The primitives a host paints: filled rectangles and filled circles.

use vstd::prelude::*;
use crate::geometry::{saturate, saturating_difference, saturating_sum, Color, Point};

verus! {

/// A filled rectangle, held as its top-left corner and its extent.
#[derive(Clone, Copy, Debug, PartialEq, Eq, Structural)]
pub struct Rectangle {
    top_left: Point,
    width: i32,
    height: i32,
    color: Color,
}

/// What a rectangle is, as plain integers.
pub struct RectangleModel {
    pub left: int,
    pub top: int,
    pub width: int,
    pub height: int,
    pub color: Color,
}

impl View for Rectangle {
    type V = RectangleModel;

    closed spec fn view(&self) -> RectangleModel {
        RectangleModel {
            left: self.top_left.x as int,
            top: self.top_left.y as int,
            width: self.width as int,
            height: self.height as int,
            color: self.color,
        }
    }
}

impl Rectangle {
    /// The rectangle spanned by two opposite corners. Width and height are
    /// the differences of the coordinates, kept inside the `i32` range.
    pub fn new(top_left: Point, bottom_right: Point, color: Color) -> (rect: Rectangle)
        ensures
            rect@ == (RectangleModel {
                left: top_left.x as int,
                top: top_left.y as int,
                width: saturate(bottom_right.x - top_left.x),
                height: saturate(bottom_right.y - top_left.y),
                color,
            }),
    {
        Rectangle {
            top_left,
            width: saturating_difference(bottom_right.x, top_left.x),
            height: saturating_difference(bottom_right.y, top_left.y),
            color,
        }
    }

    /// The horizontal extent.
    pub fn get_width(&self) -> (w: i32)
        ensures
            w as int == self@.width,
    {
        self.width
    }

    /// The vertical extent.
    pub fn get_height(&self) -> (h: i32)
        ensures
            h as int == self@.height,
    {
        self.height
    }

    /// The top-left corner.
    pub fn get_position(&self) -> (p: Point)
        ensures
            p.x as int == self@.left,
            p.y as int == self@.top,
    {
        self.top_left
    }

    /// The fill colour.
    pub fn get_color(&self) -> (c: Color)
        ensures
            c == self@.color,
    {
        self.color
    }

    /// Moves the rectangle so that its top-left corner is `position`; the
    /// extent and the colour stay.
    pub fn set_position(&mut self, position: Point)
        ensures
            final(self)@ == (RectangleModel {
                left: position.x as int,
                top: position.y as int,
                ..old(self)@
            }),
    {
        self.top_left = position;
    }

    /// The corner opposite the top-left one, kept inside the `i32` range.
    pub fn bottom_right(&self) -> (p: Point)
        ensures
            p.x as int == saturate(self@.left + self@.width),
            p.y as int == saturate(self@.top + self@.height),
    {
        Point {
            x: saturating_sum(self.top_left.x, self.width),
            y: saturating_sum(self.top_left.y, self.height),
        }
    }
}

/// A filled circle.
#[derive(Clone, Copy, Debug, PartialEq, Eq, Structural)]
pub struct Circle {
    pub center: Point,
    pub radius: i32,
    pub color: Color,
}

impl Circle {
    /// The circle round `center`.
    pub fn new(center: Point, radius: i32, color: Color) -> (circle: Circle)
        ensures
            circle == (Circle { center, radius, color }),
    {
        Circle { center, radius, color }
    }
}

/// One thing to paint.
#[derive(Clone, Copy, Debug, PartialEq, Eq, Structural)]
pub enum Shape {
    Rectangle(Rectangle),
    Circle(Circle),
}

} // verus!
