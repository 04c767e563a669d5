//! Shapes that can say how they are drawn.
//!
//! A shape keeps each of its measures as it is to be written, so that the
//! caller is free in the number type it measures with.

use vstd::prelude::*;
use vstd::string::StringExecFns;

verus! {

/// Something that can describe, in one line, how it is drawn.
pub trait Drawable {
    fn draw(&self) -> String;
}

/// A circle, known by its radius.
pub struct Circle {
    radius: String,
}

/// A rectangle, known by its width and its height.
pub struct Rectangle {
    width: String,
    height: String,
}

impl Circle {
    /// A circle whose radius is written as `radius`.
    pub fn new(radius: String) -> (circle: Self)
        ensures
            circle.radius() == radius@,
    {
        Self { radius }
    }

    /// The radius as written.
    pub closed spec fn radius(&self) -> Seq<char> {
        self.radius@
    }

    /// The line that describes the circle.
    pub open spec fn drawing(&self) -> Seq<char> {
        "Circle with radius "@ + self.radius()
    }
}

impl Rectangle {
    /// A rectangle whose sides are written as `width` and `height`.
    pub fn new(width: String, height: String) -> (rectangle: Self)
        ensures
            rectangle.width() == width@,
            rectangle.height() == height@,
    {
        Self { width, height }
    }

    /// The width as written.
    pub closed spec fn width(&self) -> Seq<char> {
        self.width@
    }

    /// The height as written.
    pub closed spec fn height(&self) -> Seq<char> {
        self.height@
    }

    /// The line that describes the rectangle.
    pub open spec fn drawing(&self) -> Seq<char> {
        "Rectangle "@ + self.width() + seq!['x'] + self.height()
    }
}

impl Drawable for Circle {
    fn draw(&self) -> (line: String)
        ensures
            line@ == self.drawing(),
    {
        let mut line = String::from_str("Circle with radius ");
        line.append(self.radius.as_str());
        line
    }
}

impl Drawable for Rectangle {
    fn draw(&self) -> (line: String)
        ensures
            line@ == self.drawing(),
    {
        proof {
            reveal_strlit("x");
        }
        let mut line = String::from_str("Rectangle ");
        line.append(self.width.as_str());
        line.append("x");
        line.append(self.height.as_str());
        assert(line@ =~= self.drawing());
        line
    }
}

} // verus!
