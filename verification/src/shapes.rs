//! The closed set of drawable shape kinds, shape styling, and the
//! renderable that composes kind + style + screen position.
//!
//! Drawing is modelled as data: rendering a shape produces a `DrawCommand`
//! carrying everything a platform renderer needs.  The dispatch over the
//! shape kinds is an exhaustive match, checked at build time.

use vstd::prelude::*;

use crate::color::{Color, ColorV};
use crate::rational::{Q, Qv};
use crate::vec2::{V2v, Vec2};

verus! {

/// Mathematical value of a circle's parameters.
pub struct CircleV {
    pub radius: Qv,
}

#[derive(Clone, Copy)]
pub struct Circle {
    pub radius: Q,
}

impl View for Circle {
    type V = CircleV;

    open spec fn view(&self) -> CircleV {
        CircleV { radius: self.radius@ }
    }
}

impl Circle {
    pub fn new(radius: Q) -> (c: Circle)
        ensures
            c.radius == radius,
    {
        Circle { radius }
    }
}

pub struct RectangleV {
    pub width: Qv,
    pub height: Qv,
}

#[derive(Clone, Copy)]
pub struct Rectangle {
    pub width: Q,
    pub height: Q,
}

impl View for Rectangle {
    type V = RectangleV;

    open spec fn view(&self) -> RectangleV {
        RectangleV { width: self.width@, height: self.height@ }
    }
}

impl Rectangle {
    pub fn new(width: Q, height: Q) -> (r: Rectangle)
        ensures
            r.width == width,
            r.height == height,
    {
        Rectangle { width, height }
    }
}

/// A triangle given by three offsets from the shape position.
pub struct TriangleV {
    pub a: V2v,
    pub b: V2v,
    pub c: V2v,
}

#[derive(Clone, Copy)]
pub struct Triangle {
    pub a: Vec2,
    pub b: Vec2,
    pub c: Vec2,
}

impl View for Triangle {
    type V = TriangleV;

    open spec fn view(&self) -> TriangleV {
        TriangleV { a: self.a@, b: self.b@, c: self.c@ }
    }
}

impl Triangle {
    pub fn new(a: Vec2, b: Vec2, c: Vec2) -> (t: Triangle)
        ensures
            t.a == a,
            t.b == b,
            t.c == c,
    {
        Triangle { a, b, c }
    }
}

/// A text label: content, a font reference (an opaque path), and a size.
pub struct TextV {
    pub content: Seq<char>,
    pub font: Seq<char>,
    pub size: int,
}

pub struct Text {
    pub content: String,
    pub font: String,
    pub size: u32,
}

impl View for Text {
    type V = TextV;

    open spec fn view(&self) -> TextV {
        TextV { content: self.content@, font: self.font@, size: self.size as int }
    }
}

impl Text {
    pub fn new(content: &str, font: &str, size: u32) -> (t: Text)
        ensures
            t@.content == content@,
            t@.font == font@,
            t@.size == size as int,
    {
        Text { content: content.to_owned(), font: font.to_owned(), size }
    }
}

/// Mathematical value of a shape kind.
pub enum KindV {
    Circle(CircleV),
    Rectangle(RectangleV),
    Triangle(TriangleV),
    Text(TextV),
}

/// The closed, tagged union of shape kinds.  Every place that draws a
/// shape matches exhaustively over these variants; adding a kind is a
/// deliberate, centralized extension.
pub enum ShapeKind {
    Circle(Circle),
    Rectangle(Rectangle),
    Triangle(Triangle),
    Text(Text),
}

impl View for ShapeKind {
    type V = KindV;

    open spec fn view(&self) -> KindV {
        match self {
            ShapeKind::Circle(c) => KindV::Circle(c@),
            ShapeKind::Rectangle(r) => KindV::Rectangle(r@),
            ShapeKind::Triangle(t) => KindV::Triangle(t@),
            ShapeKind::Text(t) => KindV::Text(t@),
        }
    }
}

pub struct StyleV {
    pub fill: Option<ColorV>,
    pub stroke_color: Option<ColorV>,
    pub stroke_width: Option<Qv>,
}

/// Shape styling; all fields independently optional.  A shape with no fill
/// and no stroke is valid and simply renders nothing visible.
#[derive(Clone, Copy)]
pub struct ShapeStyle {
    pub fill: Option<Color>,
    pub stroke_color: Option<Color>,
    pub stroke_width: Option<Q>,
}

impl View for ShapeStyle {
    type V = StyleV;

    open spec fn view(&self) -> StyleV {
        StyleV {
            fill: match self.fill {
                Some(c) => Some(c@),
                None => None,
            },
            stroke_color: match self.stroke_color {
                Some(c) => Some(c@),
                None => None,
            },
            stroke_width: match self.stroke_width {
                Some(w) => Some(w@),
                None => None,
            },
        }
    }
}

impl ShapeStyle {
    /// A plain filled style with no stroke.
    pub fn fill(color: Color) -> (s: ShapeStyle)
        ensures
            s.fill == Some(color),
            s.stroke_color is None,
            s.stroke_width is None,
    {
        ShapeStyle { fill: Some(color), stroke_color: None, stroke_width: None }
    }

    /// A style that renders nothing visible.
    pub fn none() -> (s: ShapeStyle)
        ensures
            s.fill is None,
            s.stroke_color is None,
            s.stroke_width is None,
    {
        ShapeStyle { fill: None, stroke_color: None, stroke_width: None }
    }
}

/// Mathematical value of a draw call.
pub enum CmdV {
    Circle { position: V2v, circle: CircleV, style: StyleV },
    Rectangle { position: V2v, rectangle: RectangleV, style: StyleV },
    Triangle { position: V2v, triangle: TriangleV, style: StyleV },
    Text { position: V2v, text: TextV, style: StyleV },
}

/// One draw call, as plain data: the platform renderer executes these.
pub enum DrawCommand {
    Circle { position: Vec2, circle: Circle, style: ShapeStyle },
    Rectangle { position: Vec2, rectangle: Rectangle, style: ShapeStyle },
    Triangle { position: Vec2, triangle: Triangle, style: ShapeStyle },
    Text { position: Vec2, text: Text, style: ShapeStyle },
}

impl View for DrawCommand {
    type V = CmdV;

    open spec fn view(&self) -> CmdV {
        match self {
            DrawCommand::Circle { position, circle, style } => CmdV::Circle {
                position: position@,
                circle: circle@,
                style: style@,
            },
            DrawCommand::Rectangle { position, rectangle, style } => CmdV::Rectangle {
                position: position@,
                rectangle: rectangle@,
                style: style@,
            },
            DrawCommand::Triangle { position, triangle, style } => CmdV::Triangle {
                position: position@,
                triangle: triangle@,
                style: style@,
            },
            DrawCommand::Text { position, text, style } => CmdV::Text {
                position: position@,
                text: text@,
                style: style@,
            },
        }
    }
}

/// The renderer: it turns shape data into draw calls, one primitive per
/// shape kind, and holds the point-size setting.
pub struct Renderer {
    pub point_size: Q,
}

impl Renderer {
    pub fn new() -> (r: Renderer)
        ensures
            r.point_size@ == crate::rational::qv_int(1),
    {
        Renderer { point_size: Q::from_int(1) }
    }

    pub fn set_point_size(&mut self, size: Q)
        ensures
            final(self).point_size == size,
    {
        self.point_size = size;
    }

    pub fn point_size(&self) -> (s: Q)
        ensures
            s == self.point_size,
    {
        self.point_size
    }

    pub fn draw_circle(&self, position: Vec2, circle: Circle, style: ShapeStyle)
        -> (cmd: DrawCommand)
        ensures
            cmd@ == (CmdV::Circle { position: position@, circle: circle@, style: style@ }),
    {
        DrawCommand::Circle { position, circle, style }
    }

    pub fn draw_rectangle(&self, position: Vec2, rectangle: Rectangle, style: ShapeStyle)
        -> (cmd: DrawCommand)
        ensures
            cmd@ == (CmdV::Rectangle {
                position: position@,
                rectangle: rectangle@,
                style: style@,
            }),
    {
        DrawCommand::Rectangle { position, rectangle, style }
    }

    pub fn draw_triangle(&self, position: Vec2, triangle: Triangle, style: ShapeStyle)
        -> (cmd: DrawCommand)
        ensures
            cmd@ == (CmdV::Triangle { position: position@, triangle: triangle@, style: style@ }),
    {
        DrawCommand::Triangle { position, triangle, style }
    }

    pub fn draw_text(&self, position: Vec2, text: &Text, style: ShapeStyle)
        -> (cmd: DrawCommand)
        ensures
            cmd@ == (CmdV::Text { position: position@, text: text@, style: style@ }),
    {
        DrawCommand::Text {
            position,
            text: Text { content: text.content.clone(), font: text.font.clone(), size: text.size },
            style,
        }
    }
}

/// The draw call that rendering a shape produces.
pub open spec fn command_of(s: ShapeRenderable) -> CmdV {
    match s.kind {
        ShapeKind::Circle(c) => CmdV::Circle { position: s.position@, circle: c@, style: s.style@ },
        ShapeKind::Rectangle(r) => CmdV::Rectangle {
            position: s.position@,
            rectangle: r@,
            style: s.style@,
        },
        ShapeKind::Triangle(t) => CmdV::Triangle {
            position: s.position@,
            triangle: t@,
            style: s.style@,
        },
        ShapeKind::Text(t) => CmdV::Text { position: s.position@, text: t@, style: s.style@ },
    }
}

/// A drawable shape: a screen-space position (mutable), and a kind and
/// style fixed at construction.
pub struct ShapeRenderable {
    pub position: Vec2,
    pub kind: ShapeKind,
    pub style: ShapeStyle,
}

impl ShapeRenderable {
    pub fn from_shape(x: Q, y: Q, kind: ShapeKind, style: ShapeStyle) -> (s: ShapeRenderable)
        ensures
            s.position.x == x,
            s.position.y == y,
            s.kind == kind,
            s.style == style,
    {
        ShapeRenderable { position: Vec2 { x, y }, kind, style }
    }

    /// O(1) position update; the draw call reads the position fresh each
    /// frame, so there is no staleness hazard.
    pub fn set_position(&mut self, x: Q, y: Q)
        ensures
            final(self).position.x == x,
            final(self).position.y == y,
            final(self).kind == old(self).kind,
            final(self).style == old(self).style,
    {
        self.position = Vec2 { x, y };
    }

    pub fn position(&self) -> (p: Vec2)
        ensures
            p == self.position,
    {
        self.position
    }

    /// Build this shape's draw call: an exhaustive dispatch over the
    /// closed kind set to the matching renderer primitive.
    pub fn render(&self, renderer: &Renderer) -> (cmd: DrawCommand)
        ensures
            cmd@ == command_of(*self),
    {
        match &self.kind {
            ShapeKind::Circle(c) => renderer.draw_circle(self.position, *c, self.style),
            ShapeKind::Rectangle(r) => renderer.draw_rectangle(self.position, *r, self.style),
            ShapeKind::Triangle(t) => renderer.draw_triangle(self.position, *t, self.style),
            ShapeKind::Text(t) => renderer.draw_text(self.position, t, self.style),
        }
    }
}

} // verus!
