use vstd::prelude::*;
use crate::geometry::{Point, Rect, Size};

verus! {

/// A color with 8-bit red, green, blue and alpha channels.
#[derive(Clone, Copy, Debug, PartialEq, Eq, Structural)]
pub struct Color {
    pub r: u8,
    pub g: u8,
    pub b: u8,
    pub a: u8,
}

/// Opaque red: the color of a rectangle that the pointer is not over.
pub open spec fn red() -> Color {
    Color { r: 255, g: 0, b: 0, a: 255 }
}

/// Opaque green: the color of a rectangle that the pointer is over.
pub open spec fn green() -> Color {
    Color { r: 0, g: 255, b: 0, a: 255 }
}

/// Opaque white: the window's background.
pub open spec fn white() -> Color {
    Color { r: 255, g: 255, b: 255, a: 255 }
}

impl Color {
    pub fn new(r: u8, g: u8, b: u8, a: u8) -> (c: Color)
        ensures
            c == (Color { r, g, b, a }),
    {
        Color { r, g, b, a }
    }

    pub fn red() -> (c: Color)
        ensures
            c == red(),
    {
        Color { r: 255, g: 0, b: 0, a: 255 }
    }

    pub fn green() -> (c: Color)
        ensures
            c == green(),
    {
        Color { r: 0, g: 255, b: 0, a: 255 }
    }

    pub fn white() -> (c: Color)
        ensures
            c == white(),
    {
        Color { r: 255, g: 255, b: 255, a: 255 }
    }
}

/// How a border line is drawn.
#[derive(Clone, Copy, Debug, PartialEq, Eq, Structural)]
pub enum BorderStyle {
    NoBorder,
    Solid,
    Double,
    Dotted,
    Dashed,
    Hidden,
    Groove,
    Ridge,
    Inset,
    Outset,
}

/// One side of a border.
#[derive(Clone, Copy, Debug, PartialEq, Eq, Structural)]
pub struct BorderSide {
    pub width: i64,
    pub color: Color,
    pub style: BorderStyle,
}

/// The radii of the four corners of a rounded rectangle.
#[derive(Clone, Copy, Debug, PartialEq, Eq, Structural)]
pub struct BorderRadius {
    pub top_left: Size,
    pub top_right: Size,
    pub bottom_left: Size,
    pub bottom_right: Size,
}

/// The same circular radius `r` on every corner.
pub open spec fn uniform_radius(r: i64) -> BorderRadius {
    let s = Size { width: r, height: r };
    BorderRadius { top_left: s, top_right: s, bottom_left: s, bottom_right: s }
}

impl BorderRadius {
    /// Square corners.
    pub fn zero() -> (b: BorderRadius)
        ensures
            b == uniform_radius(0),
    {
        BorderRadius::uniform(0)
    }

    /// The same circular radius on every corner.
    pub fn uniform(r: i64) -> (b: BorderRadius)
        ensures
            b == uniform_radius(r),
    {
        let s = Size { width: r, height: r };
        BorderRadius { top_left: s, top_right: s, bottom_left: s, bottom_right: s }
    }
}

/// A color at a position along a gradient line, the position in thousandths
/// of the line's length.
#[derive(Clone, Copy, Debug, PartialEq, Eq, Structural)]
pub struct GradientStop {
    pub offset: u16,
    pub color: Color,
}

/// The region that a display item is clipped to.
#[derive(Clone, Copy, Debug, PartialEq, Eq, Structural)]
pub enum ClipRegion {
    /// The rectangle itself.
    Simple(Rect),
    /// The rectangle with its corners rounded by the given radii.
    Rounded(Rect, BorderRadius),
}

impl ClipRegion {
    pub fn simple(r: &Rect) -> (c: ClipRegion)
        ensures
            c == ClipRegion::Simple(*r),
    {
        ClipRegion::Simple(*r)
    }
}

/// Which part of a box shadow is painted.
#[derive(Clone, Copy, Debug, PartialEq, Eq, Structural)]
pub enum BoxShadowClipMode {
    NoClip,
    Outset,
    Inset,
}

/// One drawing command of a frame.
#[derive(Debug)]
pub enum DisplayItem {
    /// A filled rectangle.
    Rect { bounds: Rect, clip: ClipRegion, color: Color },
    /// A box shadow cast by `box_bounds`.
    BoxShadow {
        bounds: Rect,
        clip: ClipRegion,
        box_bounds: Rect,
        offset: Point,
        color: Color,
        blur_radius: i64,
        spread_radius: i64,
        border_radius: i64,
        clip_mode: BoxShadowClipMode,
    },
    /// A border with four independent sides.
    Border {
        bounds: Rect,
        clip: ClipRegion,
        left: BorderSide,
        top: BorderSide,
        right: BorderSide,
        bottom: BorderSide,
        radius: BorderRadius,
    },
    /// A linear gradient from `start` to `end` through `stops`.
    Gradient { bounds: Rect, clip: ClipRegion, start: Point, end: Point, stops: Vec<GradientStop> },
    /// Opens a group that the following items are composited in.
    PushStackingContext { bounds: Rect, clip: ClipRegion },
    /// Closes the innermost open group.
    PopStackingContext,
}

/// The ordered drawing commands of one frame.
#[derive(Debug)]
pub struct DisplayList {
    items: Vec<DisplayItem>,
}

impl View for DisplayList {
    type V = Seq<DisplayItem>;

    closed spec fn view(&self) -> Seq<DisplayItem> {
        self.items@
    }
}

impl DisplayList {
    /// An empty list.
    pub fn new() -> (l: DisplayList)
        ensures
            l@ == Seq::<DisplayItem>::empty(),
    {
        DisplayList { items: Vec::new() }
    }

    /// Appends `item`.
    pub fn push(&mut self, item: DisplayItem)
        ensures
            final(self)@ == old(self)@.push(item),
    {
        self.items.push(item);
    }

    pub fn len(&self) -> (n: usize)
        ensures
            n == self@.len(),
    {
        self.items.len()
    }

    /// The commands, in the order they were appended.
    pub fn items(&self) -> (r: &Vec<DisplayItem>)
        ensures
            r@ == self@,
    {
        &self.items
    }
}

} // verus!
