use vstd::prelude::*;
use crate::geometry::{Point, Rect, can_inflate, can_translate, fits_i64, inflated, translated};
use crate::display_list::{
    BorderRadius, BorderSide, BoxShadowClipMode, ClipRegion, Color, DisplayItem, DisplayList,
    GradientStop, uniform_radius,
};

verus! {

/// What a style needs to know of the object it paints.
#[derive(Clone, Copy, Debug, PartialEq, Eq, Structural)]
pub struct BuildInfo {
    /// The object's rectangle.
    pub rect: Rect,
    /// The region the object's items are clipped to.
    pub clip: ClipRegion,
    /// The object's corner radii, where it has any.
    pub border_radius: Option<BorderRadius>,
}

/// A visual effect that an object paints.
#[derive(Debug)]
pub enum Style {
    /// A fill of the given color.
    BackgroundColor(Color),
    /// Color, offset, blur radius, spread radius, border radius.
    BoxShadow(Color, Point, i64, i64, i64),
    /// Left, top, right, bottom.
    Border(BorderSide, BorderSide, BorderSide, BorderSide),
    /// Start point, end point, color stops.
    Gradient(Point, Point, Vec<GradientStop>),
}

/// How far a shadow reaches past its box on every side.
pub open spec fn shadow_inflation(blur_radius: int, spread_radius: int) -> int {
    spread_radius + 3 * blur_radius
}

/// The bounds of a shadow of `content` cast with `offset`: the content
/// rectangle moved by the offset and grown by the shadow's reach.
pub open spec fn shadow_rect(content: Rect, offset: Point, blur_radius: int, spread_radius: int) -> Rect {
    inflated(translated(content, offset), shadow_inflation(blur_radius, spread_radius))
}

/// Whether the shadow of `content` can be computed without leaving `i64`.
pub open spec fn shadow_fits(content: Rect, offset: Point, blur_radius: int, spread_radius: int) -> bool {
    can_translate(content, offset)
        && fits_i64(3 * blur_radius)
        && fits_i64(shadow_inflation(blur_radius, spread_radius))
        && can_inflate(translated(content, offset), shadow_inflation(blur_radius, spread_radius))
}

/// Whether `style` can paint an object with rectangle `rect`: only a shadow
/// has geometry of its own to compute.
pub open spec fn style_fits(style: Style, rect: Rect) -> bool {
    match style {
        Style::BoxShadow(_, offset, blur, spread, _) => shadow_fits(rect, offset, blur as int, spread as int),
        _ => true,
    }
}

/// The corner radii a border is drawn with.
pub open spec fn radius_or_zero(r: Option<BorderRadius>) -> BorderRadius {
    match r {
        Some(b) => b,
        None => uniform_radius(0),
    }
}

/// Whether `item` is the one drawing command that `style` contributes for an
/// object described by `info`.
pub open spec fn style_item(style: Style, info: BuildInfo, item: DisplayItem) -> bool {
    match style {
        Style::BackgroundColor(color) => item == (DisplayItem::Rect {
            bounds: info.rect,
            clip: info.clip,
            color,
        }),
        Style::BoxShadow(color, offset, blur, spread, radius) => {
            let b = shadow_rect(info.rect, offset, blur as int, spread as int);
            item == (DisplayItem::BoxShadow {
                bounds: b,
                clip: ClipRegion::Simple(b),
                box_bounds: info.rect,
                offset,
                color,
                blur_radius: blur,
                spread_radius: spread,
                border_radius: radius,
                clip_mode: BoxShadowClipMode::Outset,
            })
        },
        Style::Border(left, top, right, bottom) => item == (DisplayItem::Border {
            bounds: info.rect,
            clip: info.clip,
            left,
            top,
            right,
            bottom,
            radius: radius_or_zero(info.border_radius),
        }),
        Style::Gradient(start, end, stops) => match item {
            DisplayItem::Gradient { bounds, clip, start: s, end: e, stops: st } => bounds == info.rect
                && clip == info.clip && s == start && e == end && st@ == stops@,
            _ => false,
        },
    }
}

/// The bounds of a shadow around `content_rect`: grown on every side by the
/// spread radius plus three blur radii.
pub fn shadow_bounds(content_rect: &Rect, blur_radius: i64, spread_radius: i64) -> (r: Rect)
    requires
        fits_i64(3 * blur_radius),
        fits_i64(shadow_inflation(blur_radius as int, spread_radius as int)),
        can_inflate(*content_rect, shadow_inflation(blur_radius as int, spread_radius as int)),
    ensures
        r == inflated(*content_rect, shadow_inflation(blur_radius as int, spread_radius as int)),
{
    let inflation = spread_radius + blur_radius * 3;
    content_rect.inflate(inflation)
}

/// The command of a box shadow covers the content rectangle moved by the
/// shadow's offset and grown on every side by the spread radius plus three blur
/// radii, and is clipped to that same area.
pub proof fn lemma_shadow_bounds(
    color: Color,
    offset: Point,
    blur_radius: i64,
    spread_radius: i64,
    border_radius: i64,
    info: BuildInfo,
    item: DisplayItem,
)
    requires
        shadow_fits(info.rect, offset, blur_radius as int, spread_radius as int),
        style_item(Style::BoxShadow(color, offset, blur_radius, spread_radius, border_radius), info, item),
    ensures
        item matches DisplayItem::BoxShadow { bounds, clip, .. } && {
            let d = spread_radius + 3 * blur_radius;
            &&& bounds.origin.x == info.rect.origin.x + offset.x - d
            &&& bounds.origin.y == info.rect.origin.y + offset.y - d
            &&& bounds.size.width == info.rect.size.width + 2 * d
            &&& bounds.size.height == info.rect.size.height + 2 * d
            &&& clip == ClipRegion::Simple(bounds)
        },
{
}

fn copy_stops(stops: &Vec<GradientStop>) -> (r: Vec<GradientStop>)
    ensures
        r@ == stops@,
{
    let mut out: Vec<GradientStop> = Vec::new();
    let mut i: usize = 0;
    while i < stops.len()
        invariant
            i <= stops@.len(),
            out@ == stops@.subrange(0, i as int),
        decreases stops@.len() - i,
    {
        out.push(stops[i]);
        i = i + 1;
    }
    assert(out@ =~= stops@);
    out
}

impl Style {
    /// Whether this style can paint an object with rectangle `rect`.
    pub fn fits(&self, rect: &Rect) -> (r: bool)
        ensures
            r == style_fits(*self, *rect),
    {
        match self {
            Style::BoxShadow(_, offset, blur, spread, _) => {
                let blur3 = 3 * (*blur as i128);
                let inflation = *spread as i128 + blur3;
                let x = rect.origin.x as i128 + offset.x as i128;
                let y = rect.origin.y as i128 + offset.y as i128;
                let lo = i64::MIN as i128;
                let hi = i64::MAX as i128;
                lo <= x && x <= hi && lo <= y && y <= hi
                    && lo <= blur3 && blur3 <= hi
                    && lo <= inflation && inflation <= hi
                    && lo <= x - inflation && x - inflation <= hi
                    && lo <= y - inflation && y - inflation <= hi
                    && lo <= rect.size.width as i128 + 2 * inflation
                    && rect.size.width as i128 + 2 * inflation <= hi
                    && lo <= rect.size.height as i128 + 2 * inflation
                    && rect.size.height as i128 + 2 * inflation <= hi
            },
            _ => true,
        }
    }

    /// Appends this style's drawing command for the object that `build_info`
    /// describes.
    pub fn build(&self, builder: &mut DisplayList, build_info: &BuildInfo)
        requires
            style_fits(*self, build_info.rect),
        ensures
            final(builder)@.len() == old(builder)@.len() + 1,
            final(builder)@.drop_last() == old(builder)@,
            style_item(*self, *build_info, final(builder)@.last()),
    {
        let border_radius = match build_info.border_radius {
            Some(b) => b,
            None => BorderRadius::zero(),
        };
        let item = match self {
            Style::BackgroundColor(color) => DisplayItem::Rect {
                bounds: build_info.rect,
                clip: build_info.clip,
                color: *color,
            },
            Style::BoxShadow(color, offset, blur_radius, spread_radius, radius) => {
                let moved = build_info.rect.translate(offset);
                let bounds = shadow_bounds(&moved, *blur_radius, *spread_radius);
                DisplayItem::BoxShadow {
                    bounds,
                    clip: ClipRegion::simple(&bounds),
                    box_bounds: build_info.rect,
                    offset: *offset,
                    color: *color,
                    blur_radius: *blur_radius,
                    spread_radius: *spread_radius,
                    border_radius: *radius,
                    clip_mode: BoxShadowClipMode::Outset,
                }
            },
            Style::Border(left, top, right, bottom) => DisplayItem::Border {
                bounds: build_info.rect,
                clip: build_info.clip,
                left: *left,
                top: *top,
                right: *right,
                bottom: *bottom,
                radius: border_radius,
            },
            Style::Gradient(start, end, stops) => DisplayItem::Gradient {
                bounds: build_info.rect,
                clip: build_info.clip,
                start: *start,
                end: *end,
                stops: copy_stops(stops),
            },
        };
        builder.push(item);
        assert(builder@.drop_last() =~= old(builder)@);
    }
}

} // verus!
