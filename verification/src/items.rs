//! Draw items and their resolution against the current dimensions.
//!
//! The application submits placement requests ([`Area`]) and drawables
//! ([`CanvasItem`]) in logical pixels. At submission time each is resolved:
//! coordinates and extents are scaled to physical pixels and the area gains
//! its paint depth. The resolved values are plain data, ready to be handed to
//! the meshing collaborator outside this crate.

use vstd::prelude::*;

use crate::geometry::{to_physical, Size, SizeView};

verus! {

/// An RGBA color, one byte per channel.
#[derive(Clone, Copy, PartialEq, Eq, Debug)]
pub struct Color(pub u8, pub u8, pub u8, pub u8);

/// A shape: stroke width, then width and height, plus a corner radius for the
/// rounded rectangle. Dimensions are logical pixels on submission and
/// physical pixels once resolved.
#[derive(Clone, Copy, PartialEq, Eq, Debug)]
pub enum Shape {
    Ellipse(u32, (u32, u32)),
    Rectangle(u32, (u32, u32)),
    RoundedRectangle(u32, (u32, u32), u32),
}

/// A run of text: its content, the identifier of a font registered with the
/// atlas collaborator, the font size and line height, and the color.
#[derive(Clone, PartialEq, Eq, Debug)]
pub struct Text {
    pub content: String,
    pub font: u64,
    pub font_size: u32,
    pub line_height: u32,
    pub color: Color,
}

/// An image drawn into a shape: the identifier of an image registered with
/// the atlas collaborator, plus an optional tint.
#[derive(Clone, Copy, PartialEq, Eq, Debug)]
pub struct Image {
    pub shape: Shape,
    pub image: u64,
    pub color: Option<Color>,
}

/// One drawable item, a tagged variant over shape, text and image.
#[derive(Clone, PartialEq, Eq, Debug)]
pub enum CanvasItem {
    Shape(Shape, Color),
    Text(Text),
    Image(Image),
}

/// A placement request: a logical origin plus an optional logical extent.
/// A missing extent stands for the full current dimensions.
#[derive(Clone, Copy, PartialEq, Eq, Debug)]
pub struct Area(pub (u32, u32), pub Option<(u32, u32)>);

/// An absolute physical rectangle plus the paint depth assigned at
/// submission time. A higher `z` is further back.
#[derive(Clone, Copy, PartialEq, Eq, Debug)]
pub struct ResolvedArea {
    pub x: u32,
    pub y: u32,
    pub w: u32,
    pub h: u32,
    pub z: u16,
}

/// What resolving a placement request yields: origin and extent scaled to
/// physical pixels, a missing extent replaced by the full physical
/// dimensions, and the depth attached.
pub open spec fn resolve_area_spec(area: Area, z: u16, s: SizeView) -> ResolvedArea {
    ResolvedArea {
        x: to_physical(area.0.0 as int, s.ratio_milli) as u32,
        y: to_physical(area.0.1 as int, s.ratio_milli) as u32,
        w: match area.1 {
            Some(extent) => to_physical(extent.0 as int, s.ratio_milli) as u32,
            None => s.physical_width as u32,
        },
        h: match area.1 {
            Some(extent) => to_physical(extent.1 as int, s.ratio_milli) as u32,
            None => s.physical_height as u32,
        },
        z,
    }
}

/// What resolving a shape yields: every logical dimension scaled to
/// physical pixels.
pub open spec fn resolve_shape_spec(shape: Shape, ratio_milli: int) -> Shape {
    match shape {
        Shape::Ellipse(stroke, extent) => Shape::Ellipse(
            to_physical(stroke as int, ratio_milli) as u32,
            (
                to_physical(extent.0 as int, ratio_milli) as u32,
                to_physical(extent.1 as int, ratio_milli) as u32,
            ),
        ),
        Shape::Rectangle(stroke, extent) => Shape::Rectangle(
            to_physical(stroke as int, ratio_milli) as u32,
            (
                to_physical(extent.0 as int, ratio_milli) as u32,
                to_physical(extent.1 as int, ratio_milli) as u32,
            ),
        ),
        Shape::RoundedRectangle(stroke, extent, radius) => Shape::RoundedRectangle(
            to_physical(stroke as int, ratio_milli) as u32,
            (
                to_physical(extent.0 as int, ratio_milli) as u32,
                to_physical(extent.1 as int, ratio_milli) as u32,
            ),
            to_physical(radius as int, ratio_milli) as u32,
        ),
    }
}

/// What resolving a drawable yields: its dimensions scaled to physical
/// pixels, everything else kept.
pub open spec fn resolve_item_spec(item: CanvasItem, ratio_milli: int) -> CanvasItem {
    match item {
        CanvasItem::Shape(shape, color) => CanvasItem::Shape(
            resolve_shape_spec(shape, ratio_milli),
            color,
        ),
        CanvasItem::Text(text) => CanvasItem::Text(
            Text {
                content: text.content,
                font: text.font,
                font_size: to_physical(text.font_size as int, ratio_milli) as u32,
                line_height: to_physical(text.line_height as int, ratio_milli) as u32,
                color: text.color,
            },
        ),
        CanvasItem::Image(image) => CanvasItem::Image(
            Image {
                shape: resolve_shape_spec(image.shape, ratio_milli),
                image: image.image,
                color: image.color,
            },
        ),
    }
}

/// Resolve a placement request against the current dimensions.
pub fn resolve_area(area: Area, z: u16, size: &Size) -> (r: ResolvedArea)
    ensures
        r == resolve_area_spec(area, z, size@),
{
    let (physical_width, physical_height) = size.physical();
    let (w, h) = match area.1 {
        Some(extent) => (size.scale_physical(extent.0), size.scale_physical(extent.1)),
        None => (physical_width, physical_height),
    };
    ResolvedArea { x: size.scale_physical(area.0.0), y: size.scale_physical(area.0.1), w, h, z }
}

/// Resolve a shape against the current dimensions.
pub fn resolve_shape(shape: Shape, size: &Size) -> (r: Shape)
    ensures
        r == resolve_shape_spec(shape, size@.ratio_milli),
{
    match shape {
        Shape::Ellipse(stroke, extent) => Shape::Ellipse(
            size.scale_physical(stroke),
            (size.scale_physical(extent.0), size.scale_physical(extent.1)),
        ),
        Shape::Rectangle(stroke, extent) => Shape::Rectangle(
            size.scale_physical(stroke),
            (size.scale_physical(extent.0), size.scale_physical(extent.1)),
        ),
        Shape::RoundedRectangle(stroke, extent, radius) => Shape::RoundedRectangle(
            size.scale_physical(stroke),
            (size.scale_physical(extent.0), size.scale_physical(extent.1)),
            size.scale_physical(radius),
        ),
    }
}

/// Resolve a drawable against the current dimensions.
pub fn resolve_item(item: CanvasItem, size: &Size) -> (r: CanvasItem)
    ensures
        r == resolve_item_spec(item, size@.ratio_milli),
{
    match item {
        CanvasItem::Shape(shape, color) => CanvasItem::Shape(resolve_shape(shape, size), color),
        CanvasItem::Text(text) => CanvasItem::Text(
            Text {
                content: text.content,
                font: text.font,
                font_size: size.scale_physical(text.font_size),
                line_height: size.scale_physical(text.line_height),
                color: text.color,
            },
        ),
        CanvasItem::Image(image) => CanvasItem::Image(
            Image {
                shape: resolve_shape(image.shape, size),
                image: image.image,
                color: image.color,
            },
        ),
    }
}

} // verus!
