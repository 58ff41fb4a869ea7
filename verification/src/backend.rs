//! The adapter: a chart's drawing primitives, each turned into one command on
//! a borrowed canvas frame.
//!
//! Every primitive appends exactly one command to the frame and cannot fail.
//! Integer coordinates, lengths and widths become the nearest single-precision
//! values; colour channels are taken over unchanged. Text is anchored at its
//! centre, on both axes. A rectangle is the one spanned by its two corners,
//! whichever way round they are given.
//!
//! The adapter only borrows its frame. The contract of each operation
//! therefore ends with a clause on the frame as its owner will find it once
//! the borrow is over: the operation does not settle what that is, only that
//! the adapter goes on borrowing the same frame.

use crate::canvas::{
    CommandView, Frame, FrameView, HorizontalAlignment, LineCap, LineJoin, Path, Point, Size,
    Stroke, Text, TextView, VerticalAlignment,
};
use crate::color::{BackendColor, Color};
use crate::single::{nearest_single, single_of_i32, single_of_u32};
use vstd::prelude::*;

verus! {

/// A pixel of the chart side: column and row, counted from the top-left
/// corner.
pub type BackendCoord = (i32, i32);

/// How the chart side wants a shape drawn.
#[derive(Clone, Copy, Debug, PartialEq, Eq)]
pub struct BackendStyle {
    /// The colour of the fill or of the outline.
    pub color: BackendColor,
    /// The width of the outline, in pixels.
    pub stroke_width: u32,
}

/// How the chart side wants a text drawn.
#[derive(Clone, Copy, Debug, PartialEq, Eq)]
pub struct BackendTextStyle {
    /// The colour of the glyphs.
    pub color: BackendColor,
    /// The font size, as the bit pattern of a double-precision number.
    pub size_bits: u64,
}

/// The error of the adapter. It has no value: no operation of the adapter can
/// fail.
#[derive(Debug)]
pub enum PlotErr {
    /// Holds a value of a type that has none.
    Never(core::convert::Infallible),
}

impl PlotErr {
    /// The text that describes the error.
    pub fn message(&self) -> (out: String)
        ensures
            out@ == "Plotting Error"@,
    {
        "Plotting Error".to_owned()
    }
}

/// Something that can draw itself as a chart through the adapter.
pub trait Plottable {
    /// Draws the chart on the frame that `backend` borrows. What is drawn is
    /// up to the implementor.
    fn draw_plot<'a>(&self, backend: CustomPlotFrame<'a>);
}

/// The canvas colour of a chart colour: the same channels and opacity.
pub open spec fn canvas_color(color: BackendColor) -> Color {
    Color { r: color.rgb.0, g: color.rgb.1, b: color.rgb.2, alpha_bits: color.alpha_bits }
}

/// The canvas point of a pixel: each coordinate as the nearest
/// single-precision value.
pub open spec fn canvas_point(coord: BackendCoord) -> Point {
    Point { x: nearest_single(coord.0 as int) as i64, y: nearest_single(coord.1 as int) as i64 }
}

/// The pixel that a canvas point falls on: its coordinates, held to the range
/// of pixel coordinates.
pub open spec fn backend_coord(point: Point) -> BackendCoord {
    (saturate(point.x), saturate(point.y))
}

/// The pixel coordinate nearest to `v`.
pub open spec fn saturate(v: i64) -> i32 {
    if v < i32::MIN {
        i32::MIN
    } else if v > i32::MAX {
        i32::MAX
    } else {
        v as i32
    }
}

/// The stroke of a shape style: its colour and width, flat ends, mitered
/// corners.
pub open spec fn canvas_stroke(style: BackendStyle) -> Stroke {
    Stroke {
        color: canvas_color(style.color),
        width: nearest_single(style.stroke_width as int) as i64,
        line_cap: LineCap::Butt,
        line_join: LineJoin::Miter,
    }
}

/// The square of side one whose top-left corner is the pixel.
pub open spec fn pixel_path(point: BackendCoord) -> Path {
    Path::Rectangle { top_left: canvas_point(point), size: Size { width: 1, height: 1 } }
}

/// The segment between two pixels.
pub open spec fn line_path(from: BackendCoord, to: BackendCoord) -> Path {
    Path::Line { from: canvas_point(from), to: canvas_point(to) }
}

/// The rectangle spanned by two corners: its top-left corner is the lesser
/// coordinate on each axis, its extent the distance between the corners.
pub open spec fn rect_path(corner: BackendCoord, opposite: BackendCoord) -> Path {
    Path::Rectangle {
        top_left: canvas_point(
            (
                vstd::math::min(corner.0 as int, opposite.0 as int) as i32,
                vstd::math::min(corner.1 as int, opposite.1 as int) as i32,
            ),
        ),
        size: Size {
            width: nearest_single(vstd::math::abs(opposite.0 - corner.0) as int) as i64,
            height: nearest_single(vstd::math::abs(opposite.1 - corner.1) as int) as i64,
        },
    }
}

/// The circle about a pixel.
pub open spec fn circle_path(center: BackendCoord, radius: u32) -> Path {
    Path::Circle { center: canvas_point(center), radius: nearest_single(radius as int) as i64 }
}

/// The command that draws a shape: a fill in the style's colour, or a stroke
/// in the style's colour and width.
pub open spec fn shape_command(path: Path, style: BackendStyle, fill: bool) -> CommandView {
    if fill {
        CommandView::Fill { path, color: canvas_color(style.color) }
    } else {
        CommandView::Stroke { path, stroke: canvas_stroke(style) }
    }
}

/// The command that draws a text: the characters in the style's colour and
/// size, centred on the pixel on both axes.
pub open spec fn text_command(
    content: Seq<char>,
    style: BackendTextStyle,
    pos: BackendCoord,
) -> CommandView {
    CommandView::FillText {
        text: TextView {
            content,
            position: canvas_point(pos),
            color: canvas_color(style.color),
            size_bits: style.size_bits,
            horizontal_alignment: HorizontalAlignment::Center,
            vertical_alignment: VerticalAlignment::Center,
        },
    }
}

/// The distance between two coordinates.
fn span(a: i32, b: i32) -> (out: u32)
    ensures
        out == vstd::math::abs(b - a),
{
    if a <= b {
        (b as i64 - a as i64) as u32
    } else {
        (a as i64 - b as i64) as u32
    }
}

/// The pixel coordinate nearest to a canvas coordinate.
fn clamp(v: i64) -> (out: i32)
    ensures
        out == saturate(v),
{
    if v < i32::MIN as i64 {
        i32::MIN
    } else if v > i32::MAX as i64 {
        i32::MAX
    } else {
        v as i32
    }
}

/// A drawing backend on a borrowed canvas frame.
pub struct CustomPlotFrame<'a> {
    /// The frame that is drawn on.
    pub frame: &'a mut Frame,
}

impl<'a> View for CustomPlotFrame<'a> {
    type V = FrameView;

    open spec fn view(&self) -> FrameView {
        (*self.frame)@
    }
}

impl<'a> CustomPlotFrame<'a> {
    /// A backend that draws on `frame`.
    pub fn new(frame: &'a mut Frame) -> (out: Self)
        ensures
            *out.frame == *old(frame),
            *final(out.frame) == *final(frame),
    {
        Self { frame }
    }

    /// The canvas colour of a chart colour.
    pub fn gen_bg_color(bg_color: &BackendColor) -> (out: Color)
        ensures
            out == canvas_color(*bg_color),
            out.r == bg_color.rgb.0,
            out.g == bg_color.rgb.1,
            out.b == bg_color.rgb.2,
            out.alpha_bits == bg_color.alpha_bits,
    {
        Color::from_rgba8(bg_color.rgb.0, bg_color.rgb.1, bg_color.rgb.2, bg_color.alpha_bits)
    }

    /// The canvas point of a pixel.
    pub fn gen_bg_point(bg_point: &BackendCoord) -> (out: Point)
        ensures
            out == canvas_point(*bg_point),
    {
        Point::new(single_of_i32(bg_point.0), single_of_i32(bg_point.1))
    }

    /// The pixel that a canvas point falls on.
    pub fn to_backend_coord(point: &Point) -> (out: BackendCoord)
        ensures
            out == backend_coord(*point),
    {
        (clamp(point.x), clamp(point.y))
    }

    /// The size of the frame, width first.
    pub fn get_size(&self) -> (out: (u32, u32))
        ensures
            out == (self@.width, self@.height),
    {
        (self.frame.width(), self.frame.height())
    }

    /// Makes the backend ready to draw. There is nothing to make ready: the
    /// frame is left as it is.
    pub fn ensure_prepared(&mut self) -> (res: Result<(), PlotErr>)
        ensures
            res is Ok,
            final(self)@ == old(self)@.prepared(),
            *final(self).frame == *old(self).frame,
            *final(final(self).frame) == *final(old(self).frame),
    {
        Ok(())
    }

    /// Presents what was drawn. The owner of the frame presents it: the frame
    /// is left as it is.
    pub fn present(&mut self) -> (res: Result<(), PlotErr>)
        ensures
            res is Ok,
            final(self)@ == old(self)@.presented(),
            *final(self).frame == *old(self).frame,
            *final(final(self).frame) == *final(old(self).frame),
    {
        Ok(())
    }

    /// Draws one pixel: fills the square of side one at `point`.
    pub fn draw_pixel(
        &mut self,
        point: BackendCoord,
        color: BackendColor,
    ) -> (res: Result<(), PlotErr>)
        ensures
            res is Ok,
            final(self)@ == old(self)@.drawn(
                CommandView::Fill { path: pixel_path(point), color: canvas_color(color) },
            ),
            *final(final(self).frame) == *final(old(self).frame),
    {
        let color = Self::gen_bg_color(&color);
        let point = Self::gen_bg_point(&point);
        let size = Size::new(1, 1);
        let path = Path::rectangle(point, size);

        self.frame.fill(&path, color);
        Ok(())
    }

    /// Draws a straight line: strokes the segment between the two pixels.
    pub fn draw_line(
        &mut self,
        from: BackendCoord,
        to: BackendCoord,
        style: &BackendStyle,
    ) -> (res: Result<(), PlotErr>)
        ensures
            res is Ok,
            final(self)@ == old(self)@.drawn(
                CommandView::Stroke { path: line_path(from, to), stroke: canvas_stroke(*style) },
            ),
            *final(final(self).frame) == *final(old(self).frame),
    {
        let color = Self::gen_bg_color(&style.color);
        let path = Path::line(Self::gen_bg_point(&from), Self::gen_bg_point(&to));

        let stroke = Stroke { color, width: single_of_u32(style.stroke_width), ..Stroke::default() };

        self.frame.stroke(&path, stroke);
        Ok(())
    }

    /// Draws the rectangle spanned by two corners, filled or in outline.
    pub fn draw_rect(
        &mut self,
        upper_left: BackendCoord,
        bottom_right: BackendCoord,
        style: &BackendStyle,
        fill: bool,
    ) -> (res: Result<(), PlotErr>)
        ensures
            res is Ok,
            final(self)@ == old(self)@.drawn(
                shape_command(rect_path(upper_left, bottom_right), *style, fill),
            ),
            *final(final(self).frame) == *final(old(self).frame),
    {
        let color = Self::gen_bg_color(&style.color);
        let left = if upper_left.0 <= bottom_right.0 {
            upper_left.0
        } else {
            bottom_right.0
        };
        let top = if upper_left.1 <= bottom_right.1 {
            upper_left.1
        } else {
            bottom_right.1
        };
        let size = Size::new(
            single_of_u32(span(upper_left.0, bottom_right.0)),
            single_of_u32(span(upper_left.1, bottom_right.1)),
        );

        let path = Path::rectangle(Self::gen_bg_point(&(left, top)), size);

        if fill {
            self.frame.fill(&path, color);
        } else {
            let stroke = Stroke {
                color,
                width: single_of_u32(style.stroke_width),
                ..Stroke::default()
            };

            self.frame.stroke(&path, stroke);
        }

        Ok(())
    }

    /// Draws the circle of the given radius about `center`, filled or in
    /// outline.
    pub fn draw_circle(
        &mut self,
        center: BackendCoord,
        radius: u32,
        style: &BackendStyle,
        fill: bool,
    ) -> (res: Result<(), PlotErr>)
        ensures
            res is Ok,
            final(self)@ == old(self)@.drawn(
                shape_command(circle_path(center, radius), *style, fill),
            ),
            *final(final(self).frame) == *final(old(self).frame),
    {
        let color = Self::gen_bg_color(&style.color);
        let path = Path::circle(Self::gen_bg_point(&center), single_of_u32(radius));

        if fill {
            self.frame.fill(&path, color);
        } else {
            let stroke = Stroke {
                color,
                width: single_of_u32(style.stroke_width),
                ..Stroke::default()
            };

            self.frame.stroke(&path, stroke);
        }

        Ok(())
    }

    /// Draws `text` in the given style, centred on `pos` on both axes.
    pub fn draw_text(
        &mut self,
        text: &str,
        style: &BackendTextStyle,
        pos: BackendCoord,
    ) -> (res: Result<(), PlotErr>)
        ensures
            res is Ok,
            final(self)@ == old(self)@.drawn(text_command(text@, *style, pos)),
            *final(final(self).frame) == *final(old(self).frame),
    {
        let color = Self::gen_bg_color(&style.color);

        self.frame.fill_text(
            Text {
                content: text.to_owned(),
                size_bits: style.size_bits,
                position: Self::gen_bg_point(&pos),
                color,
                horizontal_alignment: HorizontalAlignment::Center,
                vertical_alignment: VerticalAlignment::Center,
            },
        );

        Ok(())
    }
}

} // verus!
