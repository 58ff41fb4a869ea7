//! What holds of the adapter as a whole.

use crate::backend::{
    backend_coord, canvas_color, canvas_point, canvas_stroke, circle_path, rect_path, saturate,
    shape_command, BackendCoord, BackendStyle,
};
use crate::canvas::{CommandView, FrameView, LineCap, LineJoin, Path, Size};
use crate::color::BackendColor;
use crate::single::{
    is_single, lemma_nearest_single_distance, lemma_nearest_single_error_32_bits,
    lemma_nearest_single_is_single, lemma_nearest_single_within_one, lemma_small_is_single,
    nearest_single, off_grid, single_unit,
};
use vstd::prelude::*;

verus! {

/// The coordinates of the canvas point of a pixel are the nearest
/// single-precision values of the pixel's coordinates, and are
/// single-precision values themselves.
pub proof fn lemma_canvas_point_is_nearest(coord: BackendCoord)
    ensures
        canvas_point(coord).x == nearest_single(coord.0 as int),
        canvas_point(coord).y == nearest_single(coord.1 as int),
        is_single(canvas_point(coord).x as int),
        is_single(canvas_point(coord).y as int),
{
    lemma_nearest_single_is_single(coord.0 as int);
    lemma_nearest_single_is_single(coord.1 as int);
}

/// A pixel whose coordinates have a magnitude of at most 2^24 comes back
/// unchanged from the canvas.
pub proof fn lemma_coord_round_trip_exact(coord: BackendCoord)
    requires
        -0x100_0000 <= coord.0 <= 0x100_0000,
        -0x100_0000 <= coord.1 <= 0x100_0000,
    ensures
        backend_coord(canvas_point(coord)) == coord,
{
    lemma_small_is_single(coord.0 as int);
    lemma_small_is_single(coord.1 as int);
}

/// A pixel whose coordinates have a magnitude of at most 2^25 comes back from
/// the canvas within one unit of where it was, on each axis.
pub proof fn lemma_coord_round_trip_within_one(coord: BackendCoord)
    requires
        -0x200_0000 <= coord.0 <= 0x200_0000,
        -0x200_0000 <= coord.1 <= 0x200_0000,
    ensures
        -1 <= backend_coord(canvas_point(coord)).0 - coord.0 <= 1,
        -1 <= backend_coord(canvas_point(coord)).1 - coord.1 <= 1,
{
    lemma_nearest_single_within_one(coord.0 as int);
    lemma_nearest_single_within_one(coord.1 as int);
}

/// Any pixel comes back from the canvas within 64 units of where it was, on
/// each axis.
pub proof fn lemma_coord_round_trip_bound(coord: BackendCoord)
    ensures
        -64 <= backend_coord(canvas_point(coord)).0 - coord.0 <= 64,
        -64 <= backend_coord(canvas_point(coord)).1 - coord.1 <= 64,
{
    lemma_nearest_single_error_32_bits(coord.0 as int);
    lemma_nearest_single_error_32_bits(coord.1 as int);
}

/// On one axis: what the round trip through the canvas does to a coordinate.
proof fn lemma_axis_round_trip(v: i32)
    ensures
        (-1 <= saturate(nearest_single(v as int) as i64) - v <= 1) <==> (off_grid(v as int) <= 1 || v
            == i32::MAX - 1),
{
    let there = nearest_single(v as int);
    lemma_nearest_single_distance(v as int);
    lemma_nearest_single_is_single(v as int);
    if there > i32::MAX {
        assert(there == 0x8000_0000);
        assert(saturate(there as i64) == i32::MAX);
        assert(v == 0x8000_0000 - off_grid(v as int));
    } else {
        assert(saturate(there as i64) == there);
        if v == i32::MAX - 1 {
            assert(single_unit(0x7fff_fffe) == 128) by {
                reveal_with_fuel(single_unit, 10);
            }
            assert(there == 0x8000_0000);
        }
    }
}

/// On each axis, a pixel comes back from the canvas within one unit exactly
/// when its coordinate is at most one unit from a single-precision value, or
/// is the last but one of all coordinates, which the range of pixel
/// coordinates holds back.
pub proof fn lemma_coord_round_trip_within_one_iff(coord: BackendCoord)
    ensures
        (-1 <= backend_coord(canvas_point(coord)).0 - coord.0 <= 1) <==> (off_grid(coord.0 as int)
            <= 1 || coord.0 == i32::MAX - 1),
        (-1 <= backend_coord(canvas_point(coord)).1 - coord.1 <= 1) <==> (off_grid(coord.1 as int)
            <= 1 || coord.1 == i32::MAX - 1),
{
    lemma_axis_round_trip(coord.0);
    lemma_axis_round_trip(coord.1);
}

/// The canvas colour of a chart colour has the same red, green and blue and
/// the same opacity.
pub proof fn lemma_color_channels_kept(color: BackendColor)
    ensures
        canvas_color(color).r == color.rgb.0,
        canvas_color(color).g == color.rgb.1,
        canvas_color(color).b == color.rgb.2,
        canvas_color(color).alpha_bits == color.alpha_bits,
{
}

/// A shape is drawn in the colour of its style, whether filled or stroked; a
/// stroke has the style's width, flat ends and mitered corners.
pub proof fn lemma_shape_command_style(path: Path, style: BackendStyle, fill: bool)
    ensures
        fill ==> shape_command(path, style, fill) == (CommandView::Fill {
            path,
            color: canvas_color(style.color),
        }),
        !fill ==> shape_command(path, style, fill) == (CommandView::Stroke {
            path,
            stroke: canvas_stroke(style),
        }),
        canvas_stroke(style).color == canvas_color(style.color),
        canvas_stroke(style).width == nearest_single(style.stroke_width as int),
        canvas_stroke(style).line_cap == LineCap::Butt,
        canvas_stroke(style).line_join == LineJoin::Miter,
{
    lemma_nearest_single_is_single(style.stroke_width as int);
}

/// A rectangle does not depend on which of its corners are given, nor on their
/// order. Given its top-left and bottom-right corners, it starts at the first
/// and its extent is the difference of the two, on each axis.
pub proof fn lemma_rect_path_corners(corner: BackendCoord, opposite: BackendCoord)
    ensures
        rect_path(corner, opposite) == rect_path(opposite, corner),
        rect_path(corner, opposite) == rect_path(
            (corner.0, opposite.1),
            (opposite.0, corner.1),
        ),
        corner.0 <= opposite.0 && corner.1 <= opposite.1 ==> rect_path(corner, opposite) == (
        Path::Rectangle {
            top_left: canvas_point(corner),
            size: Size {
                width: nearest_single(opposite.0 - corner.0) as i64,
                height: nearest_single(opposite.1 - corner.1) as i64,
            },
        }),
{
}

/// The extent of a rectangle is never negative, and each of its two lengths is
/// the single-precision value nearest to the distance between the corners on
/// that axis.
pub proof fn lemma_rect_path_extent(corner: BackendCoord, opposite: BackendCoord)
    ensures
        rect_path(corner, opposite) matches Path::Rectangle { top_left, size } && {
            &&& size.width == nearest_single(vstd::math::abs(opposite.0 - corner.0) as int)
            &&& size.height == nearest_single(vstd::math::abs(opposite.1 - corner.1) as int)
            &&& size.width >= 0
            &&& size.height >= 0
            &&& is_single(size.width as int)
            &&& is_single(size.height as int)
        },
{
    lemma_nearest_single_is_single(vstd::math::abs(opposite.0 - corner.0) as int);
    lemma_nearest_single_is_single(vstd::math::abs(opposite.1 - corner.1) as int);
}

/// The radius of a circle is the single-precision value nearest to the radius
/// given.
pub proof fn lemma_circle_path_radius(center: BackendCoord, radius: u32)
    ensures
        circle_path(center, radius) matches Path::Circle { center: middle, radius: canvas_radius }
            && {
            &&& middle == canvas_point(center)
            &&& canvas_radius == nearest_single(radius as int)
            &&& canvas_radius >= 0
            &&& is_single(canvas_radius as int)
        },
{
    lemma_nearest_single_is_single(radius as int);
}

/// Making ready and presenting leave a frame as it is, however often and in
/// whatever order they are done.
pub proof fn lemma_prepare_present_idempotent(frame: FrameView)
    ensures
        frame.prepared() == frame,
        frame.presented() == frame,
        frame.prepared().prepared() == frame.prepared(),
        frame.presented().presented() == frame.presented(),
        frame.prepared().presented() == frame.presented().prepared(),
{
}

/// A command leaves the size of the frame and the earlier commands as they
/// are, and comes last.
pub proof fn lemma_drawn_appends(frame: FrameView, command: CommandView)
    ensures
        frame.drawn(command).width == frame.width,
        frame.drawn(command).height == frame.height,
        frame.drawn(command).commands.len() == frame.commands.len() + 1,
        frame.drawn(command).commands.last() == command,
        frame.drawn(command).commands.drop_last() == frame.commands,
{
    assert(frame.drawn(command).commands.drop_last() =~= frame.commands);
}

} // verus!
