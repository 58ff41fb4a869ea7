//! The canvas: points, paths, styles, and a frame that records what is drawn
//! on it.
//!
//! Lengths and coordinates are integers that stand for single-precision
//! numbers (see [`crate::single`]). A [`Frame`] keeps the commands in the order
//! in which they were issued; whoever owns the frame replays them on a real
//! surface.

use crate::color::Color;
use vstd::prelude::*;

verus! {

/// A point of the canvas.
#[derive(Clone, Copy, Debug, PartialEq, Eq, Structural)]
pub struct Point {
    /// Distance from the left edge.
    pub x: i64,
    /// Distance from the top edge.
    pub y: i64,
}

impl Point {
    /// The point at the given coordinates.
    pub fn new(x: i64, y: i64) -> (out: Point)
        ensures
            out == (Point { x, y }),
    {
        Point { x, y }
    }
}

/// The extent of a rectangle.
#[derive(Clone, Copy, Debug, PartialEq, Eq, Structural)]
pub struct Size {
    /// Extent to the right.
    pub width: i64,
    /// Extent downwards.
    pub height: i64,
}

impl Size {
    /// The extent of the given width and height.
    pub fn new(width: i64, height: i64) -> (out: Size)
        ensures
            out == (Size { width, height }),
    {
        Size { width, height }
    }
}

/// A shape that can be filled or stroked.
#[derive(Clone, Copy, Debug, PartialEq, Eq, Structural)]
pub enum Path {
    /// A straight segment.
    Line { from: Point, to: Point },
    /// An axis-aligned rectangle, by its top-left corner and its extent.
    Rectangle { top_left: Point, size: Size },
    /// A circle, by its centre and radius.
    Circle { center: Point, radius: i64 },
}

impl Path {
    /// The segment between two points.
    pub fn line(from: Point, to: Point) -> (out: Path)
        ensures
            out == (Path::Line { from, to }),
    {
        Path::Line { from, to }
    }

    /// The rectangle with the given top-left corner and extent.
    pub fn rectangle(top_left: Point, size: Size) -> (out: Path)
        ensures
            out == (Path::Rectangle { top_left, size }),
    {
        Path::Rectangle { top_left, size }
    }

    /// The circle with the given centre and radius.
    pub fn circle(center: Point, radius: i64) -> (out: Path)
        ensures
            out == (Path::Circle { center, radius }),
    {
        Path::Circle { center, radius }
    }
}

/// The shape at the ends of a stroked open path.
#[derive(Clone, Copy, Debug, PartialEq, Eq, Structural)]
pub enum LineCap {
    /// The stroke ends flat at the end points.
    Butt,
    /// The stroke is extended by a square.
    Square,
    /// The stroke is extended by a semicircle.
    Round,
}

/// The shape at the corners of a stroked path.
#[derive(Clone, Copy, Debug, PartialEq, Eq, Structural)]
pub enum LineJoin {
    /// A sharp corner.
    Miter,
    /// A round corner.
    Round,
    /// A bevelled corner.
    Bevel,
}

/// The style of a stroke.
#[derive(Clone, Copy, Debug, PartialEq, Eq, Structural)]
pub struct Stroke {
    /// The colour of the stroke.
    pub color: Color,
    /// The distance between the two edges of the stroke.
    pub width: i64,
    /// The shape at the ends of open paths.
    pub line_cap: LineCap,
    /// The shape at corners.
    pub line_join: LineJoin,
}

impl Stroke {
    /// The canvas's default stroke: opaque black, one unit wide, flat ends,
    /// mitered corners.
    pub open spec fn spec_default() -> Stroke {
        Stroke {
            color: Color::spec_black(),
            width: 1,
            line_cap: LineCap::Butt,
            line_join: LineJoin::Miter,
        }
    }
}

impl Default for Stroke {
    fn default() -> (out: Stroke)
        ensures
            out == Stroke::spec_default(),
    {
        Stroke {
            color: Color::black(),
            width: 1,
            line_cap: LineCap::Butt,
            line_join: LineJoin::Miter,
        }
    }
}

/// Where a text lies, left to right, relative to its position.
#[derive(Clone, Copy, Debug, PartialEq, Eq, Structural)]
pub enum HorizontalAlignment {
    /// The position is the text's left edge.
    Left,
    /// The position is the text's horizontal centre.
    Center,
    /// The position is the text's right edge.
    Right,
}

/// Where a text lies, top to bottom, relative to its position.
#[derive(Clone, Copy, Debug, PartialEq, Eq, Structural)]
pub enum VerticalAlignment {
    /// The position is the text's top edge.
    Top,
    /// The position is the text's vertical centre.
    Center,
    /// The position is the text's bottom edge.
    Bottom,
}

/// A run of text to be drawn.
#[derive(Debug, PartialEq, Eq)]
pub struct Text {
    /// The characters.
    pub content: String,
    /// The anchor of the text.
    pub position: Point,
    /// The colour of the glyphs.
    pub color: Color,
    /// The font size, as the bit pattern of a double-precision number.
    pub size_bits: u64,
    /// How the text lies about its anchor, left to right.
    pub horizontal_alignment: HorizontalAlignment,
    /// How the text lies about its anchor, top to bottom.
    pub vertical_alignment: VerticalAlignment,
}

/// What a [`Text`] says, with its characters as a sequence.
pub struct TextView {
    pub content: Seq<char>,
    pub position: Point,
    pub color: Color,
    pub size_bits: u64,
    pub horizontal_alignment: HorizontalAlignment,
    pub vertical_alignment: VerticalAlignment,
}

impl View for Text {
    type V = TextView;

    open spec fn view(&self) -> TextView {
        TextView {
            content: self.content@,
            position: self.position,
            color: self.color,
            size_bits: self.size_bits,
            horizontal_alignment: self.horizontal_alignment,
            vertical_alignment: self.vertical_alignment,
        }
    }
}

/// One drawing command.
#[derive(Debug, PartialEq, Eq)]
pub enum Command {
    /// Fill the inside of a path with a colour.
    Fill { path: Path, color: Color },
    /// Draw the outline of a path.
    Stroke { path: Path, stroke: Stroke },
    /// Draw a run of text.
    FillText { text: Text },
}

/// What a [`Command`] says.
pub enum CommandView {
    Fill { path: Path, color: Color },
    Stroke { path: Path, stroke: Stroke },
    FillText { text: TextView },
}

impl View for Command {
    type V = CommandView;

    open spec fn view(&self) -> CommandView {
        match *self {
            Command::Fill { path, color } => CommandView::Fill { path, color },
            Command::Stroke { path, stroke } => CommandView::Stroke { path, stroke },
            Command::FillText { text } => CommandView::FillText { text: text@ },
        }
    }
}

/// What a [`Frame`] holds: its size, and the commands issued so far, oldest
/// first.
pub struct FrameView {
    pub width: u32,
    pub height: u32,
    pub commands: Seq<CommandView>,
}

impl FrameView {
    /// The frame of the given size on which nothing is drawn.
    pub open spec fn blank(width: u32, height: u32) -> FrameView {
        FrameView { width, height, commands: Seq::empty() }
    }

    /// The frame after one more command.
    pub open spec fn drawn(self, command: CommandView) -> FrameView {
        FrameView { commands: self.commands.push(command), ..self }
    }

    /// The frame after it was made ready for drawing: as before.
    pub open spec fn prepared(self) -> FrameView {
        self
    }

    /// The frame after it was presented: as before.
    pub open spec fn presented(self) -> FrameView {
        self
    }
}

/// A drawing surface of fixed size that records the commands issued on it.
#[derive(Debug)]
pub struct Frame {
    width: u32,
    height: u32,
    commands: Vec<Command>,
}

impl View for Frame {
    type V = FrameView;

    closed spec fn view(&self) -> FrameView {
        FrameView {
            width: self.width,
            height: self.height,
            commands: self.commands@.map_values(|c: Command| c@),
        }
    }
}

impl Frame {
    /// A frame of the given size with nothing drawn on it.
    pub fn new(width: u32, height: u32) -> (out: Frame)
        ensures
            out@ == FrameView::blank(width, height),
    {
        let out = Frame { width, height, commands: Vec::new() };
        assert(out@.commands =~= Seq::empty());
        out
    }

    /// The width of the frame.
    pub fn width(&self) -> (out: u32)
        ensures
            out == self@.width,
    {
        self.width
    }

    /// The height of the frame.
    pub fn height(&self) -> (out: u32)
        ensures
            out == self@.height,
    {
        self.height
    }

    /// The commands issued so far, oldest first.
    pub fn commands(&self) -> (out: &Vec<Command>)
        ensures
            out@.map_values(|c: Command| c@) == self@.commands,
    {
        &self.commands
    }

    /// Appends a command.
    fn record(&mut self, command: Command)
        ensures
            final(self)@ == old(self)@.drawn(command@),
    {
        self.commands.push(command);
        assert(self@.commands =~= old(self)@.commands.push(command@));
    }

    /// Fills the inside of `path` with `color`.
    pub fn fill(&mut self, path: &Path, color: Color)
        ensures
            final(self)@ == old(self)@.drawn(CommandView::Fill { path: *path, color }),
    {
        self.record(Command::Fill { path: *path, color });
    }

    /// Draws the outline of `path` in the style `stroke`.
    pub fn stroke(&mut self, path: &Path, stroke: Stroke)
        ensures
            final(self)@ == old(self)@.drawn(CommandView::Stroke { path: *path, stroke }),
    {
        self.record(Command::Stroke { path: *path, stroke });
    }

    /// Draws the characters of `text`.
    pub fn fill_text(&mut self, text: Text)
        ensures
            final(self)@ == old(self)@.drawn(CommandView::FillText { text: text@ }),
    {
        self.record(Command::FillText { text });
    }
}

} // verus!
