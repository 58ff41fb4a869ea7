use custom_plot_backend::canvas::{Command, Frame, Path, Point, Size};
use custom_plot_backend::color::Color;
use custom_plot_backend::{BackendColor, BackendStyle, BackendTextStyle, CustomPlotFrame, PlotErr};
use plotters::prelude::{
    ChartBuilder, IntoDrawingArea, IntoFont, LineSeries, PathElement, BLACK, RED, WHITE,
};
use plotters::style::Color as Mixable;
use plotters_backend::{BackendCoord, DrawingBackend, DrawingErrorKind};

/// The error of the chart backend below; it has no value.
#[derive(Debug)]
enum NoError {}

impl std::fmt::Display for NoError {
    fn fmt(&self, f: &mut std::fmt::Formatter<'_>) -> std::fmt::Result {
        f.write_str("Plotting Error")
    }
}

impl std::error::Error for NoError {}

/// The adapter, offered to the charting library.
struct ChartBackend<'a> {
    plot: CustomPlotFrame<'a>,
}

fn done(result: Result<(), PlotErr>) -> Result<(), DrawingErrorKind<NoError>> {
    match result {
        Ok(()) => Ok(()),
        Err(PlotErr::Never(never)) => match never {},
    }
}

fn color_of(color: plotters_backend::BackendColor) -> BackendColor {
    BackendColor { alpha_bits: color.alpha.to_bits(), rgb: color.rgb }
}

fn style_of<S: plotters_backend::BackendStyle>(style: &S) -> BackendStyle {
    BackendStyle { color: color_of(style.color()), stroke_width: style.stroke_width() }
}

fn text_style_of<S: plotters_backend::BackendTextStyle>(style: &S) -> BackendTextStyle {
    BackendTextStyle { color: color_of(style.color()), size_bits: style.size().to_bits() }
}

impl<'a> DrawingBackend for ChartBackend<'a> {
    type ErrorType = NoError;

    fn get_size(&self) -> (u32, u32) {
        self.plot.get_size()
    }

    fn ensure_prepared(&mut self) -> Result<(), DrawingErrorKind<NoError>> {
        done(self.plot.ensure_prepared())
    }

    fn present(&mut self) -> Result<(), DrawingErrorKind<NoError>> {
        done(self.plot.present())
    }

    fn draw_pixel(
        &mut self,
        point: BackendCoord,
        color: plotters_backend::BackendColor,
    ) -> Result<(), DrawingErrorKind<NoError>> {
        done(self.plot.draw_pixel(point, color_of(color)))
    }

    fn draw_line<S: plotters_backend::BackendStyle>(
        &mut self,
        from: BackendCoord,
        to: BackendCoord,
        style: &S,
    ) -> Result<(), DrawingErrorKind<NoError>> {
        done(self.plot.draw_line(from, to, &style_of(style)))
    }

    fn draw_rect<S: plotters_backend::BackendStyle>(
        &mut self,
        upper_left: BackendCoord,
        bottom_right: BackendCoord,
        style: &S,
        fill: bool,
    ) -> Result<(), DrawingErrorKind<NoError>> {
        done(self.plot.draw_rect(upper_left, bottom_right, &style_of(style), fill))
    }

    fn draw_circle<S: plotters_backend::BackendStyle>(
        &mut self,
        center: BackendCoord,
        radius: u32,
        style: &S,
        fill: bool,
    ) -> Result<(), DrawingErrorKind<NoError>> {
        done(self.plot.draw_circle(center, radius, &style_of(style), fill))
    }

    fn draw_text<S: plotters_backend::BackendTextStyle>(
        &mut self,
        text: &str,
        style: &S,
        pos: BackendCoord,
    ) -> Result<(), DrawingErrorKind<NoError>> {
        done(self.plot.draw_text(text, &text_style_of(style), pos))
    }
}

/// Draws the parabola y = x^2 at 101 points from -1 to 1.
fn draw_parabola(backend: ChartBackend<'_>) {
    let root_drawing_area = backend.into_drawing_area();
    root_drawing_area.fill(&WHITE).unwrap();

    let mut chart = ChartBuilder::on(&root_drawing_area)
        .caption("y=x^2", ("sans-serif", 24).into_font())
        .margin(16)
        .x_label_area_size(24)
        .y_label_area_size(24)
        .build_cartesian_2d(-1f32..1f32, -0.1f32..1f32)
        .unwrap();

    chart.configure_mesh().draw().unwrap();

    chart
        .draw_series(LineSeries::new(
            (-50..=50).map(|x| x as f32 / 50.0).map(|x| (x, x * x)),
            &RED,
        ))
        .unwrap()
        .label("y = x^2")
        .legend(|(x, y)| PathElement::new(vec![(x, y), (x + 10, y)], &RED));

    chart
        .configure_series_labels()
        .background_style(&WHITE.mix(0.8))
        .border_style(&BLACK.mix(0.3))
        .draw()
        .unwrap();
}

fn paint(width: u32, height: u32) -> Vec<Frame> {
    let mut frame = Frame::new(width, height);
    draw_parabola(ChartBackend { plot: CustomPlotFrame::new(&mut frame) });
    vec![frame]
}

fn is_red_line(command: &Command) -> bool {
    match command {
        Command::Stroke { path: Path::Line { .. }, stroke } => {
            (stroke.color.r, stroke.color.g, stroke.color.b) == (255, 0, 0)
        }
        _ => false,
    }
}

fn texts(frame: &Frame) -> Vec<(String, i64, i64)> {
    frame
        .commands()
        .iter()
        .filter_map(|c| match c {
            Command::FillText { text } => {
                Some((text.content.clone(), text.position.x, text.position.y))
            }
            _ => None,
        })
        .collect()
}

#[test]
fn chart_on_a_400_by_300_frame_is_one_frame_of_commands() {
    let painted = paint(400, 300);
    assert_eq!(painted.len(), 1);
    let frame = &painted[0];
    assert_eq!((frame.width(), frame.height()), (400, 300));
    assert_eq!(frame.commands().len(), 310);
}

#[test]
fn chart_starts_with_a_white_background() {
    let painted = paint(400, 300);
    assert_eq!(
        painted[0].commands()[0],
        Command::Fill {
            path: Path::Rectangle {
                top_left: Point { x: 0, y: 0 },
                size: Size { width: 399, height: 299 },
            },
            color: Color { r: 255, g: 255, b: 255, alpha_bits: 1.0f64.to_bits() },
        }
    );
}

#[test]
fn chart_draws_the_101_points_as_100_red_segments_and_a_legend_mark() {
    let painted = paint(400, 300);
    let red: Vec<&Command> = painted[0].commands().iter().filter(|c| is_red_line(c)).collect();
    assert_eq!(red.len(), 101);
    match red[0] {
        Command::Stroke { path: Path::Line { from, to }, stroke } => {
            assert_eq!((*from, *to), (Point { x: 40, y: 46 }, Point { x: 43, y: 52 }));
            assert_eq!(stroke.width, 1);
        }
        other => panic!("not a line: {:?}", other),
    }
    match red[100] {
        Command::Stroke { path: Path::Line { from, to }, .. } => {
            assert_eq!((*from, *to), (Point { x: 301, y: 153 }, Point { x: 311, y: 153 }));
        }
        other => panic!("not a line: {:?}", other),
    }
}

#[test]
fn chart_has_its_caption_its_labels_and_its_legend() {
    let painted = paint(400, 300);
    let found = texts(&painted[0]);
    assert_eq!(found.len(), 17);
    assert_eq!(found[0], (String::from("y=x^2"), 200, 21));
    assert_eq!(found[16], (String::from("y = x^2"), 331, 148));
    assert!(found.contains(&(String::from("-0.8"), 74, 270)));
    assert!(found.contains(&(String::from("1.0"), 384, 270)));
}

#[test]
fn chart_legend_background_keeps_its_opacity() {
    let painted = paint(400, 300);
    let fills: Vec<&Command> =
        painted[0].commands().iter().filter(|c| matches!(c, Command::Fill { .. })).collect();
    assert_eq!(fills.len(), 2);
    match fills[1] {
        Command::Fill { color, .. } => {
            assert_eq!((color.r, color.g, color.b), (255, 255, 255));
            assert_eq!(f64::from_bits(color.alpha_bits), 0.8);
        }
        other => panic!("not a fill: {:?}", other),
    }
}

#[test]
fn two_paint_cycles_give_the_same_frame() {
    let first = paint(400, 300);
    let second = paint(400, 300);
    assert_eq!(first.len(), 1);
    assert_eq!(second.len(), 1);
    assert_eq!(first[0].commands(), second[0].commands());
}

#[test]
fn chart_on_a_small_frame_does_not_panic() {
    let painted = paint(120, 90);
    assert_eq!(painted.len(), 1);
    assert_eq!((painted[0].width(), painted[0].height()), (120, 90));
}
