//! The scene model: the immutable decorative shapes built once at startup,
//! and the growable list of user-drawn strokes.

use crate::geometry::{
    cmds_bounded, polygon_commands, scale_cmds, scale_commands, translate_cmds,
    translate_commands, Path, PathCommand, Point, MAX_COORD,
};
use crate::style::{ColorSpace, Dash, GradientStop, LineJoin, Style};
use vstd::prelude::*;

verus! {

/// The mathematical content of one painted thing: the command list of its
/// geometry together with its fill-or-stroke style.
#[verifier::ext_equal]
pub ghost struct PaintSpec {
    pub commands: Seq<PathCommand>,
    pub style: Style,
}

/// A decorative shape: finalized geometry plus the style it is painted
/// with. Built once at scene construction and never mutated.
#[derive(Debug)]
pub struct Shape {
    pub geometry: Path,
    pub style: Style,
}

impl View for Shape {
    type V = PaintSpec;

    open spec fn view(&self) -> PaintSpec {
        PaintSpec { commands: self.geometry@, style: self.style }
    }
}

/// Builds a point; usable in specifications as well.
#[verifier::allow_in_spec]
pub fn pt(x: i32, y: i32) -> Point
    returns
        (Point { x, y }),
{
    Point { x, y }
}

pub const COLOR_BLACK: u32 = 0x000000;
pub const COLOR_BOLT: u32 = 0x1d4ed8;
pub const COLOR_STAR_INNER: u32 = 0xFACC15;
pub const COLOR_STAR_EDGE: u32 = 0xD56D0C;
pub const COLOR_BLOB_NEAR: u32 = 0x0000ff;
pub const COLOR_BLOB_FAR: u32 = 0xff0000;

/// The source definition of the logo outline: a sixteen-tooth cog traced
/// around the point (100, 100), closed back onto its first vertex.
pub open spec fn logo_source_cmds() -> Seq<PathCommand> {
    seq![
        PathCommand::MoveTo(pt(200, 100)),
        PathCommand::LineTo(pt(174, 131)),
        PathCommand::LineTo(pt(171, 171)),
        PathCommand::LineTo(pt(131, 174)),
        PathCommand::LineTo(pt(100, 200)),
        PathCommand::LineTo(pt(69, 174)),
        PathCommand::LineTo(pt(29, 171)),
        PathCommand::LineTo(pt(26, 131)),
        PathCommand::LineTo(pt(0, 100)),
        PathCommand::LineTo(pt(26, 69)),
        PathCommand::LineTo(pt(29, 29)),
        PathCommand::LineTo(pt(69, 26)),
        PathCommand::LineTo(pt(100, 0)),
        PathCommand::LineTo(pt(131, 26)),
        PathCommand::LineTo(pt(171, 29)),
        PathCommand::LineTo(pt(174, 69)),
        PathCommand::LineTo(pt(200, 100)),
        PathCommand::Close,
    ]
}

/// The logo as painted: its source outline moved down into place and
/// uniformly shrunk by one tenth, filled solid black.
pub open spec fn logo_paint() -> PaintSpec {
    PaintSpec {
        commands: scale_cmds(translate_cmds(logo_source_cmds(), 10, 100), 9, 10),
        style: Style::Solid { color: COLOR_BLACK },
    }
}

/// The lightning-bolt polygon: four explicit vertices, closed, filled with
/// a solid blue.
pub open spec fn bolt_cmds() -> Seq<PathCommand> {
    seq![
        PathCommand::MoveTo(pt(150, 200)),
        PathCommand::LineTo(pt(200, 125)),
        PathCommand::LineTo(pt(200, 175)),
        PathCommand::LineTo(pt(250, 100)),
        PathCommand::Close,
    ]
}

pub open spec fn bolt_paint() -> PaintSpec {
    PaintSpec { commands: bolt_cmds(), style: Style::Solid { color: COLOR_BOLT } }
}

/// The ten-point star: eleven line segments tracing back to the start.
pub open spec fn star_cmds() -> Seq<PathCommand> {
    seq![
        PathCommand::MoveTo(pt(350, 100)),
        PathCommand::LineTo(pt(370, 160)),
        PathCommand::LineTo(pt(430, 160)),
        PathCommand::LineTo(pt(380, 200)),
        PathCommand::LineTo(pt(400, 260)),
        PathCommand::LineTo(pt(350, 220)),
        PathCommand::LineTo(pt(300, 260)),
        PathCommand::LineTo(pt(320, 200)),
        PathCommand::LineTo(pt(270, 160)),
        PathCommand::LineTo(pt(330, 160)),
        PathCommand::LineTo(pt(350, 100)),
    ]
}

pub open spec fn star_style() -> Style {
    Style::LinearGradient {
        angle_deg: 180,
        stop_a: GradientStop { color: COLOR_STAR_INNER, position_pm: 700 },
        stop_b: GradientStop { color: COLOR_STAR_EDGE, position_pm: 1000 },
        space: ColorSpace::Oklab,
    }
}

pub open spec fn star_paint() -> PaintSpec {
    PaintSpec { commands: star_cmds(), style: star_style() }
}

/// The rounded blob: two curved sides and two straight sides over the
/// rectangle with origin (450, 100) and size (200, 80).
pub open spec fn blob_cmds() -> Seq<PathCommand> {
    seq![
        PathCommand::MoveTo(pt(450, 180)),
        PathCommand::CurveTo { ctrl: pt(450, 130), to: pt(530, 130) },
        PathCommand::LineTo(pt(570, 130)),
        PathCommand::CurveTo { ctrl: pt(650, 130), to: pt(650, 180) },
        PathCommand::LineTo(pt(450, 180)),
    ]
}

pub open spec fn blob_style() -> Style {
    Style::LinearGradient {
        angle_deg: 180,
        stop_a: GradientStop { color: COLOR_BLOB_NEAR, position_pm: 400 },
        stop_b: GradientStop { color: COLOR_BLOB_FAR, position_pm: 1000 },
        space: ColorSpace::Srgb,
    }
}

pub open spec fn blob_paint() -> PaintSpec {
    PaintSpec { commands: blob_cmds(), style: blob_style() }
}

/// Where the rim of pie wedge `k` begins; wedge `k` ends where wedge
/// `k + 1` begins, around the shared pie center (775, 155) with radius 96.
pub open spec fn wedge_start(k: int) -> Point {
    if k == 0 {
        pt(871, 155)
    } else if k == 1 {
        pt(747, 63)
    } else if k == 2 {
        pt(679, 163)
    } else if k == 3 {
        pt(754, 249)
    } else {
        pt(854, 210)
    }
}

pub open spec fn wedge_end(k: int) -> Point {
    if k == 4 {
        wedge_start(0)
    } else {
        wedge_start(k + 1)
    }
}

pub open spec fn wedge_color(k: int) -> u32 {
    if k == 0 {
        0x1374e9
    } else if k == 1 {
        0xe13527
    } else if k == 2 {
        0x0751ce
    } else if k == 3 {
        0x209742
    } else {
        0xfbc10a
    }
}

/// One pie wedge: a circular arc along the rim, a line to the pie center,
/// closed back to the rim start.
pub open spec fn wedge_cmds(k: int) -> Seq<PathCommand> {
    seq![
        PathCommand::MoveTo(wedge_start(k)),
        PathCommand::ArcTo {
            radii: pt(96, 96),
            x_rotation: 0,
            large_arc: false,
            sweep: false,
            to: wedge_end(k),
        },
        PathCommand::LineTo(pt(775, 155)),
        PathCommand::Close,
    ]
}

pub open spec fn wedge_paint(k: int) -> PaintSpec {
    PaintSpec { commands: wedge_cmds(k), style: Style::Solid { color: wedge_color(k) } }
}

/// The vertical position of the sine wave after `i` horizontal steps of
/// ten units each.
pub open spec fn wave_y(i: int) -> int {
    if i == 1 { 298 } else if i == 2 { 357 } else if i == 3 { 280 } else if i == 4 { 350 }
    else if i == 5 { 310 } else if i == 6 { 308 } else if i == 7 { 351 } else if i == 8 { 280 }
    else if i == 9 { 356 } else if i == 10 { 300 } else if i == 11 { 318 } else if i == 12 { 343 }
    else if i == 13 { 283 } else if i == 14 { 359 } else if i == 15 { 291 } else if i == 16 { 329 }
    else if i == 17 { 334 } else if i == 18 { 288 } else if i == 19 { 360 } else if i == 20 { 285 }
    else if i == 21 { 339 } else if i == 22 { 324 } else if i == 23 { 295 } else if i == 24 { 358 }
    else if i == 25 { 281 } else if i == 26 { 347 } else if i == 27 { 313 } else if i == 28 { 304 }
    else if i == 29 { 353 } else if i == 30 { 280 } else if i == 31 { 354 } else if i == 32 { 303 }
    else if i == 33 { 315 } else if i == 34 { 346 } else if i == 35 { 282 } else if i == 36 { 358 }
    else if i == 37 { 294 } else if i == 38 { 325 } else if i == 39 { 337 } else if i == 40 { 286 }
    else if i == 41 { 360 } else if i == 42 { 287 } else if i == 43 { 336 } else if i == 44 { 327 }
    else if i == 45 { 293 } else if i == 46 { 359 } else if i == 47 { 282 } else if i == 48 { 345 }
    else { 316 }
}

/// The sine-wave stroke: forty-nine connected line segments starting from
/// (40, 320), each advancing ten units to the right.
pub open spec fn wave_cmds() -> Seq<PathCommand> {
    seq![PathCommand::MoveTo(pt(40, 320))]
        + Seq::new(49, |i: int| PathCommand::LineTo(
            Point { x: (50 + 10 * i) as i32, y: wave_y(i + 1) as i32 },
        ))
}

pub open spec fn wave_style() -> Style {
    Style::Stroke { color: COLOR_BLACK, width: 1, join: LineJoin::Bevel, dash: None }
}

pub open spec fn wave_paint() -> PaintSpec {
    PaintSpec { commands: wave_cmds(), style: wave_style() }
}

/// Every decorative shape, in paint order: logo, bolt, star, blob, the
/// five pie wedges, and the sine wave. Later shapes paint over earlier
/// ones where they overlap.
pub open spec fn static_scene() -> Seq<PaintSpec> {
    seq![
        logo_paint(),
        bolt_paint(),
        star_paint(),
        blob_paint(),
        wedge_paint(0),
        wedge_paint(1),
        wedge_paint(2),
        wedge_paint(3),
        wedge_paint(4),
        wave_paint(),
    ]
}

/// Every static shape keeps its coordinates inside the scalable range.
pub open spec fn statics_bounded(statics: Seq<PaintSpec>) -> bool {
    forall|k: int| 0 <= k < statics.len() ==> cmds_bounded(
        (#[trigger] statics[k]).commands,
        0,
        MAX_COORD as int,
    )
}

fn logo_shape() -> (r: Shape)
    ensures
        r@ == logo_paint(),
        cmds_bounded(r@.commands, 0, MAX_COORD as int),
{
    let source = vec![
        PathCommand::MoveTo(pt(200, 100)),
        PathCommand::LineTo(pt(174, 131)),
        PathCommand::LineTo(pt(171, 171)),
        PathCommand::LineTo(pt(131, 174)),
        PathCommand::LineTo(pt(100, 200)),
        PathCommand::LineTo(pt(69, 174)),
        PathCommand::LineTo(pt(29, 171)),
        PathCommand::LineTo(pt(26, 131)),
        PathCommand::LineTo(pt(0, 100)),
        PathCommand::LineTo(pt(26, 69)),
        PathCommand::LineTo(pt(29, 29)),
        PathCommand::LineTo(pt(69, 26)),
        PathCommand::LineTo(pt(100, 0)),
        PathCommand::LineTo(pt(131, 26)),
        PathCommand::LineTo(pt(171, 29)),
        PathCommand::LineTo(pt(174, 69)),
        PathCommand::LineTo(pt(200, 100)),
        PathCommand::Close,
    ];
    proof {
        assert(source@ =~= logo_source_cmds());
        assert(cmds_bounded(source@, 0, 524288));
    }
    let translated = translate_commands(&source, 10, 100);
    let scaled = scale_commands(&translated, 9, 10);
    Shape { geometry: Path { commands: scaled }, style: Style::Solid { color: COLOR_BLACK } }
}

fn bolt_shape() -> (r: Shape)
    ensures
        r@ == bolt_paint(),
        cmds_bounded(r@.commands, 0, MAX_COORD as int),
{
    let vertices = vec![pt(150, 200), pt(200, 125), pt(200, 175), pt(250, 100)];
    let commands = polygon_commands(&vertices, true);
    proof {
        assert(commands@ =~= bolt_cmds());
        assert(cmds_bounded(commands@, 0, MAX_COORD as int));
    }
    Shape { geometry: Path { commands }, style: Style::Solid { color: COLOR_BOLT } }
}

fn star_shape() -> (r: Shape)
    ensures
        r@ == star_paint(),
        cmds_bounded(r@.commands, 0, MAX_COORD as int),
{
    let commands = vec![
        PathCommand::MoveTo(pt(350, 100)),
        PathCommand::LineTo(pt(370, 160)),
        PathCommand::LineTo(pt(430, 160)),
        PathCommand::LineTo(pt(380, 200)),
        PathCommand::LineTo(pt(400, 260)),
        PathCommand::LineTo(pt(350, 220)),
        PathCommand::LineTo(pt(300, 260)),
        PathCommand::LineTo(pt(320, 200)),
        PathCommand::LineTo(pt(270, 160)),
        PathCommand::LineTo(pt(330, 160)),
        PathCommand::LineTo(pt(350, 100)),
    ];
    proof {
        assert(commands@ =~= star_cmds());
        assert(cmds_bounded(commands@, 0, MAX_COORD as int));
    }
    let style = Style::LinearGradient {
        angle_deg: 180,
        stop_a: GradientStop { color: COLOR_STAR_INNER, position_pm: 700 },
        stop_b: GradientStop { color: COLOR_STAR_EDGE, position_pm: 1000 },
        space: ColorSpace::Oklab,
    };
    Shape { geometry: Path { commands }, style }
}

fn blob_shape() -> (r: Shape)
    ensures
        r@ == blob_paint(),
        cmds_bounded(r@.commands, 0, MAX_COORD as int),
{
    let commands = vec![
        PathCommand::MoveTo(pt(450, 180)),
        PathCommand::CurveTo { ctrl: pt(450, 130), to: pt(530, 130) },
        PathCommand::LineTo(pt(570, 130)),
        PathCommand::CurveTo { ctrl: pt(650, 130), to: pt(650, 180) },
        PathCommand::LineTo(pt(450, 180)),
    ];
    proof {
        assert(commands@ =~= blob_cmds());
        assert(cmds_bounded(commands@, 0, MAX_COORD as int));
    }
    let style = Style::LinearGradient {
        angle_deg: 180,
        stop_a: GradientStop { color: COLOR_BLOB_NEAR, position_pm: 400 },
        stop_b: GradientStop { color: COLOR_BLOB_FAR, position_pm: 1000 },
        space: ColorSpace::Srgb,
    };
    Shape { geometry: Path { commands }, style }
}

fn wedge_shape(k: usize) -> (r: Shape)
    requires
        k < 5,
    ensures
        r@ == wedge_paint(k as int),
        cmds_bounded(r@.commands, 0, MAX_COORD as int),
{
    let (start, end, color): (Point, Point, u32) = match k {
        0 => (pt(871, 155), pt(747, 63), 0x1374e9),
        1 => (pt(747, 63), pt(679, 163), 0xe13527),
        2 => (pt(679, 163), pt(754, 249), 0x0751ce),
        3 => (pt(754, 249), pt(854, 210), 0x209742),
        _ => (pt(854, 210), pt(871, 155), 0xfbc10a),
    };
    let commands = vec![
        PathCommand::MoveTo(start),
        PathCommand::ArcTo { radii: pt(96, 96), x_rotation: 0, large_arc: false, sweep: false, to: end },
        PathCommand::LineTo(pt(775, 155)),
        PathCommand::Close,
    ];
    proof {
        assert(commands@ =~= wedge_cmds(k as int));
        assert(cmds_bounded(commands@, 0, MAX_COORD as int));
    }
    Shape { geometry: Path { commands }, style: Style::Solid { color } }
}

fn wave_shape() -> (r: Shape)
    ensures
        r@ == wave_paint(),
        cmds_bounded(r@.commands, 0, MAX_COORD as int),
{
    let commands = vec![
        PathCommand::MoveTo(pt(40, 320)),
        PathCommand::LineTo(pt(50, 298)),
        PathCommand::LineTo(pt(60, 357)),
        PathCommand::LineTo(pt(70, 280)),
        PathCommand::LineTo(pt(80, 350)),
        PathCommand::LineTo(pt(90, 310)),
        PathCommand::LineTo(pt(100, 308)),
        PathCommand::LineTo(pt(110, 351)),
        PathCommand::LineTo(pt(120, 280)),
        PathCommand::LineTo(pt(130, 356)),
        PathCommand::LineTo(pt(140, 300)),
        PathCommand::LineTo(pt(150, 318)),
        PathCommand::LineTo(pt(160, 343)),
        PathCommand::LineTo(pt(170, 283)),
        PathCommand::LineTo(pt(180, 359)),
        PathCommand::LineTo(pt(190, 291)),
        PathCommand::LineTo(pt(200, 329)),
        PathCommand::LineTo(pt(210, 334)),
        PathCommand::LineTo(pt(220, 288)),
        PathCommand::LineTo(pt(230, 360)),
        PathCommand::LineTo(pt(240, 285)),
        PathCommand::LineTo(pt(250, 339)),
        PathCommand::LineTo(pt(260, 324)),
        PathCommand::LineTo(pt(270, 295)),
        PathCommand::LineTo(pt(280, 358)),
        PathCommand::LineTo(pt(290, 281)),
        PathCommand::LineTo(pt(300, 347)),
        PathCommand::LineTo(pt(310, 313)),
        PathCommand::LineTo(pt(320, 304)),
        PathCommand::LineTo(pt(330, 353)),
        PathCommand::LineTo(pt(340, 280)),
        PathCommand::LineTo(pt(350, 354)),
        PathCommand::LineTo(pt(360, 303)),
        PathCommand::LineTo(pt(370, 315)),
        PathCommand::LineTo(pt(380, 346)),
        PathCommand::LineTo(pt(390, 282)),
        PathCommand::LineTo(pt(400, 358)),
        PathCommand::LineTo(pt(410, 294)),
        PathCommand::LineTo(pt(420, 325)),
        PathCommand::LineTo(pt(430, 337)),
        PathCommand::LineTo(pt(440, 286)),
        PathCommand::LineTo(pt(450, 360)),
        PathCommand::LineTo(pt(460, 287)),
        PathCommand::LineTo(pt(470, 336)),
        PathCommand::LineTo(pt(480, 327)),
        PathCommand::LineTo(pt(490, 293)),
        PathCommand::LineTo(pt(500, 359)),
        PathCommand::LineTo(pt(510, 282)),
        PathCommand::LineTo(pt(520, 345)),
        PathCommand::LineTo(pt(530, 316)),
    ];
    proof {
        assert(commands@ =~= wave_cmds());
        assert(cmds_bounded(commands@, 0, MAX_COORD as int));
    }
    let style = Style::Stroke { color: COLOR_BLACK, width: 1, join: LineJoin::Bevel, dash: None };
    Shape { geometry: Path { commands }, style }
}

/// Constructs, once, every decorative shape's finalized path and style, in
/// paint order. Deterministic and identical across runs.
pub fn build_static_shapes() -> (shapes: Vec<Shape>)
    ensures
        shapes@.map_values(|s: Shape| s@) == static_scene(),
        statics_bounded(shapes@.map_values(|s: Shape| s@)),
{
    let mut shapes: Vec<Shape> = Vec::new();
    shapes.push(logo_shape());
    shapes.push(bolt_shape());
    shapes.push(star_shape());
    shapes.push(blob_shape());
    shapes.push(wedge_shape(0));
    shapes.push(wedge_shape(1));
    shapes.push(wedge_shape(2));
    shapes.push(wedge_shape(3));
    shapes.push(wedge_shape(4));
    shapes.push(wave_shape());
    proof {
        assert(shapes@.map_values(|s: Shape| s@) =~= static_scene());
    }
    shapes
}

/// The mathematical state of a scene.
#[verifier::ext_equal]
pub ghost struct SceneView {
    pub statics: Seq<PaintSpec>,
    pub strokes: Seq<Seq<Point>>,
    pub stroke_active: bool,
}

/// The scene: decorative shapes, immutable after construction, and the
/// ordered user strokes, which only grow stroke by stroke or are emptied
/// entirely by a clear.
pub struct Scene {
    pub static_shapes: Vec<Shape>,
    pub strokes: Vec<Vec<Point>>,
    pub stroke_active: bool,
}

impl View for Scene {
    type V = SceneView;

    open spec fn view(&self) -> SceneView {
        SceneView {
            statics: self.static_shapes@.map_values(|s: Shape| s@),
            strokes: self.strokes@.map_values(|v: Vec<Point>| v@),
            stroke_active: self.stroke_active,
        }
    }
}

/// The strokes after appending a point to the most recently started
/// stroke; unchanged when no stroke is active.
pub open spec fn extended_strokes(v: SceneView, p: Point) -> Seq<Seq<Point>> {
    if v.stroke_active && v.strokes.len() > 0 {
        v.strokes.update(v.strokes.len() - 1, v.strokes.last().push(p))
    } else {
        v.strokes
    }
}

impl Scene {
    /// Well-formedness: static coordinates stay scalable, and an active
    /// stroke implies there is a stroke to extend.
    pub open spec fn wf(self) -> bool {
        &&& statics_bounded(self@.statics)
        &&& (self@.stroke_active ==> self@.strokes.len() > 0)
    }

    pub fn new() -> (s: Scene)
        ensures
            s@.statics == static_scene(),
            s@.strokes == Seq::<Seq<Point>>::empty(),
            !s@.stroke_active,
            s.wf(),
    {
        let s = Scene {
            static_shapes: build_static_shapes(),
            strokes: Vec::new(),
            stroke_active: false,
        };
        proof {
            assert(s@.strokes =~= Seq::<Seq<Point>>::empty());
        }
        s
    }

    /// Appends a new empty stroke and marks it active. The anchoring point
    /// becomes the stroke's first vertex through `extend_active_stroke`.
    pub fn start_stroke(&mut self, _at: Point)
        ensures
            final(self)@.statics == old(self)@.statics,
            final(self)@.strokes == old(self)@.strokes.push(Seq::<Point>::empty()),
            final(self)@.stroke_active,
            old(self).wf() ==> final(self).wf(),
    {
        self.strokes.push(Vec::new());
        self.stroke_active = true;
        proof {
            assert(self@.strokes =~~= old(self)@.strokes.push(Seq::<Point>::empty()));
        }
    }

    /// Appends a point to the most recently started stroke; a silent no-op
    /// when no stroke is active.
    pub fn extend_active_stroke(&mut self, with: Point)
        ensures
            final(self)@.statics == old(self)@.statics,
            final(self)@.stroke_active == old(self)@.stroke_active,
            final(self)@.strokes == extended_strokes(old(self)@, with),
            old(self).wf() ==> final(self).wf(),
    {
        if !self.stroke_active {
            return ;
        }
        if self.strokes.len() == 0 {
            return ;
        }
        let mut last = self.strokes.pop().unwrap();
        last.push(with);
        self.strokes.push(last);
        proof {
            assert(self@.strokes =~~= extended_strokes(old(self)@, with));
        }
    }

    /// Marks no stroke active; the stroke's points are retained.
    pub fn end_active_stroke(&mut self)
        ensures
            final(self)@.statics == old(self)@.statics,
            final(self)@.strokes == old(self)@.strokes,
            !final(self)@.stroke_active,
            old(self).wf() ==> final(self).wf(),
    {
        self.stroke_active = false;
    }

    /// Empties the strokes entirely; the static shapes are unaffected.
    pub fn clear_strokes(&mut self)
        ensures
            final(self)@.statics == old(self)@.statics,
            final(self)@.strokes == Seq::<Seq<Point>>::empty(),
            !final(self)@.stroke_active,
            old(self).wf() ==> final(self).wf(),
    {
        self.strokes = Vec::new();
        self.stroke_active = false;
        proof {
            assert(self@.strokes =~= Seq::<Seq<Point>>::empty());
        }
    }
}

} // verus!
