//! The input/render controller: a finite-state interaction handler turning
//! pointer events into stroke mutations, and the per-frame render procedure
//! that rebuilds renderable paths and returns the ordered draw calls.

use crate::geometry::{
    build_path, cmds_bounded, is_drawable, is_segment, lemma_scale_c_multiple, polygon_cmds,
    polygon_commands, scale_cmds, scale_commands, scale_pt, Path, PathCommand, Point, MAX_COORD,
    MAX_WINDOW_WIDTH,
};
use crate::scene::{
    pt, static_scene, statics_bounded, PaintSpec, Scene, Shape, COLOR_BLACK,
};
use crate::style::{Dash, LineJoin, Style};
use vstd::prelude::*;

verus! {

/// The fixed layout width the static shapes were authored against; the
/// per-frame scale factor is `current_width / DESIGN_WIDTH`.
pub const DESIGN_WIDTH: u32 = 1024;

/// The fixed width of a freehand stroke, in logical units.
pub const STROKE_WIDTH: u32 = 1;

/// The fixed dash pattern applied to freehand strokes in dash mode.
pub const DASH_ON: u32 = 4;

pub const DASH_OFF: u32 = 2;

/// The interaction state: whether a drag is live, the point anchoring
/// axis-snap decisions for the current drag, and the dash-mode toggle.
#[derive(Clone, Copy, PartialEq, Eq, Structural, Debug)]
pub struct InteractionState {
    pub is_dragging: bool,
    pub drag_origin: Point,
    pub dash_mode: bool,
}

/// The mathematical state of the whole surface: the scene plus the
/// interaction state.
#[verifier::ext_equal]
pub ghost struct Model {
    pub statics: Seq<PaintSpec>,
    pub strokes: Seq<Seq<Point>>,
    pub stroke_active: bool,
    pub dragging: bool,
    pub origin: Point,
    pub dash: bool,
}

pub open spec fn abs_i(v: int) -> int {
    if v < 0 {
        -v
    } else {
        v
    }
}

/// The axis-snap rule: without shift the point passes through; with shift
/// it keeps whichever displacement from the drag origin is larger and
/// snaps the other coordinate back to the origin's.
pub open spec fn snapped(origin: Point, p: Point, shift_held: bool) -> Point {
    if !shift_held {
        p
    } else {
        let dx = p.x - origin.x;
        let dy = p.y - origin.y;
        if abs_i(dx) > abs_i(dy) {
            Point { x: p.x, y: origin.y }
        } else {
            Point { x: origin.x, y: p.y }
        }
    }
}

/// The effective point a pointer move contributes to the active stroke.
pub fn effective_point(origin: Point, p: Point, shift_held: bool) -> (r: Point)
    ensures
        r == snapped(origin, p, shift_held),
{
    if !shift_held {
        return p;
    }
    let dx = (p.x as i64) - (origin.x as i64);
    let dy = (p.y as i64) - (origin.y as i64);
    let adx = if dx < 0 { -dx } else { dx };
    let ady = if dy < 0 { -dy } else { dy };
    if adx > ady {
        Point { x: p.x, y: origin.y }
    } else {
        Point { x: origin.x, y: p.y }
    }
}

/// Idle → Dragging: the pressed point becomes the drag origin and the
/// one-point start of a new stroke.
pub open spec fn spec_pointer_down(m: Model, p: Point) -> Model {
    Model { strokes: m.strokes.push(seq![p]), stroke_active: true, dragging: true, origin: p, ..m }
}

/// Dragging → Dragging: the effective point is appended to the stroke
/// most recently started; outside a drag nothing changes.
pub open spec fn spec_pointer_move(m: Model, p: Point, shift_held: bool) -> Model {
    if m.dragging && m.stroke_active && m.strokes.len() > 0 {
        Model {
            strokes: m.strokes.update(
                m.strokes.len() - 1,
                m.strokes.last().push(snapped(m.origin, p, shift_held)),
            ),
            ..m
        }
    } else {
        m
    }
}

/// Dragging → Idle: the stroke's points are retained.
pub open spec fn spec_pointer_up(m: Model) -> Model {
    Model { stroke_active: false, dragging: false, ..m }
}

/// Flips the dash-mode rendering preference; everything else unchanged.
pub open spec fn spec_toggle_dash(m: Model) -> Model {
    Model { dash: !m.dash, ..m }
}

/// Empties the strokes and returns to Idle, discarding any drag in
/// flight; the static shapes are unaffected.
pub open spec fn spec_clear(m: Model) -> Model {
    Model { strokes: Seq::empty(), stroke_active: false, dragging: false, ..m }
}

/// The controller: exclusive owner of the scene and interaction state,
/// mutated only through the event entry points below.
pub struct Controller {
    pub scene: Scene,
    pub state: InteractionState,
}

impl View for Controller {
    type V = Model;

    open spec fn view(&self) -> Model {
        Model {
            statics: self.scene@.statics,
            strokes: self.scene@.strokes,
            stroke_active: self.scene@.stroke_active,
            dragging: self.state.is_dragging,
            origin: self.state.drag_origin,
            dash: self.state.dash_mode,
        }
    }
}

impl Controller {
    /// Well-formedness: the scene is well formed and the two views of
    /// "a drag is live" agree.
    pub open spec fn wf(self) -> bool {
        &&& self.scene.wf()
        &&& self@.dragging == self@.stroke_active
    }

    pub fn new() -> (c: Controller)
        ensures
            c@.statics == static_scene(),
            c@.strokes == Seq::<Seq<Point>>::empty(),
            !c@.dragging,
            !c@.dash,
            c.wf(),
    {
        Controller {
            scene: Scene::new(),
            state: InteractionState {
                is_dragging: false,
                drag_origin: pt(0, 0),
                dash_mode: false,
            },
        }
    }

    /// Idle → Dragging: records the drag origin, starts a stroke, and
    /// gives it the pressed point as its first vertex.
    pub fn pointer_down(&mut self, p: Point)
        requires
            !old(self)@.dragging,
            old(self).wf(),
        ensures
            final(self)@ == spec_pointer_down(old(self)@, p),
            final(self).wf(),
    {
        self.state.is_dragging = true;
        self.state.drag_origin = p;
        self.scene.start_stroke(p);
        self.scene.extend_active_stroke(p);
        proof {
            assert(self@ =~~= spec_pointer_down(old(self)@, p));
        }
    }

    /// Dragging → Dragging: appends the effective (possibly axis-snapped)
    /// point to the active stroke; a no-op outside a drag.
    pub fn pointer_move(&mut self, p: Point, shift_held: bool)
        ensures
            final(self)@ == spec_pointer_move(old(self)@, p, shift_held),
            old(self).wf() ==> final(self).wf(),
    {
        if self.state.is_dragging {
            let eff = effective_point(self.state.drag_origin, p, shift_held);
            self.scene.extend_active_stroke(eff);
            proof {
                assert(self@ =~~= spec_pointer_move(old(self)@, p, shift_held));
            }
        }
    }

    /// Dragging → Idle: ends the drag; stroke data is retained.
    pub fn pointer_up(&mut self)
        ensures
            final(self)@ == spec_pointer_up(old(self)@),
            old(self).wf() ==> final(self).wf(),
    {
        self.state.is_dragging = false;
        self.scene.end_active_stroke();
        proof {
            assert(self@ =~~= spec_pointer_up(old(self)@));
        }
    }

    /// Flips the dash-mode preference; applies uniformly to all strokes
    /// at the next frame and touches no stored point.
    pub fn toggle_dash(&mut self)
        ensures
            final(self)@ == spec_toggle_dash(old(self)@),
            old(self).wf() ==> final(self).wf(),
    {
        self.state.dash_mode = !self.state.dash_mode;
        proof {
            assert(self@ =~~= spec_toggle_dash(old(self)@));
        }
    }

    /// Empties the strokes and returns to Idle; a drag in flight is
    /// discarded with them.
    pub fn clear_clicked(&mut self)
        ensures
            final(self)@ == spec_clear(old(self)@),
            old(self).wf() ==> final(self).wf(),
    {
        self.scene.clear_strokes();
        self.state.is_dragging = false;
        proof {
            assert(self@ =~~= spec_clear(old(self)@));
        }
    }
}

/// One draw call handed to the host's paint surface: a finalized path
/// plus the style to paint it with. Later calls paint over earlier ones.
#[derive(Debug)]
pub struct DrawCall {
    pub path: Path,
    pub style: Style,
}

impl View for DrawCall {
    type V = PaintSpec;

    open spec fn view(&self) -> PaintSpec {
        PaintSpec { commands: self.path@, style: self.style }
    }
}

/// The mathematical content of a list of draw calls.
pub open spec fn calls_view(calls: Seq<DrawCall>) -> Seq<PaintSpec> {
    calls.map_values(|c: DrawCall| c@)
}

/// A shape's paint under the frame's scale: geometry scaled uniformly by
/// `w / DESIGN_WIDTH` from the origin, style kept.
pub open spec fn scaled_paint(s: PaintSpec, w: int) -> PaintSpec {
    PaintSpec { commands: scale_cmds(s.commands, w, DESIGN_WIDTH as int), style: s.style }
}

pub open spec fn scaled_statics(statics: Seq<PaintSpec>, w: int) -> Seq<PaintSpec> {
    statics.map_values(|s: PaintSpec| scaled_paint(s, w))
}

/// The renderable path of a stroke: the open polygon through its points,
/// a move to the first point and a straight segment to each subsequent
/// point in insertion order.
pub open spec fn stroke_commands(pts: Seq<Point>) -> Seq<PathCommand> {
    polygon_cmds(pts, false)
}

/// The style of freehand ink: fixed width, solid foreground color, and
/// the fixed dash pattern exactly in dash mode.
pub open spec fn stroke_style(dash_mode: bool) -> Style {
    Style::Stroke {
        color: COLOR_BLACK,
        width: STROKE_WIDTH,
        join: LineJoin::Miter,
        dash: if dash_mode {
            Some(Dash { on: DASH_ON, off: DASH_OFF })
        } else {
            None
        },
    }
}

pub open spec fn stroke_paint(pts: Seq<Point>, dash_mode: bool) -> PaintSpec {
    PaintSpec { commands: stroke_commands(pts), style: stroke_style(dash_mode) }
}

/// The draw calls the strokes contribute, in order: one per stroke with
/// at least two points, none for the rest.
pub open spec fn rendered_strokes(strokes: Seq<Seq<Point>>, dash_mode: bool) -> Seq<PaintSpec>
    decreases strokes.len(),
{
    if strokes.len() == 0 {
        Seq::empty()
    } else {
        rendered_strokes(strokes.drop_last(), dash_mode) + (if strokes.last().len() >= 2 {
            seq![stroke_paint(strokes.last(), dash_mode)]
        } else {
            Seq::empty()
        })
    }
}

/// A whole frame: the static shapes scaled to the current window width,
/// then the drawable strokes, in that order.
pub open spec fn spec_render(m: Model, w: int) -> Seq<PaintSpec> {
    scaled_statics(m.statics, w) + rendered_strokes(m.strokes, m.dash)
}

impl Controller {
    /// The per-frame render procedure. Strokes with fewer than two points
    /// are skipped; nothing here can fail for the whole frame.
    pub fn render_frame(&self, current_width: u32) -> (calls: Vec<DrawCall>)
        requires
            self.wf(),
            current_width <= MAX_WINDOW_WIDTH,
        ensures
            calls_view(calls@) == spec_render(self@, current_width as int),
    {
        let mut calls: Vec<DrawCall> = Vec::new();
        let mut i: usize = 0;
        while i < self.scene.static_shapes.len()
            invariant
                0 <= i <= self.scene.static_shapes@.len(),
                calls@.len() == i as int,
                self.wf(),
                current_width <= MAX_WINDOW_WIDTH,
                calls_view(calls@) == scaled_statics(
                    self@.statics.take(i as int),
                    current_width as int,
                ),
            decreases self.scene.static_shapes@.len() - i,
        {
            let shape = &self.scene.static_shapes[i];
            proof {
                assert(self@.statics[i as int] == shape@);
                assert(cmds_bounded(self@.statics[i as int].commands, 0, MAX_COORD as int));
            }
            let scaled = scale_commands(&shape.geometry.commands, current_width, DESIGN_WIDTH);
            let ghost calls0 = calls@;
            calls.push(DrawCall { path: Path { commands: scaled }, style: shape.style });
            proof {
                let w = current_width as int;
                assert(forall|k: int| 0 <= k < calls0.len() ==> #[trigger] calls_view(calls@)[k]
                    == calls_view(calls0)[k]);
                assert(calls_view(calls@)[i as int] == scaled_paint(self@.statics[i as int], w));
                assert(calls_view(calls@) =~= scaled_statics(self@.statics.take(i + 1), w));
            }
            i = i + 1;
        }
        proof {
            assert(self@.statics.take(self@.statics.len() as int) =~= self@.statics);
        }
        let mut j: usize = 0;
        while j < self.scene.strokes.len()
            invariant
                0 <= j <= self.scene.strokes@.len(),
                self.wf(),
                calls_view(calls@) == scaled_statics(
                    self@.statics,
                    current_width as int,
                ) + rendered_strokes(self@.strokes.take(j as int), self@.dash),
            decreases self.scene.strokes@.len() - j,
        {
            let stroke_len = self.scene.strokes[j].len();
            let ghost calls0 = calls@;
            let ghost ss = scaled_statics(self@.statics, current_width as int);
            let ghost prev = rendered_strokes(self@.strokes.take(j as int), self@.dash);
            let ghost cur = self@.strokes[j as int];
            proof {
                assert(self@.strokes.take(j + 1).drop_last() =~= self@.strokes.take(j as int));
                assert(self@.strokes.take(j + 1).last() == cur);
                assert(rendered_strokes(self@.strokes.take(j + 1), self@.dash) == prev
                    + (if cur.len() >= 2 {
                    seq![stroke_paint(cur, self@.dash)]
                } else {
                    Seq::<PaintSpec>::empty()
                }));
                assert(stroke_len as int == cur.len());
            }
            if stroke_len >= 2 {
                let cmds = polygon_commands(&self.scene.strokes[j], false);
                proof {
                    assert(cmds@ =~= stroke_commands(self@.strokes[j as int]));
                    assert(is_segment(cmds@[1]));
                    assert(is_drawable(cmds@));
                }
                let style = Style::Stroke {
                    color: COLOR_BLACK,
                    width: STROKE_WIDTH,
                    join: LineJoin::Miter,
                    dash: if self.state.dash_mode {
                        Some(Dash { on: DASH_ON, off: DASH_OFF })
                    } else {
                        None
                    },
                };
                match build_path(cmds) {
                    Ok(path) => {
                        calls.push(DrawCall { path, style });
                    },
                    Err(_) => {
                        proof {
                            assert(false);
                        }
                    },
                }
                proof {
                    let sp = stroke_paint(cur, self@.dash);
                    assert(forall|k: int| 0 <= k < calls0.len() ==> #[trigger] calls_view(
                        calls@,
                    )[k] == calls_view(calls0)[k]);
                    assert(calls_view(calls@)[calls0.len() as int] == sp);
                    assert(ss + (prev + seq![sp]) =~= (ss + prev) + seq![sp]);
                    assert(calls_view(calls@) =~= ss + rendered_strokes(
                        self@.strokes.take(j + 1),
                        self@.dash,
                    ));
                }
            } else {
                proof {
                    assert(prev + Seq::<PaintSpec>::empty() =~= prev);
                    assert(calls_view(calls@) =~= ss + rendered_strokes(
                        self@.strokes.take(j + 1),
                        self@.dash,
                    ));
                }
            }
            j = j + 1;
        }
        proof {
            assert(self@.strokes.take(self@.strokes.len() as int) =~= self@.strokes);
        }
        calls
    }
}

/// How many strokes carry a visible segment.
pub open spec fn drawable_count(strokes: Seq<Seq<Point>>) -> int
    decreases strokes.len(),
{
    if strokes.len() == 0 {
        0
    } else {
        drawable_count(strokes.drop_last()) + (if strokes.last().len() >= 2 {
            1int
        } else {
            0int
        })
    }
}

/// A stroke with fewer than two points gets no draw call: the strokes
/// contribute exactly one call per drawable stroke, every contributed
/// call comes from a stroke with at least two points, and a frame whose
/// strokes are all short contributes none.
pub proof fn lemma_short_strokes_not_rendered(strokes: Seq<Seq<Point>>, dash_mode: bool)
    ensures
        rendered_strokes(strokes, dash_mode).len() == drawable_count(strokes),
        forall|k: int| 0 <= k < rendered_strokes(strokes, dash_mode).len() ==> exists|i: int|
            0 <= i < strokes.len() && strokes[i].len() >= 2
                && #[trigger] rendered_strokes(strokes, dash_mode)[k] == stroke_paint(
                strokes[i],
                dash_mode,
            ),
        (forall|i: int| 0 <= i < strokes.len() ==> (#[trigger] strokes[i]).len() < 2)
            ==> rendered_strokes(strokes, dash_mode) == Seq::<PaintSpec>::empty(),
    decreases strokes.len(),
{
    if strokes.len() == 0 {
        assert(rendered_strokes(strokes, dash_mode) =~= Seq::<PaintSpec>::empty());
    } else {
        let prefix = strokes.drop_last();
        lemma_short_strokes_not_rendered(prefix, dash_mode);
        let r = rendered_strokes(strokes, dash_mode);
        let rp = rendered_strokes(prefix, dash_mode);
        assert forall|k: int| 0 <= k < r.len() implies exists|i: int|
            0 <= i < strokes.len() && strokes[i].len() >= 2 && #[trigger] r[k] == stroke_paint(
                strokes[i],
                dash_mode,
            ) by {
            if k < rp.len() {
                let i = choose|i: int|
                    0 <= i < prefix.len() && (#[trigger] prefix[i]).len() >= 2
                        && rp[k] == stroke_paint(prefix[i], dash_mode);
                assert(strokes[i] == prefix[i]);
                assert(strokes[i].len() >= 2 && r[k] == stroke_paint(strokes[i], dash_mode));
            } else {
                let i = strokes.len() - 1;
                assert(strokes[i] == strokes.last());
                assert(strokes[i].len() >= 2 && r[k] == stroke_paint(strokes[i], dash_mode));
            }
        }
        if forall|i: int| 0 <= i < strokes.len() ==> (#[trigger] strokes[i]).len() < 2 {
            assert(strokes.last() == strokes[strokes.len() - 1]);
            assert(forall|i: int| 0 <= i < prefix.len() ==> (#[trigger] prefix[i]).len() < 2) by {
                assert(forall|i: int| 0 <= i < prefix.len() ==> prefix[i] == #[trigger] strokes[i]);
            }
            assert(r =~= Seq::<PaintSpec>::empty());
        }
    }
}

/// A frame's draw-call count: one call per static shape plus one per
/// stroke that carries a visible segment, whatever the dash mode.
pub proof fn lemma_frame_call_count(m: Model, w: int)
    ensures
        spec_render(m, w).len() == m.statics.len() + drawable_count(m.strokes),
{
    lemma_short_strokes_not_rendered(m.strokes, m.dash);
}

/// One full drag — pointer down, two moves, pointer up — appends exactly
/// one stroke holding the pressed point followed by the two effective
/// points, each snapped relative to the origin recorded at pointer down.
pub proof fn lemma_drag_records_effective_points(
    m: Model,
    p0: Point,
    p1: Point,
    s1: bool,
    p2: Point,
    s2: bool,
)
    requires
        !m.dragging,
    ensures
        ({
            let mf = spec_pointer_up(
                spec_pointer_move(spec_pointer_move(spec_pointer_down(m, p0), p1, s1), p2, s2),
            );
            &&& mf.strokes == m.strokes.push(seq![p0, snapped(p0, p1, s1), snapped(p0, p2, s2)])
            &&& !mf.dragging
            &&& !mf.stroke_active
            &&& mf.statics == m.statics
            &&& mf.dash == m.dash
        }),
{
    let m0 = spec_pointer_down(m, p0);
    let m1 = spec_pointer_move(m0, p1, s1);
    let m2 = spec_pointer_move(m1, p2, s2);
    let e1 = snapped(p0, p1, s1);
    let e2 = snapped(p0, p2, s2);
    assert(m0.strokes == m.strokes.push(seq![p0]));
    assert(m1.strokes =~~= m.strokes.push(seq![p0, e1]));
    assert(m2.strokes =~~= m.strokes.push(seq![p0, e1, e2]));
}

/// Clearing is idempotent: a second clear yields the very same empty
/// state, and a clear never touches the static shapes.
pub proof fn lemma_clear_idempotent(m: Model)
    ensures
        spec_clear(spec_clear(m)) == spec_clear(m),
        spec_clear(m).statics == m.statics,
        spec_clear(m).strokes == Seq::<Seq<Point>>::empty(),
        !spec_clear(m).dragging,
{
}

/// Rendering at the design width reproduces the exact authored
/// coordinates of every static shape.
pub proof fn lemma_scale_identity_frame(statics: Seq<PaintSpec>)
    ensures
        scaled_statics(statics, DESIGN_WIDTH as int) == statics,
{
    assert forall|k: int| 0 <= k < statics.len() implies scaled_statics(
        statics,
        DESIGN_WIDTH as int,
    )[k] == statics[k] by {
        let s = statics[k];
        assert forall|i: int| 0 <= i < s.commands.len() implies scale_cmds(
            s.commands,
            DESIGN_WIDTH as int,
            DESIGN_WIDTH as int,
        )[i] == s.commands[i] by {
            lemma_scale_cmd_identity(s.commands[i]);
        }
        assert(scale_cmds(s.commands, DESIGN_WIDTH as int, DESIGN_WIDTH as int) =~= s.commands);
        assert(scaled_paint(s, DESIGN_WIDTH as int) =~= s);
    }
    assert(scaled_statics(statics, DESIGN_WIDTH as int) =~= statics);
}

proof fn lemma_scale_pt_identity(p: Point)
    ensures
        scale_pt(p, DESIGN_WIDTH as int, DESIGN_WIDTH as int) == p,
{
    lemma_scale_c_multiple(p.x as int, 1, DESIGN_WIDTH as int);
    lemma_scale_c_multiple(p.y as int, 1, DESIGN_WIDTH as int);
}

proof fn lemma_scale_cmd_identity(cmd: PathCommand)
    ensures
        scale_cmds(seq![cmd], DESIGN_WIDTH as int, DESIGN_WIDTH as int)[0] == cmd,
{
    match cmd {
        PathCommand::MoveTo(p) => lemma_scale_pt_identity(p),
        PathCommand::LineTo(p) => lemma_scale_pt_identity(p),
        PathCommand::CurveTo { ctrl, to } => {
            lemma_scale_pt_identity(ctrl);
            lemma_scale_pt_identity(to);
        },
        PathCommand::ArcTo { radii, to, .. } => {
            lemma_scale_pt_identity(radii);
            lemma_scale_pt_identity(to);
        },
        PathCommand::Close => {},
    }
}

/// At twice the design width every rendered static coordinate is exactly
/// doubled relative to its own origin.
pub proof fn lemma_scale_doubles_frame(statics: Seq<PaintSpec>)
    requires
        statics_bounded(statics),
    ensures
        scaled_statics(statics, 2 * (DESIGN_WIDTH as int)) == statics.map_values(
            |s: PaintSpec| (PaintSpec { commands: scale_cmds(s.commands, 2, 1), style: s.style }),
        ),
        forall|p: Point| pt_small(p) ==> scale_pt(p, 2, 1) == (Point {
            x: (2 * p.x) as i32,
            y: (2 * p.y) as i32,
        }),
{
    assert forall|p: Point| pt_small(p) implies scale_pt(p, 2, 1) == (Point {
        x: (2 * p.x) as i32,
        y: (2 * p.y) as i32,
    }) by {
        lemma_scale_c_multiple(p.x as int, 2, 1);
        lemma_scale_c_multiple(p.y as int, 2, 1);
    }
    let w2 = 2 * (DESIGN_WIDTH as int);
    assert forall|k: int| 0 <= k < statics.len() implies scaled_statics(statics, w2)[k]
        == (PaintSpec {
        commands: scale_cmds(statics[k].commands, 2, 1),
        style: statics[k].style,
    }) by {
        let s = statics[k];
        assert forall|i: int| 0 <= i < s.commands.len() implies scale_cmds(s.commands, w2, 1024)[i]
            == scale_cmds(s.commands, 2, 1)[i] by {
            lemma_scale_cmd_double(s.commands[i]);
        }
        assert(scale_cmds(s.commands, w2, 1024) =~= scale_cmds(s.commands, 2, 1));
        assert(scaled_paint(s, w2) =~= (PaintSpec {
            commands: scale_cmds(s.commands, 2, 1),
            style: s.style,
        }));
    }
    assert(scaled_statics(statics, w2) =~= statics.map_values(
        |s: PaintSpec| (PaintSpec { commands: scale_cmds(s.commands, 2, 1), style: s.style }),
    ));
}

/// A coordinate pair small enough that doubling stays in range.
pub open spec fn pt_small(p: Point) -> bool {
    -1000000000 <= p.x <= 1000000000 && -1000000000 <= p.y <= 1000000000
}

proof fn lemma_scale_pt_double(p: Point)
    ensures
        scale_pt(p, 2 * (DESIGN_WIDTH as int), DESIGN_WIDTH as int) == scale_pt(p, 2, 1),
{
    lemma_scale_c_multiple(p.x as int, 2, DESIGN_WIDTH as int);
    lemma_scale_c_multiple(p.y as int, 2, DESIGN_WIDTH as int);
    lemma_scale_c_multiple(p.x as int, 2, 1);
    lemma_scale_c_multiple(p.y as int, 2, 1);
}

proof fn lemma_scale_cmd_double(cmd: PathCommand)
    ensures
        scale_cmds(seq![cmd], 2 * (DESIGN_WIDTH as int), DESIGN_WIDTH as int)[0] == scale_cmds(
            seq![cmd],
            2,
            1,
        )[0],
{
    match cmd {
        PathCommand::MoveTo(p) => lemma_scale_pt_double(p),
        PathCommand::LineTo(p) => lemma_scale_pt_double(p),
        PathCommand::CurveTo { ctrl, to } => {
            lemma_scale_pt_double(ctrl);
            lemma_scale_pt_double(to);
        },
        PathCommand::ArcTo { radii, to, .. } => {
            lemma_scale_pt_double(radii);
            lemma_scale_pt_double(to);
        },
        PathCommand::Close => {},
    }
}

/// The strokes' draw calls differ between two dash settings only in the
/// stroke style: same count, same geometry, the respective fixed style.
pub proof fn lemma_rendered_strokes_style_only(strokes: Seq<Seq<Point>>, d1: bool, d2: bool)
    ensures
        rendered_strokes(strokes, d1).len() == rendered_strokes(strokes, d2).len(),
        forall|k: int| 0 <= k < rendered_strokes(strokes, d1).len() ==> {
            &&& (#[trigger] rendered_strokes(strokes, d1)[k]).commands == rendered_strokes(
                strokes,
                d2,
            )[k].commands
            &&& rendered_strokes(strokes, d1)[k].style == stroke_style(d1)
            &&& rendered_strokes(strokes, d2)[k].style == stroke_style(d2)
        },
    decreases strokes.len(),
{
    if strokes.len() > 0 {
        lemma_rendered_strokes_style_only(strokes.drop_last(), d1, d2);
    }
}

/// Toggling dash mode changes only the stroke style applied to freehand
/// strokes at the next frame: no stored point moves, the static shapes'
/// draw calls are identical, and each stroke's geometry is unchanged.
pub proof fn lemma_toggle_dash_render(m: Model, w: int)
    ensures
        spec_toggle_dash(m).strokes == m.strokes,
        spec_toggle_dash(m).statics == m.statics,
        spec_toggle_dash(m).dash == !m.dash,
        spec_render(spec_toggle_dash(m), w).len() == spec_render(m, w).len(),
        forall|k: int| 0 <= k < scaled_statics(m.statics, w).len() ==> #[trigger] spec_render(
            spec_toggle_dash(m),
            w,
        )[k] == spec_render(m, w)[k],
        forall|k: int|
            scaled_statics(m.statics, w).len() <= k < spec_render(m, w).len() ==> {
                &&& (#[trigger] spec_render(spec_toggle_dash(m), w)[k]).commands == spec_render(
                    m,
                    w,
                )[k].commands
                &&& spec_render(spec_toggle_dash(m), w)[k].style == stroke_style(!m.dash)
                &&& spec_render(m, w)[k].style == stroke_style(m.dash)
            },
{
    lemma_rendered_strokes_style_only(m.strokes, !m.dash, m.dash);
}

} // verus!
