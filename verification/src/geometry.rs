//! Points, path commands, finalized paths, and the uniform transforms
//! (translation and rational scaling) applied to them.

use vstd::arithmetic::div_mod::{
    lemma_div_is_ordered, lemma_div_multiples_vanish, lemma_div_pos_is_pos,
};
use vstd::prelude::*;

verus! {

/// A 2D coordinate in logical (unscaled) units. Value type, no identity.
#[derive(Clone, Copy, PartialEq, Eq, Structural, Debug)]
pub struct Point {
    pub x: i32,
    pub y: i32,
}

/// Largest coordinate magnitude a scalable (static-shape) path may hold:
/// keeps every product `coordinate * window_width` inside 64 bits and every
/// scaled coordinate inside 32 bits.
pub const MAX_COORD: i32 = 1048576;

/// Largest window width the render procedure accepts, in pixels.
pub const MAX_WINDOW_WIDTH: u32 = 1048576;

/// One step of a vector path: the plain ordered command list that a
/// finalized path is made of.
#[derive(Clone, Copy, PartialEq, Eq, Structural, Debug)]
pub enum PathCommand {
    MoveTo(Point),
    LineTo(Point),
    /// A curved side bending toward a single control point.
    CurveTo { ctrl: Point, to: Point },
    /// A circular or elliptical arc in the usual vector-graphics form:
    /// radii, rotation of the x axis, the two arc-choice flags, endpoint.
    ArcTo { radii: Point, x_rotation: i32, large_arc: bool, sweep: bool, to: Point },
    Close,
}

/// The one failure class of this core: a command list that cannot be
/// finalized into a drawable path.
#[derive(Clone, Copy, PartialEq, Eq, Structural, Debug)]
pub enum PathError {
    InsufficientGeometry,
}

/// A finalized, immutable vector path: an ordered command list that
/// `build_path` accepted as drawable.
#[derive(Debug)]
pub struct Path {
    pub commands: Vec<PathCommand>,
}

impl View for Path {
    type V = Seq<PathCommand>;

    open spec fn view(&self) -> Seq<PathCommand> {
        self.commands@
    }
}

pub open spec fn is_segment(cmd: PathCommand) -> bool {
    match cmd {
        PathCommand::LineTo(_) => true,
        PathCommand::CurveTo { .. } => true,
        PathCommand::ArcTo { .. } => true,
        PathCommand::MoveTo(_) => false,
        PathCommand::Close => false,
    }
}

/// A command list can be finalized exactly when it starts from a point and
/// then draws at least one segment.
pub open spec fn is_drawable(cmds: Seq<PathCommand>) -> bool {
    &&& cmds.len() >= 2
    &&& cmds[0] is MoveTo
    &&& exists|i: int| 1 <= i < cmds.len() && is_segment(#[trigger] cmds[i])
}

fn is_segment_exec(cmd: &PathCommand) -> (r: bool)
    ensures
        r == is_segment(*cmd),
{
    match cmd {
        PathCommand::LineTo(_) => true,
        PathCommand::CurveTo { .. } => true,
        PathCommand::ArcTo { .. } => true,
        PathCommand::MoveTo(_) => false,
        PathCommand::Close => false,
    }
}

/// Consumes a plain ordered command list and produces either a finalized
/// path or a structured "insufficient geometry" outcome. Degenerate input
/// (such as a stroke collapsed to a single point) is an `Err`, never a
/// panic.
pub fn build_path(commands: Vec<PathCommand>) -> (r: Result<Path, PathError>)
    ensures
        match r {
            Ok(p) => is_drawable(commands@) && p@ == commands@,
            Err(e) => !is_drawable(commands@) && e == PathError::InsufficientGeometry,
        },
{
    if commands.len() < 2 {
        return Err(PathError::InsufficientGeometry);
    }
    let starts_with_move = matches!(commands[0], PathCommand::MoveTo(_));
    if !starts_with_move {
        return Err(PathError::InsufficientGeometry);
    }
    let mut i: usize = 1;
    while i < commands.len()
        invariant
            1 <= i <= commands@.len(),
            commands@.len() >= 2,
            commands@[0] is MoveTo,
            forall|j: int| 1 <= j < i ==> !is_segment(#[trigger] commands@[j]),
        decreases commands@.len() - i,
    {
        if is_segment_exec(&commands[i]) {
            return Ok(Path { commands });
        }
        i = i + 1;
    }
    Err(PathError::InsufficientGeometry)
}

/// The polygon convenience input: a command list visiting the given
/// vertices in order, optionally closed back onto the first.
pub open spec fn polygon_cmds(points: Seq<Point>, closed: bool) -> Seq<PathCommand> {
    if points.len() == 0 {
        Seq::empty()
    } else {
        Seq::new(
            points.len(),
            |i: int|
                if i == 0 {
                    PathCommand::MoveTo(points[0])
                } else {
                    PathCommand::LineTo(points[i])
                },
        ) + (if closed {
            seq![PathCommand::Close]
        } else {
            Seq::<PathCommand>::empty()
        })
    }
}

/// Builds the polygon command list through the given vertices.
pub fn polygon_commands(points: &Vec<Point>, closed: bool) -> (r: Vec<PathCommand>)
    ensures
        r@ == polygon_cmds(points@, closed),
{
    let mut r: Vec<PathCommand> = Vec::new();
    if points.len() == 0 {
        proof {
            assert(r@ =~= polygon_cmds(points@, closed));
        }
        return r;
    }
    let mut i: usize = 0;
    while i < points.len()
        invariant
            0 <= i <= points@.len(),
            r@.len() == i,
            forall|t: int| 0 <= t < i ==> #[trigger] r@[t] == (if t == 0 {
                PathCommand::MoveTo(points@[0])
            } else {
                PathCommand::LineTo(points@[t])
            }),
        decreases points@.len() - i,
    {
        let p = points[i];
        if i == 0 {
            r.push(PathCommand::MoveTo(p));
        } else {
            r.push(PathCommand::LineTo(p));
        }
        i = i + 1;
    }
    if closed {
        r.push(PathCommand::Close);
    }
    proof {
        assert(r@ =~= polygon_cmds(points@, closed));
    }
    r
}

pub open spec fn pt_bounded(p: Point, lo: int, hi: int) -> bool {
    lo <= p.x <= hi && lo <= p.y <= hi
}

pub open spec fn cmd_bounded(cmd: PathCommand, lo: int, hi: int) -> bool {
    match cmd {
        PathCommand::MoveTo(p) => pt_bounded(p, lo, hi),
        PathCommand::LineTo(p) => pt_bounded(p, lo, hi),
        PathCommand::CurveTo { ctrl, to } => pt_bounded(ctrl, lo, hi) && pt_bounded(to, lo, hi),
        PathCommand::ArcTo { radii, to, .. } => pt_bounded(radii, lo, hi) && pt_bounded(to, lo, hi),
        PathCommand::Close => true,
    }
}

pub open spec fn cmds_bounded(cmds: Seq<PathCommand>, lo: int, hi: int) -> bool {
    forall|i: int| 0 <= i < cmds.len() ==> cmd_bounded(#[trigger] cmds[i], lo, hi)
}

pub open spec fn translate_pt(p: Point, dx: int, dy: int) -> Point {
    Point { x: (p.x + dx) as i32, y: (p.y + dy) as i32 }
}

pub open spec fn translate_cmd(cmd: PathCommand, dx: int, dy: int) -> PathCommand {
    match cmd {
        PathCommand::MoveTo(p) => PathCommand::MoveTo(translate_pt(p, dx, dy)),
        PathCommand::LineTo(p) => PathCommand::LineTo(translate_pt(p, dx, dy)),
        PathCommand::CurveTo { ctrl, to } => PathCommand::CurveTo {
            ctrl: translate_pt(ctrl, dx, dy),
            to: translate_pt(to, dx, dy),
        },
        PathCommand::ArcTo { radii, x_rotation, large_arc, sweep, to } => PathCommand::ArcTo {
            radii,
            x_rotation,
            large_arc,
            sweep,
            to: translate_pt(to, dx, dy),
        },
        PathCommand::Close => PathCommand::Close,
    }
}

pub open spec fn translate_cmds(cmds: Seq<PathCommand>, dx: int, dy: int) -> Seq<PathCommand> {
    cmds.map_values(|c: PathCommand| translate_cmd(c, dx, dy))
}

/// A coordinate under the uniform rational scale `num / den`, rounded
/// toward zero.
pub open spec fn scale_c(c: int, num: int, den: int) -> int {
    c * num / den
}

pub open spec fn scale_pt(p: Point, num: int, den: int) -> Point {
    Point { x: scale_c(p.x as int, num, den) as i32, y: scale_c(p.y as int, num, den) as i32 }
}

pub open spec fn scale_cmd(cmd: PathCommand, num: int, den: int) -> PathCommand {
    match cmd {
        PathCommand::MoveTo(p) => PathCommand::MoveTo(scale_pt(p, num, den)),
        PathCommand::LineTo(p) => PathCommand::LineTo(scale_pt(p, num, den)),
        PathCommand::CurveTo { ctrl, to } => PathCommand::CurveTo {
            ctrl: scale_pt(ctrl, num, den),
            to: scale_pt(to, num, den),
        },
        PathCommand::ArcTo { radii, x_rotation, large_arc, sweep, to } => PathCommand::ArcTo {
            radii: scale_pt(radii, num, den),
            x_rotation,
            large_arc,
            sweep,
            to: scale_pt(to, num, den),
        },
        PathCommand::Close => PathCommand::Close,
    }
}

pub open spec fn scale_cmds(cmds: Seq<PathCommand>, num: int, den: int) -> Seq<PathCommand> {
    cmds.map_values(|c: PathCommand| scale_cmd(c, num, den))
}

/// A scale factor of at most `k` keeps a nonnegative coordinate under `k`
/// times its old value, and never below zero.
pub proof fn lemma_scale_c_bound(c: int, num: int, den: int, k: int)
    requires
        0 <= c,
        0 <= num,
        0 < den,
        0 <= k,
        num <= k * den,
    ensures
        0 <= scale_c(c, num, den) <= k * c,
{
    assert(0 <= c * num) by (nonlinear_arith)
        requires
            0 <= c,
            0 <= num,
    ;
    assert(c * num <= den * (k * c)) by (nonlinear_arith)
        requires
            0 <= c,
            0 < den,
            num <= k * den,
    ;
    lemma_div_pos_is_pos(c * num, den);
    lemma_div_is_ordered(c * num, den * (k * c), den);
    lemma_div_multiples_vanish(k * c, den);
}

/// Scaling by the whole number `m` (given as the ratio `m * den / den`)
/// multiplies a coordinate exactly by `m`.
pub proof fn lemma_scale_c_multiple(c: int, m: int, den: int)
    requires
        0 < den,
    ensures
        scale_c(c, m * den, den) == m * c,
{
    assert(c * (m * den) == den * (m * c)) by (nonlinear_arith);
    lemma_div_multiples_vanish(m * c, den);
}

/// A scale factor of at most one keeps every coordinate of a command list
/// inside the bound it already obeyed.
pub proof fn lemma_scale_cmds_bounded(cmds: Seq<PathCommand>, num: int, den: int)
    requires
        0 < den,
        0 <= num <= den,
        cmds_bounded(cmds, 0, MAX_COORD as int),
    ensures
        cmds_bounded(scale_cmds(cmds, num, den), 0, MAX_COORD as int),
{
    let scaled = scale_cmds(cmds, num, den);
    assert forall|i: int| 0 <= i < scaled.len() implies cmd_bounded(
        #[trigger] scaled[i],
        0,
        MAX_COORD as int,
    ) by {
        assert(cmd_bounded(cmds[i], 0, MAX_COORD as int));
        match cmds[i] {
            PathCommand::MoveTo(p) => {
                lemma_scale_pt_bounded(p, num, den);
            },
            PathCommand::LineTo(p) => {
                lemma_scale_pt_bounded(p, num, den);
            },
            PathCommand::CurveTo { ctrl, to } => {
                lemma_scale_pt_bounded(ctrl, num, den);
                lemma_scale_pt_bounded(to, num, den);
            },
            PathCommand::ArcTo { radii, to, .. } => {
                lemma_scale_pt_bounded(radii, num, den);
                lemma_scale_pt_bounded(to, num, den);
            },
            PathCommand::Close => {},
        }
    }
}

proof fn lemma_scale_pt_bounded(p: Point, num: int, den: int)
    requires
        0 < den,
        0 <= num <= den,
        pt_bounded(p, 0, MAX_COORD as int),
    ensures
        pt_bounded(scale_pt(p, num, den), 0, MAX_COORD as int),
{
    lemma_scale_c_bound(p.x as int, num, den, 1);
    lemma_scale_c_bound(p.y as int, num, den, 1);
}

/// The whole command list under the translation `(dx, dy)`. The bounds keep
/// every shifted coordinate inside the scalable range.
pub fn translate_commands(cmds: &Vec<PathCommand>, dx: i32, dy: i32) -> (r: Vec<PathCommand>)
    requires
        0 <= dx <= 524288,
        0 <= dy <= 524288,
        cmds_bounded(cmds@, 0, 524288),
    ensures
        r@ == translate_cmds(cmds@, dx as int, dy as int),
        cmds_bounded(r@, 0, MAX_COORD as int),
{
    let mut r: Vec<PathCommand> = Vec::new();
    let mut i: usize = 0;
    while i < cmds.len()
        invariant
            0 <= i <= cmds@.len(),
            0 <= dx <= 524288,
            0 <= dy <= 524288,
            cmds_bounded(cmds@, 0, 524288),
            r@ == translate_cmds(cmds@.take(i as int), dx as int, dy as int),
            cmds_bounded(r@, 0, MAX_COORD as int),
        decreases cmds@.len() - i,
    {
        assert(cmd_bounded(cmds@[i as int], 0, 524288));
        let c = match cmds[i] {
            PathCommand::MoveTo(p) => PathCommand::MoveTo(
                Point { x: p.x + dx, y: p.y + dy },
            ),
            PathCommand::LineTo(p) => PathCommand::LineTo(
                Point { x: p.x + dx, y: p.y + dy },
            ),
            PathCommand::CurveTo { ctrl, to } => PathCommand::CurveTo {
                ctrl: Point { x: ctrl.x + dx, y: ctrl.y + dy },
                to: Point { x: to.x + dx, y: to.y + dy },
            },
            PathCommand::ArcTo { radii, x_rotation, large_arc, sweep, to } => PathCommand::ArcTo {
                radii,
                x_rotation,
                large_arc,
                sweep,
                to: Point { x: to.x + dx, y: to.y + dy },
            },
            PathCommand::Close => PathCommand::Close,
        };
        r.push(c);
        proof {
            assert(cmds@.take(i + 1).drop_last() =~= cmds@.take(i as int));
            assert(r@ =~= translate_cmds(cmds@.take(i + 1), dx as int, dy as int));
        }
        i = i + 1;
    }
    proof {
        assert(cmds@.take(cmds@.len() as int) =~= cmds@);
    }
    r
}

/// The whole command list under the uniform rational scale `num / den`.
pub fn scale_commands(cmds: &Vec<PathCommand>, num: u32, den: u32) -> (r: Vec<PathCommand>)
    requires
        0 < den,
        num <= 1024 * (den as int),
        cmds_bounded(cmds@, 0, MAX_COORD as int),
    ensures
        r@ == scale_cmds(cmds@, num as int, den as int),
        num <= den ==> cmds_bounded(r@, 0, MAX_COORD as int),
{
    let mut r: Vec<PathCommand> = Vec::new();
    let mut i: usize = 0;
    while i < cmds.len()
        invariant
            0 <= i <= cmds@.len(),
            0 < den,
            num <= 1024 * (den as int),
            cmds_bounded(cmds@, 0, MAX_COORD as int),
            r@ == scale_cmds(cmds@.take(i as int), num as int, den as int),
        decreases cmds@.len() - i,
    {
        assert(cmd_bounded(cmds@[i as int], 0, MAX_COORD as int));
        let c = match cmds[i] {
            PathCommand::MoveTo(p) => PathCommand::MoveTo(scale_point(p, num, den)),
            PathCommand::LineTo(p) => PathCommand::LineTo(scale_point(p, num, den)),
            PathCommand::CurveTo { ctrl, to } => PathCommand::CurveTo {
                ctrl: scale_point(ctrl, num, den),
                to: scale_point(to, num, den),
            },
            PathCommand::ArcTo { radii, x_rotation, large_arc, sweep, to } => PathCommand::ArcTo {
                radii: scale_point(radii, num, den),
                x_rotation,
                large_arc,
                sweep,
                to: scale_point(to, num, den),
            },
            PathCommand::Close => PathCommand::Close,
        };
        r.push(c);
        proof {
            assert(cmds@.take(i + 1).drop_last() =~= cmds@.take(i as int));
            assert(r@ =~= scale_cmds(cmds@.take(i + 1), num as int, den as int));
        }
        i = i + 1;
    }
    proof {
        assert(cmds@.take(cmds@.len() as int) =~= cmds@);
        if num <= den {
            lemma_scale_cmds_bounded(cmds@, num as int, den as int);
        }
    }
    r
}

/// One coordinate pair under the uniform rational scale `num / den`.
/// Callers keep the inputs inside the stated ranges, so the 64-bit products
/// cannot overflow and the result fits its 32 bits.
pub fn scale_point(p: Point, num: u32, den: u32) -> (r: Point)
    requires
        0 < den,
        num <= 1024 * (den as int),
        pt_bounded(p, 0, MAX_COORD as int),
    ensures
        r == scale_pt(p, num as int, den as int),
        pt_bounded(r, 0, 1024 * (MAX_COORD as int)),
{
    proof {
        lemma_scale_c_bound(p.x as int, num as int, den as int, 1024);
        lemma_scale_c_bound(p.y as int, num as int, den as int, 1024);
        assert((p.x as int) * (num as int) <= 1048576 * 0xffff_ffff) by (nonlinear_arith)
            requires
                0 <= p.x as int <= 1048576,
                0 <= num as int <= 0xffff_ffff,
        ;
        assert((p.y as int) * (num as int) <= 1048576 * 0xffff_ffff) by (nonlinear_arith)
            requires
                0 <= p.y as int <= 1048576,
                0 <= num as int <= 0xffff_ffff,
        ;
    }
    let x = ((p.x as u64) * (num as u64) / (den as u64)) as i32;
    let y = ((p.y as u64) * (num as u64) / (den as u64)) as i32;
    Point { x, y }
}

} // verus!
