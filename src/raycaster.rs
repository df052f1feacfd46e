//! The ray casting algorithm: a grid-aligned DDA over the cells of the live
//! map, in exact fixed-point arithmetic.
use vstd::prelude::*;
use crate::mapcell::{MapCell, Actor, CellState, ONE};
use crate::{UNIT, lemma_mul_bound};

verus! {

/// Texture used for the jambs beside a door.
pub const TEXIDX_DOOR_EDGES: usize = 100;
/// Distance reported when a ray hits nothing.
pub const FAR_AWAY: i64 = 65536000000;
/// A direction component at most this large (0.001) counts as parallel to the axis.
pub const EPSILON: i64 = 66;
/// Rays start this far (-0.375) along the facing direction, behind the player.
pub const VIEW_OFFSET: i64 = -24576;
/// Largest coordinate of a ray origin (in fixed-point).
pub const MAX_COORD: i64 = 68719476736;

/// A cell that some ray went through, for drawing sprites far to near.
/// `dist` is the distance of the cell's center along the facing direction
/// (fisheye-corrected); `side` is its distance across it; both fixed-point.
#[derive(Clone, Copy, PartialEq, Eq, Structural, Debug)]
pub struct TraversedCell {
    pub idx: usize,
    pub dist: i64,
    pub side: i64,
}

/// One of the two 1-D steppers of a ray: `dir` is the step on its axis
/// (0 when the ray is parallel to the other axis), `num` how far along the
/// axis the next grid line is, `speed` the absolute direction component on
/// the axis. A stepper reaches its next line at ray parameter `num / speed`.
#[derive(Clone, Copy, PartialEq, Eq, Structural, Debug)]
pub struct Stepper {
    pub dir: i64,
    pub num: i64,
    pub speed: i64,
}

/// A ray: its origin and direction, fixed-point.
#[derive(Clone, Copy, PartialEq, Eq, Structural, Debug)]
pub struct Beam {
    pub ox: i64,
    pub oy: i64,
    pub dx: i64,
    pub dy: i64,
}

/// Outcome of testing one cell against a stepper.
#[derive(Clone, Copy, PartialEq, Eq, Structural, Debug)]
pub enum Probe {
    Miss,
    /// The ray stops `num` along the stepper's axis; `flip` mirrors the texture coordinate.
    Hit { num: i64, texture: usize, door_prog: i64, flip: bool },
}

/// Position of the DDA: the current cell and both steppers.
#[derive(Clone, Copy, PartialEq, Eq, Structural, Debug)]
pub struct Trace {
    pub mx: i64,
    pub my: i64,
    pub rx: Stepper,
    pub ry: Stepper,
}

pub open spec fn beam_ok(b: Beam) -> bool {
    -MAX_COORD <= b.ox <= MAX_COORD && -MAX_COORD <= b.oy <= MAX_COORD && -UNIT <= b.dx <= UNIT
        && -UNIT <= b.dy <= UNIT
}

pub open spec fn grid_ok(cells: Seq<MapCell>, w: int, h: int) -> bool {
    0 < w <= 65535 && 0 < h <= 65535 && cells.len() == w * h
}

pub open spec fn in_grid(w: int, h: int, x: int, y: int) -> bool {
    0 <= x < w && 0 <= y < h
}

/// The stepper of one axis, for origin coordinate `o` and direction component `d`.
pub open spec fn init_stepper(o: i64, d: i64) -> Stepper {
    let f = (o as int) / (UNIT as int);
    if d > EPSILON {
        Stepper { dir: 1, num: ((f + 1) * UNIT - o) as i64, speed: d }
    } else if d < -EPSILON {
        Stepper { dir: -1i64, num: (o - f * UNIT) as i64, speed: (-d) as i64 }
    } else {
        Stepper { dir: 0, num: 0, speed: 0 }
    }
}

/// Whether stepper `a` reaches its next grid line strictly before `b`.
pub open spec fn before(a: Stepper, b: Stepper) -> bool {
    a.dir != 0 && (b.dir == 0 || a.num * b.speed < b.num * a.speed)
}

/// Whether the point `num` along the axis of a stepper of speed `speed`
/// comes no later than the next grid line of `b`.
pub open spec fn not_after(num: int, speed: int, b: Stepper) -> bool {
    b.dir == 0 || num * b.speed <= b.num * speed
}

/// Tests the cell a stepper has just entered. `by_x` tells the X stepper
/// (dark textures, vertical doors) from the Y stepper; `along` and `d_other`
/// are the origin coordinate and direction component on the other axis.
pub open spec fn spec_probe(
    cell: MapCell,
    a: Stepper,
    b: Stepper,
    along: i64,
    d_other: i64,
    by_x: bool,
    from_door: bool,
) -> Probe {
    let prog = cell.spec_get_progress() as int;
    let dark: int = if by_x { 1 } else { 0 };
    let flip = if by_x { a.dir < 0 } else { a.dir > 0 };
    if cell.push_wall && prog < ONE {
        let t = a.num + (UNIT - prog);
        if not_after(t, a.speed as int, b) {
            Probe::Hit {
                num: t as i64,
                texture: (cell.spec_get_texture() + dark) as usize,
                door_prog: 0,
                flip,
            }
        } else {
            Probe::Miss
        }
    } else if cell.wall {
        Probe::Hit {
            num: a.num,
            texture: if from_door {
                TEXIDX_DOOR_EDGES
            } else {
                (cell.spec_get_texture() + dark) as usize
            },
            door_prog: 0,
            flip,
        }
    } else if (by_x && cell.spec_is_vert_door()) || (!by_x && cell.spec_is_horiz_door()) {
        let t = a.num + UNIT / 2;
        if not_after(t, a.speed as int, b) && (along + (t * d_other) / (a.speed as int)) % (UNIT as int) >= prog {
            Probe::Hit {
                num: t as i64,
                texture: cell.spec_get_texture(),
                door_prog: prog as i64,
                flip: false,
            }
        } else {
            Probe::Miss
        }
    } else {
        Probe::Miss
    }
}

pub open spec fn cell_index(w: int, x: int, y: int) -> int {
    y * w + x
}

pub open spec fn is_door_at(cells: Seq<MapCell>, w: int, h: int, x: int, y: int) -> bool {
    in_grid(w, h, x, y) && cells[cell_index(w, x, y)].spec_is_door()
}

/// One DDA step from `t`: `Ok` with the hit (its stepper, and whether it is
/// the X one), or `Err` with the position after a miss.
pub open spec fn step(beam: Beam, cells: Seq<MapCell>, w: int, h: int, t: Trace) -> Result<
    (bool, Probe, Stepper),
    Trace,
> {
    let from_door = is_door_at(cells, w, h, t.mx as int, t.my as int);
    if before(t.rx, t.ry) {
        let nx = t.mx as int + t.rx.dir as int;
        let p = if in_grid(w, h, nx, t.my as int) {
            spec_probe(cells[cell_index(w, nx, t.my as int)], t.rx, t.ry, beam.oy, beam.dy, true, from_door)
        } else {
            Probe::Miss
        };
        if p is Hit {
            Ok((true, p, t.rx))
        } else {
            Err(Trace { mx: nx as i64, rx: Stepper { num: (t.rx.num + UNIT) as i64, ..t.rx }, ..t })
        }
    } else {
        let ny = t.my as int + t.ry.dir as int;
        let p = if in_grid(w, h, t.mx as int, ny) {
            spec_probe(cells[cell_index(w, t.mx as int, ny)], t.ry, t.rx, beam.ox, beam.dx, false, from_door)
        } else {
            Probe::Miss
        };
        if p is Hit {
            Ok((false, p, t.ry))
        } else {
            Err(Trace { my: ny as i64, ry: Stepper { num: (t.ry.num + UNIT) as i64, ..t.ry }, ..t })
        }
    }
}

/// Whether a stepper's next grid line lies at or beyond `FAR_AWAY` (or never comes).
pub open spec fn far(s: Stepper) -> bool {
    s.dir == 0 || s.num * UNIT >= FAR_AWAY * s.speed
}

/// Runs the DDA for at most `steps` steps, and while either stepper's next
/// line is nearer than `FAR_AWAY`; `None` when nothing was hit.
pub open spec fn march(beam: Beam, cells: Seq<MapCell>, w: int, h: int, t: Trace, steps: nat) -> Option<
    (bool, Probe, Stepper),
>
    decreases steps,
{
    if steps == 0 || (far(t.rx) && far(t.ry)) {
        None
    } else {
        match step(beam, cells, w, h, t) {
            Ok(hit) => Some(hit),
            Err(next) => march(beam, cells, w, h, next, (steps - 1) as nat),
        }
    }
}

/// Where a ray starts: the cell of its origin and the two steppers.
pub open spec fn start_trace(beam: Beam) -> Trace {
    Trace {
        mx: ((beam.ox as int) / (UNIT as int)) as i64,
        my: ((beam.oy as int) / (UNIT as int)) as i64,
        rx: init_stepper(beam.ox, beam.dx),
        ry: init_stepper(beam.oy, beam.dy),
    }
}

pub open spec fn max_steps(w: int, h: int) -> nat {
    (2 * if w > h {
        w
    } else {
        h
    }) as nat
}

/// `(distance, texture, texture_u)` of a hit: the distance is the ray
/// parameter in tiles (fixed-point); `texture_u` is the offset of the hit
/// point within the face, minus the door's opening. A hit at `FAR_AWAY` or
/// beyond counts as none.
pub open spec fn finish(beam: Beam, by_x: bool, p: Probe, s: Stepper) -> (i64, usize, i64) {
    match p {
        Probe::Hit { num, texture, door_prog, flip } => {
            let pos = if by_x {
                beam.oy + (num * beam.dy) / (s.speed as int)
            } else {
                beam.ox + (num * beam.dx) / (s.speed as int)
            };
            let frac = pos % (UNIT as int);
            let u = if !flip {
                frac
            } else if frac == 0 {
                0
            } else {
                UNIT - frac
            };
            let dist = (num * UNIT) / (s.speed as int);
            if dist >= FAR_AWAY {
                (FAR_AWAY, 0, 0)
            } else {
                (dist as i64, texture, (u - door_prog as int) as i64)
            }
        },
        Probe::Miss => (FAR_AWAY, 0, 0),
    }
}

/// What a ray cast returns: the first hit within the step bound, or
/// `(FAR_AWAY, 0, 0)`.
pub open spec fn spec_cast(beam: Beam, cells: Seq<MapCell>, w: int, h: int) -> (i64, usize, i64) {
    match march(beam, cells, w, h, start_trace(beam), max_steps(w, h)) {
        Some((by_x, p, s)) => finish(beam, by_x, p, s),
        None => (FAR_AWAY, 0, 0),
    }
}

/// The record of a traversed cell, for origin `(ox, oy)` and facing `(fx, fy)`.
pub open spec fn traversed(w: int, x: int, y: int, ox: i64, oy: i64, fx: i64, fy: i64) -> TraversedCell {
    let ddx = x * UNIT + UNIT / 2 - ox;
    let ddy = y * UNIT + UNIT / 2 - oy;
    TraversedCell {
        idx: cell_index(w, x, y) as usize,
        dist: ((ddx * fx + ddy * fy) / (UNIT as int)) as i64,
        side: ((ddy * fx - ddx * fy) / (UNIT as int)) as i64,
    }
}

/// Whether `list` holds a record of cell index `idx`.
pub open spec fn listed(list: Seq<TraversedCell>, idx: int) -> bool {
    exists|k: int| 0 <= k < list.len() && #[trigger] list[k].idx as int == idx
}

/// `list` with cell `(x, y)` added once: only a cell of the grid, and only
/// if it is not listed yet.
pub open spec fn add_visit(list: Seq<TraversedCell>, w: int, h: int, x: int, y: int, ox: i64, oy: i64, fx: i64, fy: i64) -> Seq<TraversedCell> {
    if in_grid(w, h, x, y) && !listed(list, cell_index(w, x, y)) {
        list.push(traversed(w, x, y, ox, oy, fx, fy))
    } else {
        list
    }
}

/// The cell the next DDA step from `t` enters.
pub open spec fn entered(t: Trace) -> (int, int) {
    if before(t.rx, t.ry) {
        (t.mx + t.rx.dir, t.my as int)
    } else {
        (t.mx as int, t.my + t.ry.dir)
    }
}

/// `list` after the DDA from `t` has added each cell it enters, hit or not,
/// for a player facing `(fx, fy)`.
pub open spec fn march_visits(
    beam: Beam,
    cells: Seq<MapCell>,
    w: int,
    h: int,
    t: Trace,
    steps: nat,
    list: Seq<TraversedCell>,
    fx: i64,
    fy: i64,
) -> Seq<TraversedCell>
    decreases steps,
{
    if steps == 0 || (far(t.rx) && far(t.ry)) {
        list
    } else {
        let l2 = add_visit(list, w, h, entered(t).0, entered(t).1, beam.ox, beam.oy, fx, fy);
        match step(beam, cells, w, h, t) {
            Ok(_) => l2,
            Err(next) => march_visits(beam, cells, w, h, next, (steps - 1) as nat, l2, fx, fy),
        }
    }
}

/// `a / b` rounded down, for `b > 0`.
pub fn floor_div(a: i64, b: i64) -> (r: i64)
    requires
        b > 0,
        a > i64::MIN,
    ensures
        r == a / b,
{
    if a >= 0 {
        a / b
    } else {
        let q = (-a - 1) / b;
        proof {
            let n: int = -a - 1;
            let bi: int = b as int;
            let qi: int = q as int;
            assert(qi == n / bi);
            assert(n == qi * bi + n % bi) by (nonlinear_arith)
                requires qi == n / bi, bi > 0, n >= 0;
            assert(0 <= n % bi < bi) by (nonlinear_arith)
                requires bi > 0;
            let m = bi - 1 - n % bi;
            assert(a == (-qi - 1) * bi + m) by (nonlinear_arith)
                requires n == qi * bi + n % bi, m == bi - 1 - n % bi, n == -a - 1;
            vstd::arithmetic::div_mod::lemma_fundamental_div_mod_converse(a as int, bi, -qi - 1, m);
        }
        -q - 1
    }
}

fn init_stepper_exec(o: i64, d: i64) -> (r: Stepper)
    requires
        -MAX_COORD <= o <= MAX_COORD,
        -UNIT <= d <= UNIT,
    ensures
        r == init_stepper(o, d),
        0 <= r.num <= UNIT,
        0 <= r.speed <= UNIT,
        r.dir == 0 ==> r.speed == 0,
        r.dir != 0 ==> r.speed > EPSILON,
        -1 <= r.dir <= 1,
{
    let f = floor_div(o, UNIT);
    proof {
        vstd::arithmetic::div_mod::lemma_fundamental_div_mod(o as int, UNIT as int);
    }
    if d > EPSILON {
        Stepper { dir: 1, num: (f + 1) * UNIT - o, speed: d }
    } else if d < -EPSILON {
        Stepper { dir: -1, num: o - f * UNIT, speed: -d }
    } else {
        Stepper { dir: 0, num: 0, speed: 0 }
    }
}



/// Bound on how far a stepper gets within one cast.
pub const MAX_NUM: i64 = 17179869184;

pub open spec fn stepper_ok(s: Stepper) -> bool {
    -1 <= s.dir <= 1 && 0 <= s.num <= MAX_NUM && 0 <= s.speed <= UNIT && (s.dir == 0 <==> s.speed
        == 0) && (s.dir != 0 ==> s.speed > EPSILON)
}

/// A hit whose door offset fits the hit point, so that `texture_u` stays in `[0, UNIT)`.
pub open spec fn hit_ok(p: Probe, along: i64, d_other: i64, a: Stepper) -> bool {
    match p {
        Probe::Hit { num, door_prog, flip, .. } => 0 <= num <= MAX_NUM + UNIT && 0 <= door_prog
            <= UNIT && (door_prog != 0 ==> !flip && (along + (num * d_other) / (a.speed as int))
            % (UNIT as int) >= door_prog),
        Probe::Miss => true,
    }
}

/// `v` modulo `UNIT`, in `[0, UNIT)`.
fn frac_of(v: i64) -> (r: i64)
    requires
        -0x1000_0000_0000_0000 <= v <= 0x1000_0000_0000_0000,
    ensures
        r == v % UNIT,
        0 <= r < UNIT,
{
    let q = floor_div(v, UNIT);
    proof {
        vstd::arithmetic::div_mod::lemma_fundamental_div_mod(v as int, UNIT as int);
    }
    v - q * UNIT
}

fn probe(
    cell: &MapCell,
    a: Stepper,
    b: Stepper,
    along: i64,
    d_other: i64,
    by_x: bool,
    from_door: bool,
) -> (r: Probe)
    requires
        stepper_ok(a),
        stepper_ok(b),
        a.dir != 0,
        -MAX_COORD <= along <= MAX_COORD,
        -UNIT <= d_other <= UNIT,
    ensures
        r == spec_probe(*cell, a, b, along, d_other, by_x, from_door),
        hit_ok(r, along, d_other, a),
{
    let prog = cell.get_progress();
    let dark: usize = if by_x { 1 } else { 0 };
    proof {
        lemma_mul_bound(b.num as int, a.speed as int, MAX_NUM as int, UNIT as int);
        lemma_mul_bound(a.num + UNIT, b.speed as int, MAX_NUM + UNIT, UNIT as int);
    }
    let flip = if by_x { a.dir < 0 } else { a.dir > 0 };
    if cell.push_wall && prog < ONE {
        let t = a.num + (UNIT - prog as i64);
        proof {
            lemma_mul_bound(t as int, b.speed as int, MAX_NUM + UNIT, UNIT as int);
        }
        if b.dir == 0 || t * b.speed <= b.num * a.speed {
            Probe::Hit { num: t, texture: cell.get_texture() + dark, door_prog: 0, flip }
        } else {
            Probe::Miss
        }
    } else if cell.wall {
        let texture = if from_door { TEXIDX_DOOR_EDGES } else { cell.get_texture() + dark };
        Probe::Hit { num: a.num, texture, door_prog: 0, flip }
    } else if (by_x && cell.is_vert_door()) || (!by_x && cell.is_horiz_door()) {
        let t = a.num + UNIT / 2;
        proof {
            lemma_mul_bound(t as int, b.speed as int, MAX_NUM + UNIT, UNIT as int);
        }
        if b.dir == 0 || t * b.speed <= b.num * a.speed {
            assert(-MAX_NUM * UNIT - UNIT * UNIT <= t * d_other <= MAX_NUM * UNIT + UNIT * UNIT)
                by (nonlinear_arith)
                requires 0 <= t <= MAX_NUM + UNIT, -UNIT <= d_other <= UNIT;
            let off = floor_div(t * d_other, a.speed);
            proof {
                vstd::arithmetic::div_mod::lemma_fundamental_div_mod((t * d_other) as int, a.speed as int);
                assert(-MAX_NUM * UNIT - UNIT * UNIT <= off <= MAX_NUM * UNIT + UNIT * UNIT)
                    by (nonlinear_arith)
                    requires
                        -MAX_NUM * UNIT - UNIT * UNIT <= t * d_other <= MAX_NUM * UNIT + UNIT * UNIT,
                        off == (t * d_other) / (a.speed as int),
                        a.speed > 0;
            }
            let frac = frac_of(along + off);
            if frac >= prog as i64 {
                Probe::Hit { num: t, texture: cell.get_texture(), door_prog: prog as i64, flip: false }
            } else {
                Probe::Miss
            }
        } else {
            Probe::Miss
        }
    } else {
        Probe::Miss
    }
}

fn finish_exec(beam: Beam, by_x: bool, p: Probe, s: Stepper) -> (r: (i64, usize, i64))
    requires
        beam_ok(beam),
        stepper_ok(s),
        s.dir != 0,
        p is Hit,
        hit_ok(p, if by_x { beam.oy } else { beam.ox }, if by_x { beam.dy } else { beam.dx }, s),
    ensures
        r == finish(beam, by_x, p, s),
        r == (FAR_AWAY, 0usize, 0i64) || (0 <= r.0 < FAR_AWAY && 0 <= r.2 < UNIT),
{
    match p {
        Probe::Hit { num, texture, door_prog, flip } => {
            let (along, d_other) = if by_x { (beam.oy, beam.dy) } else { (beam.ox, beam.dx) };
            assert(-MAX_NUM * UNIT - UNIT * UNIT <= num * d_other <= MAX_NUM * UNIT + UNIT * UNIT)
                by (nonlinear_arith)
                requires 0 <= num <= MAX_NUM + UNIT, -UNIT <= d_other <= UNIT;
            let off = floor_div(num * d_other, s.speed);
            proof {
                assert(-MAX_NUM * UNIT - UNIT * UNIT <= off <= MAX_NUM * UNIT + UNIT * UNIT)
                    by (nonlinear_arith)
                    requires
                        -MAX_NUM * UNIT - UNIT * UNIT <= num * d_other <= MAX_NUM * UNIT + UNIT * UNIT,
                        off == (num * d_other) / (s.speed as int),
                        s.speed > 0;
            }
            let frac = frac_of(along + off);
            let u = if !flip {
                frac
            } else if frac == 0 {
                0
            } else {
                UNIT - frac
            };
            let dist = floor_div(num * UNIT, s.speed);
            proof {
                assert(dist >= 0) by (nonlinear_arith)
                    requires dist == (num * UNIT) / (s.speed as int), num >= 0, s.speed > 0;
            }
            if dist >= FAR_AWAY {
                return (FAR_AWAY, 0, 0);
            }
            (dist, texture, u - door_prog)
        },
        Probe::Miss => (FAR_AWAY, 0, 0),
    }
}

/// `c` is the record of some cell of a `w` by `h` grid, for origin `(ox, oy)` and facing `(fx, fy)`.
pub open spec fn recorded(w: i64, h: i64, ox: i64, oy: i64, fx: i64, fy: i64, c: TraversedCell) -> bool {
    exists|x: int, y: int|
        in_grid(w as int, h as int, x, y) && c == #[trigger] traversed(w as int, x, y, ox, oy, fx, fy)
}

/// Sets up ray casts from one origin, and collects the cells the rays go through.
pub struct RayCaster {
    pub map_width: i64,
    pub map_height: i64,
    pub origin_x: i64,
    pub origin_y: i64,
    pub facing_x: i64,
    pub facing_y: i64,
    pub traversed_cells: Vec<TraversedCell>,
}

impl RayCaster {
    /// Every traversed cell is recorded once, from a cell of the grid.
    pub open spec fn wf(&self) -> bool {
        &&& 0 < self.map_width <= 65535
        &&& 0 < self.map_height <= 65535
        &&& -MAX_COORD <= self.origin_x <= MAX_COORD
        &&& -MAX_COORD <= self.origin_y <= MAX_COORD
        &&& -UNIT <= self.facing_x <= UNIT
        &&& -UNIT <= self.facing_y <= UNIT
        &&& forall|i: int| 0 <= i < self.traversed_cells@.len() ==> recorded(self.map_width, self.map_height, self.origin_x, self.origin_y, self.facing_x, self.facing_y, #[trigger] self.traversed_cells@[i])
        &&& forall|i: int, j: int|
            0 <= i < j < self.traversed_cells@.len() ==> #[trigger] self.traversed_cells@[i].idx
                != #[trigger] self.traversed_cells@[j].idx
    }

    pub open spec fn beam(&self, dir_x: i64, dir_y: i64) -> Beam {
        Beam { ox: self.origin_x, oy: self.origin_y, dx: dir_x, dy: dir_y }
    }

    /// A caster whose rays start at `(x, y)`, for a player facing `(facing_x, facing_y)`.
    pub fn from_origin(x: i64, y: i64, facing_x: i64, facing_y: i64, map_width: i32, map_height: i32) -> (r: Self)
        requires
            -MAX_COORD <= x <= MAX_COORD,
            -MAX_COORD <= y <= MAX_COORD,
            -UNIT <= facing_x <= UNIT,
            -UNIT <= facing_y <= UNIT,
            0 < map_width <= 65535,
            0 < map_height <= 65535,
        ensures
            r.wf(),
            r.origin_x == x,
            r.origin_y == y,
            r.facing_x == facing_x,
            r.facing_y == facing_y,
            r.map_width == map_width,
            r.map_height == map_height,
            r.traversed_cells@.len() == 0,
    {
        RayCaster {
            map_width: map_width as i64,
            map_height: map_height as i64,
            origin_x: x,
            origin_y: y,
            facing_x,
            facing_y,
            traversed_cells: Vec::new(),
        }
    }

    /// A caster for the view of `player`, who faces `(facing_x, facing_y)`
    /// (the cosine and sine of its angle, fixed-point): the rays start a
    /// little behind the player.
    pub fn new(player: &Actor, facing_x: i64, facing_y: i64, map_width: i32, map_height: i32) -> (r: Self)
        requires
            -MAX_COORD + UNIT <= player.x <= MAX_COORD - UNIT,
            -MAX_COORD + UNIT <= player.y <= MAX_COORD - UNIT,
            -UNIT <= facing_x <= UNIT,
            -UNIT <= facing_y <= UNIT,
            0 < map_width <= 65535,
            0 < map_height <= 65535,
        ensures
            r.wf(),
            r.origin_x == player.x + (VIEW_OFFSET * facing_x) / (UNIT as int),
            r.origin_y == player.y + (VIEW_OFFSET * facing_y) / (UNIT as int),
            r.facing_x == facing_x,
            r.facing_y == facing_y,
            r.map_width == map_width,
            r.map_height == map_height,
            r.traversed_cells@.len() == 0,
    {
        let ox = floor_div(VIEW_OFFSET * facing_x, UNIT);
        let oy = floor_div(VIEW_OFFSET * facing_y, UNIT);
        proof {
            assert(-UNIT <= ox <= UNIT) by (nonlinear_arith)
                requires ox == (VIEW_OFFSET * facing_x) / (UNIT as int), -UNIT <= facing_x <= UNIT;
            assert(-UNIT <= oy <= UNIT) by (nonlinear_arith)
                requires oy == (VIEW_OFFSET * facing_y) / (UNIT as int), -UNIT <= facing_y <= UNIT;
        }
        Self::from_origin(player.x + ox, player.y + oy, facing_x, facing_y, map_width, map_height)
    }

    /// Adds the cell `(x, y)` to the traversed cells, if it is in the grid and not there yet.
    fn record_visit(&mut self, x: i64, y: i64)
        requires
            old(self).wf(),
            -0x1_0000_0000 <= x <= 0x1_0000_0000,
            -0x1_0000_0000 <= y <= 0x1_0000_0000,
        ensures
            final(self).wf(),
            final(self).map_width == old(self).map_width,
            final(self).map_height == old(self).map_height,
            final(self).origin_x == old(self).origin_x,
            final(self).origin_y == old(self).origin_y,
            final(self).facing_x == old(self).facing_x,
            final(self).facing_y == old(self).facing_y,
            old(self).traversed_cells@.is_prefix_of(final(self).traversed_cells@),
            final(self).traversed_cells@ == add_visit(old(self).traversed_cells@, old(self).map_width as int, old(self).map_height as int, x as int, y as int, old(self).origin_x, old(self).origin_y, old(self).facing_x, old(self).facing_y),
    {
        if x >= 0 && y >= 0 && x < self.map_width && y < self.map_height {
            let w = self.map_width;
            proof {
                assert(0 <= y * w + x < self.map_width * self.map_height) by (nonlinear_arith)
                    requires 0 <= x < w, 0 <= y < self.map_height, w == self.map_width;
                lemma_mul_bound(y as int, w as int, 65535, 65535);
            }
            let idx = (y * w + x) as usize;
            let mut i: usize = 0;
            let mut found = false;
            while i < self.traversed_cells.len()
                invariant
                    0 <= i <= self.traversed_cells@.len(),
                    !found ==> forall|k: int| 0 <= k < i ==> self.traversed_cells@[k].idx != idx,
                    found ==> listed(self.traversed_cells@, idx as int),
                decreases self.traversed_cells@.len() - i,
            {
                if self.traversed_cells[i].idx == idx {
                    found = true;
                    assert(self.traversed_cells@[i as int].idx as int == idx as int);
                }
                i += 1;
            }
            assert(idx as int == cell_index(w as int, x as int, y as int));
            if !found {
                let ddx = x * UNIT + UNIT / 2 - self.origin_x;
                let ddy = y * UNIT + UNIT / 2 - self.origin_y;
                let fx = self.facing_x;
                let fy = self.facing_y;
                proof {
                    assert(-0x40_0000_0000_0000 <= ddx * fx <= 0x40_0000_0000_0000) by (nonlinear_arith)
                        requires -0x20_0000_0000 <= ddx <= 0x20_0000_0000, -UNIT <= fx <= UNIT;
                    assert(-0x40_0000_0000_0000 <= ddy * fy <= 0x40_0000_0000_0000) by (nonlinear_arith)
                        requires -0x20_0000_0000 <= ddy <= 0x20_0000_0000, -UNIT <= fy <= UNIT;
                    assert(-0x40_0000_0000_0000 <= ddx * fy <= 0x40_0000_0000_0000) by (nonlinear_arith)
                        requires -0x20_0000_0000 <= ddx <= 0x20_0000_0000, -UNIT <= fy <= UNIT;
                    assert(-0x40_0000_0000_0000 <= ddy * fx <= 0x40_0000_0000_0000) by (nonlinear_arith)
                        requires -0x20_0000_0000 <= ddy <= 0x20_0000_0000, -UNIT <= fx <= UNIT;
                }
                let dist = floor_div(ddx * fx + ddy * fy, UNIT);
                let side = floor_div(ddy * fx - ddx * fy, UNIT);
                let tc = TraversedCell { idx, dist, side };
                proof {
                    let c = traversed(w as int, x as int, y as int, self.origin_x, self.origin_y, fx, fy);
                    assert(tc == c);
                    assert(recorded(self.map_width, self.map_height, self.origin_x, self.origin_y, self.facing_x, self.facing_y, tc));
                }
                let ghost before = self.traversed_cells@;
                self.traversed_cells.push(tc);
                proof {
                    assert(before.is_prefix_of(self.traversed_cells@));
                    assert forall|i: int| 0 <= i < self.traversed_cells@.len() implies recorded(self.map_width, self.map_height, self.origin_x, self.origin_y, self.facing_x, self.facing_y,
                        #[trigger] self.traversed_cells@[i],
                    ) by {
                        if i < before.len() {
                            assert(self.traversed_cells@[i] == before[i]);
                        } else {
                            assert(self.traversed_cells@[i] == tc);
                            assert(in_grid(w as int, self.map_height as int, x as int, y as int));
                            assert(tc == traversed(w as int, x as int, y as int, self.origin_x, self.origin_y, self.facing_x, self.facing_y));
                        }
                    }
                }
            } else {
                assert(self.traversed_cells@.is_prefix_of(self.traversed_cells@));
            }
        } else {
            assert(self.traversed_cells@.is_prefix_of(self.traversed_cells@));
        }
    }
}

impl RayCaster {
    /// Casts one ray in direction `(dir_x, dir_y)` (fixed-point, each
    /// component within `[-UNIT, UNIT]`): returns the distance to the first
    /// wall, door or push-wall it meets, the texture to draw there and the
    /// texture coordinate in `[0, UNIT)`; or `(FAR_AWAY, 0, 0)` when nothing
    /// is met within `2 * max(width, height)` steps. The cells the ray goes
    /// through are added to the traversed cells.
    pub fn cast_ray(&mut self, dir_x: i64, dir_y: i64, cells: &[MapCell]) -> (r: (i64, usize, i64))
        requires
            old(self).wf(),
            -UNIT <= dir_x <= UNIT,
            -UNIT <= dir_y <= UNIT,
            cells@.len() == old(self).map_width * old(self).map_height,
        ensures
            r == spec_cast(old(self).beam(dir_x, dir_y), cells@, old(self).map_width as int, old(self).map_height as int),
            r == (FAR_AWAY, 0usize, 0i64) || (0 <= r.0 < FAR_AWAY && 0 <= r.2 < UNIT),
            final(self).traversed_cells@ == march_visits(
                old(self).beam(dir_x, dir_y),
                cells@,
                old(self).map_width as int,
                old(self).map_height as int,
                start_trace(old(self).beam(dir_x, dir_y)),
                max_steps(old(self).map_width as int, old(self).map_height as int),
                old(self).traversed_cells@,
                old(self).facing_x,
                old(self).facing_y,
            ),
            final(self).wf(),
            final(self).map_width == old(self).map_width,
            final(self).map_height == old(self).map_height,
            final(self).origin_x == old(self).origin_x,
            final(self).origin_y == old(self).origin_y,
            final(self).facing_x == old(self).facing_x,
            final(self).facing_y == old(self).facing_y,
            old(self).traversed_cells@.is_prefix_of(final(self).traversed_cells@),
    {
        let beam = Beam { ox: self.origin_x, oy: self.origin_y, dx: dir_x, dy: dir_y };
        let w = self.map_width;
        let h = self.map_height;
        let ghost wi = w as int;
        let ghost hi = h as int;
        let ghost first = self.traversed_cells@;
        let rx0 = init_stepper_exec(beam.ox, beam.dx);
        let ry0 = init_stepper_exec(beam.oy, beam.dy);
        let mx0 = floor_div(beam.ox, UNIT);
        let my0 = floor_div(beam.oy, UNIT);
        proof {
            assert(-0x1000_0000 <= mx0 <= 0x1000_0000) by (nonlinear_arith)
                requires mx0 == (beam.ox as int) / (UNIT as int), -MAX_COORD <= beam.ox <= MAX_COORD;
            assert(-0x1000_0000 <= my0 <= 0x1000_0000) by (nonlinear_arith)
                requires my0 == (beam.oy as int) / (UNIT as int), -MAX_COORD <= beam.oy <= MAX_COORD;
        }
        let mut t = Trace { mx: mx0, my: my0, rx: rx0, ry: ry0 };
        let total: i64 = 2 * if w > h { w } else { h };
        let mut steps: i64 = total;
        assert(t == start_trace(beam));
        loop
            invariant
                self.wf(),
                self.map_width == w,
                self.map_height == h,
                w == old(self).map_width,
                h == old(self).map_height,
                self.origin_x == beam.ox,
                self.origin_y == beam.oy,
                self.facing_x == old(self).facing_x,
                self.facing_y == old(self).facing_y,
                beam == old(self).beam(dir_x, dir_y),
                beam_ok(beam),
                first == old(self).traversed_cells@,
                first.is_prefix_of(self.traversed_cells@),
                cells@.len() == w * h,
                0 < w <= 65535,
                0 < h <= 65535,
                total as nat == max_steps(w as int, h as int),
                0 <= steps <= total,
                march(beam, cells@, w as int, h as int, t, steps as nat) == march(
                    beam,
                    cells@,
                    w as int,
                    h as int,
                    start_trace(beam),
                    total as nat,
                ),
                march_visits(beam, cells@, w as int, h as int, t, steps as nat, self.traversed_cells@, self.facing_x, self.facing_y)
                    == march_visits(beam, cells@, w as int, h as int, start_trace(beam), total as nat, first, self.facing_x, self.facing_y),
                t.rx.dir == rx0.dir,
                t.rx.speed == rx0.speed,
                t.ry.dir == ry0.dir,
                t.ry.speed == ry0.speed,
                stepper_ok(rx0),
                stepper_ok(ry0),
                0 <= t.rx.num <= UNIT * (total - steps + 1),
                0 <= t.ry.num <= UNIT * (total - steps + 1),
                -0x1000_0000 - (total - steps) <= t.mx <= 0x1000_0000 + (total - steps),
                -0x1000_0000 - (total - steps) <= t.my <= 0x1000_0000 + (total - steps),
            decreases steps,
        {
            if steps == 0 {
                assert(march(beam, cells@, w as int, h as int, t, steps as nat) is None);
                return (FAR_AWAY, 0, 0);
            }
            proof {
                assert(UNIT * (total - steps + 1) <= MAX_NUM) by (nonlinear_arith)
                    requires total <= 2 * 65535, steps >= 1;
                lemma_mul_bound(t.rx.num as int, UNIT as int, MAX_NUM as int, UNIT as int);
                lemma_mul_bound(t.ry.num as int, UNIT as int, MAX_NUM as int, UNIT as int);
            }
            // stop once both steppers' next lines are far away
            let far_x = t.rx.dir == 0 || t.rx.num * UNIT >= FAR_AWAY * t.rx.speed;
            let far_y = t.ry.dir == 0 || t.ry.num * UNIT >= FAR_AWAY * t.ry.speed;
            if far_x && far_y {
                assert(march(beam, cells@, w as int, h as int, t, steps as nat) is None);
                return (FAR_AWAY, 0, 0);
            }
            proof {
                lemma_mul_bound(t.rx.num as int, t.ry.speed as int, MAX_NUM as int, UNIT as int);
                lemma_mul_bound(t.ry.num as int, t.rx.speed as int, MAX_NUM as int, UNIT as int);
            }
            // the jambs beside a door are drawn with their own texture
            let from_door = if t.mx >= 0 && t.my >= 0 && t.mx < w && t.my < h {
                proof {
                    assert(0 <= t.my * w + t.mx < w * h) by (nonlinear_arith)
                        requires 0 <= t.mx < w, 0 <= t.my < h;
                    lemma_mul_bound(t.my as int, w as int, 65535, 65535);
                }
                cells[(t.my * w + t.mx) as usize].is_door()
            } else {
                false
            };
            assert(from_door == is_door_at(cells@, w as int, h as int, t.mx as int, t.my as int));
            let x_first = t.rx.dir != 0 && (t.ry.dir == 0 || t.rx.num * t.ry.speed < t.ry.num
                * t.rx.speed);
            if x_first {
                let nx = t.mx + t.rx.dir;
                self.record_visit(nx, t.my);
                let p = if nx >= 0 && t.my >= 0 && nx < w && t.my < h {
                    proof {
                        assert(0 <= t.my * w + nx < w * h) by (nonlinear_arith)
                            requires 0 <= nx < w, 0 <= t.my < h;
                        lemma_mul_bound(t.my as int, w as int, 65535, 65535);
                    }
                    probe(&cells[(t.my * w + nx) as usize], t.rx, t.ry, beam.oy, beam.dy, true, from_door)
                } else {
                    Probe::Miss
                };
                if let Probe::Hit { .. } = p {
                    return finish_exec(beam, true, p, t.rx);
                }
                t = Trace { mx: nx, rx: Stepper { num: t.rx.num + UNIT, ..t.rx }, ..t };
            } else {
                let ny = t.my + t.ry.dir;
                self.record_visit(t.mx, ny);
                let p = if t.mx >= 0 && ny >= 0 && t.mx < w && ny < h {
                    proof {
                        assert(0 <= ny * w + t.mx < w * h) by (nonlinear_arith)
                            requires 0 <= t.mx < w, 0 <= ny < h;
                        lemma_mul_bound(ny as int, w as int, 65535, 65535);
                    }
                    probe(&cells[(ny * w + t.mx) as usize], t.ry, t.rx, beam.ox, beam.dx, false, from_door)
                } else {
                    Probe::Miss
                };
                if let Probe::Hit { .. } = p {
                    return finish_exec(beam, false, p, t.ry);
                }
                t = Trace { my: ny, ry: Stepper { num: t.ry.num + UNIT, ..t.ry }, ..t };
            }
            steps = steps - 1;
        }
    }
}

impl RayCaster {
    /// The traversed cells, farthest first.
    pub fn into_visited_cells(self) -> (r: Vec<TraversedCell>)
        ensures
            r@.to_multiset() == self.traversed_cells@.to_multiset(),
            forall|i: int, j: int| 0 <= i < j < r@.len() ==> r@[i].dist >= r@[j].dist,
    {
        broadcast use vstd::seq_lib::to_multiset_update, vstd::multiset::group_multiset_properties, vstd::multiset::group_multiset_axioms;

        let mut v = self.traversed_cells;
        let n = v.len();
        let mut i: usize = 0;
        while i < n
            invariant
                n == v@.len(),
                0 <= i <= n,
                v@.to_multiset() == self.traversed_cells@.to_multiset(),
                forall|a: int, b: int| 0 <= a < b < i ==> v@[a].dist >= v@[b].dist,
            decreases n - i,
        {
            // sink the new element towards the front past every nearer one
            let mut j: usize = i;
            while j > 0 && v[j - 1].dist < v[j].dist
                invariant
                    n == v@.len(),
                    0 <= j <= i < n,
                    v@.to_multiset() == self.traversed_cells@.to_multiset(),
                    forall|a: int, b: int|
                        0 <= a < b <= i && a != j && b != j ==> v@[a].dist >= v@[b].dist,
                    forall|b: int| j < b <= i ==> v@[j as int].dist >= v@[b].dist,
                decreases j,
            {
                let near = v[j - 1];
                let moving = v[j];
                let ghost s0 = v@;
                v.set(j - 1, moving);
                let ghost s1 = v@;
                v.set(j, near);
                proof {
                    assert(s1 == s0.update(j - 1, moving));
                    assert(v@ == s1.update(j as int, near));
                    vstd::seq_lib::to_multiset_update(s0, j - 1, moving);
                    vstd::seq_lib::to_multiset_update(s1, j as int, near);
                    assert(s0.contains(near)) by {
                        assert(s0[j - 1] == near);
                    }
                    vstd::seq_lib::to_multiset_contains(s0, near);
                    assert(v@.to_multiset() =~= s0.to_multiset());
                }
                j -= 1;
            }
            i += 1;
        }
        v
    }
}

/// A ray aimed east along the middle of a row, from inside the cell just
/// west of a wall (not a door), hits that wall at once: at the distance to
/// its face, with the dark variant of its texture (an X-stepper hit), half
/// way across the face.
pub proof fn lemma_wall_hit_from_west(cells: Seq<MapCell>, w: int, h: int, cx: int, cy: int, ox: i64)
    requires
        grid_ok(cells, w, h),
        in_grid(w, h, cx, cy),
        cx >= 1,
        cells[cell_index(w, cx, cy)].wall,
        !cells[cell_index(w, cx, cy)].push_wall,
        !cells[cell_index(w, cx - 1, cy)].spec_is_door(),
        (cx - 1) * UNIT <= ox < cx * UNIT,
    ensures
        spec_cast(Beam { ox, oy: (cy * UNIT + UNIT / 2) as i64, dx: UNIT, dy: 0 }, cells, w, h) == (
            (cx * UNIT - ox) as i64,
            (cells[cell_index(w, cx, cy)].spec_get_texture() + 1) as usize,
            (UNIT / 2) as i64,
        ),
{
    let oy = (cy * UNIT + UNIT / 2) as i64;
    let beam = Beam { ox, oy, dx: UNIT, dy: 0 };
    vstd::arithmetic::div_mod::lemma_fundamental_div_mod_converse(ox as int, UNIT as int, cx - 1, ox - (cx - 1) * UNIT);
    vstd::arithmetic::div_mod::lemma_fundamental_div_mod_converse(oy as int, UNIT as int, cy, UNIT / 2);
    let num = cx * UNIT - ox;
    assert((num * UNIT) / (UNIT as int) == num) by {
        vstd::arithmetic::div_mod::lemma_fundamental_div_mod_converse(num * UNIT, UNIT as int, num, 0);
    }
    assert((num * 0) / (UNIT as int) == 0);
    assert(max_steps(w, h) >= 2);
    let t = start_trace(beam);
    assert(t.mx == cx - 1 && t.my == cy);
    assert(step(beam, cells, w, h, t) is Ok);
}

/// A ray aimed south along the middle of a column, from inside the cell
/// just north of a wall (not a door), hits that wall at once with the
/// wall's own texture (a Y-stepper hit).
pub proof fn lemma_wall_hit_from_north(cells: Seq<MapCell>, w: int, h: int, cx: int, cy: int, oy: i64)
    requires
        grid_ok(cells, w, h),
        in_grid(w, h, cx, cy),
        cy >= 1,
        cells[cell_index(w, cx, cy)].wall,
        !cells[cell_index(w, cx, cy)].push_wall,
        !cells[cell_index(w, cx, cy - 1)].spec_is_door(),
        (cy - 1) * UNIT <= oy < cy * UNIT,
    ensures
        spec_cast(Beam { ox: (cx * UNIT + UNIT / 2) as i64, oy, dx: 0, dy: UNIT }, cells, w, h).1
            == cells[cell_index(w, cx, cy)].spec_get_texture(),
        spec_cast(Beam { ox: (cx * UNIT + UNIT / 2) as i64, oy, dx: 0, dy: UNIT }, cells, w, h).0
            == cy * UNIT - oy,
{
    let ox = (cx * UNIT + UNIT / 2) as i64;
    let beam = Beam { ox, oy, dx: 0, dy: UNIT };
    vstd::arithmetic::div_mod::lemma_fundamental_div_mod_converse(oy as int, UNIT as int, cy - 1, oy - (cy - 1) * UNIT);
    vstd::arithmetic::div_mod::lemma_fundamental_div_mod_converse(ox as int, UNIT as int, cx, UNIT / 2);
    let num = cy * UNIT - oy;
    assert((num * UNIT) / (UNIT as int) == num) by {
        vstd::arithmetic::div_mod::lemma_fundamental_div_mod_converse(num * UNIT, UNIT as int, num, 0);
    }
    assert(max_steps(w, h) >= 2);
    let t = start_trace(beam);
    assert(t.mx == cx && t.my == cy - 1);
    assert(step(beam, cells, w, h, t) is Ok);
}

/// A closed door crossing the ray's path (a vertical door met going east)
/// is as solid as a wall: the ray stops at the door's middle line with the
/// door's texture.
pub proof fn lemma_closed_door_hit_from_west(cells: Seq<MapCell>, w: int, h: int, cx: int, cy: int, ox: i64)
    requires
        grid_ok(cells, w, h),
        in_grid(w, h, cx, cy),
        cx >= 1,
        cells[cell_index(w, cx, cy)].spec_is_vert_door(),
        cells[cell_index(w, cx, cy)].state == CellState::Closed,
        !cells[cell_index(w, cx, cy)].wall,
        !cells[cell_index(w, cx, cy)].push_wall,
        (cx - 1) * UNIT <= ox < cx * UNIT,
    ensures
        spec_cast(Beam { ox, oy: (cy * UNIT + UNIT / 2) as i64, dx: UNIT, dy: 0 }, cells, w, h) == (
            (cx * UNIT + UNIT / 2 - ox) as i64,
            cells[cell_index(w, cx, cy)].spec_get_texture(),
            (UNIT / 2) as i64,
        ),
{
    let oy = (cy * UNIT + UNIT / 2) as i64;
    let beam = Beam { ox, oy, dx: UNIT, dy: 0 };
    vstd::arithmetic::div_mod::lemma_fundamental_div_mod_converse(ox as int, UNIT as int, cx - 1, ox - (cx - 1) * UNIT);
    vstd::arithmetic::div_mod::lemma_fundamental_div_mod_converse(oy as int, UNIT as int, cy, UNIT / 2);
    let num = cx * UNIT + UNIT / 2 - ox;
    assert((num * UNIT) / (UNIT as int) == num) by {
        vstd::arithmetic::div_mod::lemma_fundamental_div_mod_converse(num * UNIT, UNIT as int, num, 0);
    }
    assert((num * 0) / (UNIT as int) == 0);
    assert(max_steps(w, h) >= 2);
    let t = start_trace(beam);
    assert(t.mx == cx - 1 && t.my == cy);
    assert(step(beam, cells, w, h, t) is Ok);
}

/// Steppers not behind the origin, with room for `steps` more grid lines.
pub open spec fn trace_ok(t: Trace, steps: nat) -> bool {
    &&& 0 <= t.rx.num && t.rx.num + steps * UNIT <= 0x100_0000_0000
    &&& 0 <= t.ry.num && t.ry.num + steps * UNIT <= 0x100_0000_0000
    &&& (t.rx.dir != 0 ==> t.rx.speed > 0)
    &&& (t.ry.dir != 0 ==> t.ry.speed > 0)
}

proof fn lemma_march_hit(beam: Beam, cells: Seq<MapCell>, w: int, h: int, t: Trace, steps: nat)
    requires
        trace_ok(t, steps),
    ensures
        march(beam, cells, w, h, t, steps) matches Some((_, p, s)) ==> (p matches Probe::Hit { num, .. } && num >= 0
            && s.speed > 0),
    decreases steps,
{
    if steps > 0 && !(far(t.rx) && far(t.ry)) {
        match step(beam, cells, w, h, t) {
            Ok(_) => {},
            Err(next) => {
                lemma_march_hit(beam, cells, w, h, next, (steps - 1) as nat);
            },
        }
    }
}

/// A ray cast from any origin in any direction ends within its step bound
/// and reports either the far-away sentinel or a hit at a distance in
/// `[0, FAR_AWAY)`.
pub proof fn lemma_cast_result(beam: Beam, cells: Seq<MapCell>, w: int, h: int)
    requires
        beam_ok(beam),
        0 < w <= 65535,
        0 < h <= 65535,
    ensures
        spec_cast(beam, cells, w, h) == (FAR_AWAY, 0usize, 0i64) || 0 <= spec_cast(beam, cells, w, h).0 < FAR_AWAY,
{
    let t = start_trace(beam);
    vstd::arithmetic::div_mod::lemma_fundamental_div_mod(beam.ox as int, UNIT as int);
    vstd::arithmetic::div_mod::lemma_fundamental_div_mod(beam.oy as int, UNIT as int);
    assert(max_steps(w, h) <= 131070);
    assert(trace_ok(t, max_steps(w, h))) by (nonlinear_arith)
        requires
            t == start_trace(beam),
            max_steps(w, h) <= 131070,
            0 <= beam.ox - ((beam.ox as int) / (UNIT as int)) * UNIT < UNIT,
            0 <= beam.oy - ((beam.oy as int) / (UNIT as int)) * UNIT < UNIT,
            beam_ok(beam);
    lemma_march_hit(beam, cells, w, h, t, max_steps(w, h));
    match march(beam, cells, w, h, t, max_steps(w, h)) {
        Some((by_x, p, s)) => {
            if let Probe::Hit { num, .. } = p {
                assert((num * UNIT) / (s.speed as int) >= 0) by (nonlinear_arith)
                    requires num >= 0, s.speed > 0;
            }
        },
        None => {},
    }
}

} // verus!
