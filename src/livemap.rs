//! The live map: the cells and actors of the current floor, player
//! movement with collision, doors and push-walls, pickups.
use vstd::prelude::*;
use crate::{UNIT, lemma_mul_bound};
use crate::assets::MapData;
use crate::mapcell::{
    MapCell, Actor, Collectible, CellState, ANGLE_TWO_PI, ONE, started, ended, all_tiles_known, spawned,
    is_player_start, load_grid_to_cells, classified_cell, spawn, is_known_tile, tile_is_known,
};
use crate::status::{GameStatus, capped_add};
use crate::raycaster::{floor_div, in_grid, cell_index};
use crate::notifier::Notification;
use crate::text::{decimal, dec_text};
use vstd::string::StrSliceExecFns;

verus! {

/// Player speed: 4.5 tiles per second, as a fraction.
pub const MOVE_SPEED_NUM: i64 = 9;
pub const MOVE_SPEED_DEN: i64 = 2;
/// Turning speed, in radians per second.
pub const ROTATE_SPEED: i64 = 2;
/// Least distance (0.375) kept between the player and a wall.
pub const MIN_DISTANCE_TO_WALL: i64 = 24576;
/// Coordinates are held within `[-POS_LIMIT, POS_LIMIT]`.
pub const POS_LIMIT: i64 = 0x1_0000_0000;

/// Fixed-point angles of the four use sectors.
pub const ANGLE_QUARTER_PI: i64 = 51472;
pub const ANGLE_THREE_QUARTER_PI: i64 = 154416;
pub const ANGLE_FIVE_QUARTER_PI: i64 = 257359;
pub const ANGLE_SEVEN_QUARTER_PI: i64 = 360303;

/// The part of the live map that changes from frame to frame.
#[verifier::ext_equal]
pub struct World {
    pub cells: Seq<MapCell>,
    pub actors: Seq<Actor>,
    pub status: GameStatus,
    pub clipping: bool,
    pub player_map_x: i32,
    pub player_map_y: i32,
}

/// Cell index of a coordinate (fixed-point): its integer part.
pub open spec fn fl(v: int) -> int {
    v / (UNIT as int)
}

/// Whether `(x, y)` blocks movement: a solid cell, or outside the map.
pub open spec fn cell_solid(cells: Seq<MapCell>, w: int, h: int, x: int, y: int) -> bool {
    !in_grid(w, h, x, y) || cells[cell_index(w, x, y)].spec_is_solid()
}

/// Sets the actor mark of cell `(x, y)`, if it is in the map.
pub open spec fn mark_actor(cells: Seq<MapCell>, w: int, h: int, x: int, y: int, present: bool) -> Seq<MapCell> {
    if in_grid(w, h, x, y) {
        cells.update(cell_index(w, x, y), MapCell { actor: present, ..cells[cell_index(w, x, y)] })
    } else {
        cells
    }
}

pub open spec fn sign(v: int) -> int {
    if v > 0 {
        1
    } else if v < 0 {
        -1
    } else {
        0
    }
}

pub open spec fn abs(v: int) -> int {
    if v < 0 {
        -v
    } else {
        v
    }
}

/// Where a move by `(ddx, ddy)` from `(ox, oy)` ends. With clipping, each
/// axis is tested on its own, a little ahead in the direction of travel: an
/// axis whose cell ahead is solid is cancelled; when both are clear but the
/// diagonal cell ahead is solid, the smaller movement is cancelled, so that
/// the player slides along the wall.
pub open spec fn slide(
    cells: Seq<MapCell>,
    w: int,
    h: int,
    clip: bool,
    ox: int,
    oy: int,
    ddx: int,
    ddy: int,
) -> (int, int) {
    let ux = ox + ddx;
    let uy = oy + ddy;
    if !clip {
        (ux, uy)
    } else {
        let ix = fl(ux);
        let iy = fl(uy);
        let fx = fl(ux + MIN_DISTANCE_TO_WALL * sign(ddx));
        let fy = fl(uy + MIN_DISTANCE_TO_WALL * sign(ddy));
        let block_x = cell_solid(cells, w, h, fx, iy);
        let block_y = cell_solid(cells, w, h, ix, fy);
        if !block_x && !block_y && cell_solid(cells, w, h, fx, fy) {
            if abs(ddx) < abs(ddy) {
                (ox, uy)
            } else {
                (ux, oy)
            }
        } else {
            (if block_x {
                ox
            } else {
                ux
            }, if block_y {
                oy
            } else {
                uy
            })
        }
    }
}

/// Moving diagonally into a corner whose wall blocks only the X direction
/// cancels the X movement and keeps the Y movement whole: the player slides
/// along the wall.
pub proof fn lemma_wall_slide(cells: Seq<MapCell>, w: int, h: int, ox: int, oy: int, ddx: int, ddy: int)
    requires
        ddx != 0,
        ddy != 0,
        cell_solid(cells, w, h, fl(ox + ddx + MIN_DISTANCE_TO_WALL * sign(ddx)), fl(oy + ddy)),
        !cell_solid(cells, w, h, fl(ox + ddx), fl(oy + ddy + MIN_DISTANCE_TO_WALL * sign(ddy))),
    ensures
        slide(cells, w, h, true, ox, oy, ddx, ddy) == (ox, oy + ddy),
{
}

/// A move of actor `i` in a corner whose wall blocks only the X direction
/// (the probes taken with the actor's own cell vacated) keeps its x and
/// moves its y by the whole Y displacement.
pub proof fn lemma_translate_wall_slide(v: World, w: int, h: int, i: int, elapsed: int, fx: int, fy: int)
    requires
        0 <= i < v.actors.len(),
        v.clipping,
        actor_ok(v.actors[i]),
        ({
            let a = v.actors[i];
            let dist = (elapsed * MOVE_SPEED_NUM) / (MOVE_SPEED_DEN as int);
            let ddx = (dist * fx) / (UNIT as int);
            let ddy = (dist * fy) / (UNIT as int);
            let left = mark_actor(v.cells, w, h, fl(a.x as int), fl(a.y as int), false);
            &&& ddx != 0
            &&& ddy != 0
            &&& cell_solid(left, w, h, fl(a.x + ddx + MIN_DISTANCE_TO_WALL * sign(ddx)), fl(a.y + ddy))
            &&& !cell_solid(left, w, h, fl(a.x + ddx), fl(a.y + ddy + MIN_DISTANCE_TO_WALL * sign(ddy)))
            &&& -POS_LIMIT <= a.y + ddy <= POS_LIMIT
        }),
    ensures
        spec_translate(v, w, h, i, elapsed, fx, fy).actors[i].x == v.actors[i].x,
        spec_translate(v, w, h, i, elapsed, fx, fy).actors[i].y == v.actors[i].y + ((elapsed * MOVE_SPEED_NUM)
            / (MOVE_SPEED_DEN as int) * fy) / (UNIT as int),
{
    let a = v.actors[i];
    let dist = (elapsed * MOVE_SPEED_NUM) / (MOVE_SPEED_DEN as int);
    let ddx = (dist * fx) / (UNIT as int);
    let ddy = (dist * fy) / (UNIT as int);
    let left = mark_actor(v.cells, w, h, fl(a.x as int), fl(a.y as int), false);
    lemma_wall_slide(left, w, h, a.x as int, a.y as int, ddx, ddy);
}

pub open spec fn clamp_pos(v: int) -> i64 {
    if v < -POS_LIMIT {
        (-POS_LIMIT) as i64
    } else if v > POS_LIMIT {
        POS_LIMIT
    } else {
        v as i64
    }
}

/// Actor `i` moves for `elapsed` time (negative: backwards) in direction `(fx, fy)`.
pub open spec fn spec_translate(v: World, w: int, h: int, i: int, elapsed: int, fx: int, fy: int) -> World {
    let a = v.actors[i];
    let dist = (elapsed * MOVE_SPEED_NUM) / (MOVE_SPEED_DEN as int);
    let ddx = (dist * fx) / (UNIT as int);
    let ddy = (dist * fy) / (UNIT as int);
    let left = mark_actor(v.cells, w, h, fl(a.x as int), fl(a.y as int), false);
    let (sx, sy) = slide(left, w, h, v.clipping, a.x as int, a.y as int, ddx, ddy);
    let nx = clamp_pos(sx);
    let ny = clamp_pos(sy);
    World {
        cells: mark_actor(left, w, h, fl(nx as int), fl(ny as int), true),
        actors: v.actors.update(i, Actor { x: nx, y: ny, ..a }),
        ..v
    }
}

/// Actor `i` turns for `elapsed` time (negative: the other way); the angle
/// is wrapped into `[0, 2 pi)`, whatever the size of the turn.
pub open spec fn spec_rotate(v: World, i: int, elapsed: int) -> World {
    let a = v.actors[i];
    let angle = (a.angle + elapsed * ROTATE_SPEED) % (ANGLE_TWO_PI as int);
    World { actors: v.actors.update(i, Actor { angle: angle as i64, ..a }), ..v }
}

/// Every cell advanced by `elapsed`.
pub open spec fn spec_tick(v: World, elapsed: u32) -> World {
    World { cells: Seq::new(v.cells.len(), |i: int| v.cells[i].spec_updated(elapsed)), ..v }
}

/// When the player has come into another cell of the map, it picks up what lies there, if it can.
pub open spec fn spec_pickup(v: World, w: int, h: int) -> World {
    let nx = fl(v.actors[0].x as int);
    let ny = fl(v.actors[0].y as int);
    if (nx != v.player_map_x || ny != v.player_map_y) && in_grid(w, h, nx, ny) {
        let k = cell_index(w, nx, ny);
        let (s, taken) = v.status.spec_consumed(v.cells[k].coll);
        World {
            player_map_x: nx as i32,
            player_map_y: ny as i32,
            status: s,
            cells: if taken {
                v.cells.update(k, MapCell { coll: Collectible::NoItem, ..v.cells[k] })
            } else {
                v.cells
            },
            ..v
        }
    } else {
        v
    }
}

/// The cell one step ahead along the nearest of the four axis directions.
pub open spec fn use_direction(angle: int) -> (int, int) {
    if angle < ANGLE_QUARTER_PI || angle >= ANGLE_SEVEN_QUARTER_PI {
        (1, 0)
    } else if angle < ANGLE_THREE_QUARTER_PI {
        (0, 1)
    } else if angle < ANGLE_FIVE_QUARTER_PI {
        (-1, 0)
    } else {
        (0, -1)
    }
}

/// Whether a sliding wall may enter cell `(x, y)`.
pub open spec fn can_push_at(cells: Seq<MapCell>, w: int, h: int, x: int, y: int) -> bool {
    in_grid(w, h, x, y) && cells[cell_index(w, x, y)].spec_can_push_wall_into()
}

/// A push-wall sliding from `(x, y)` in direction `(dx, dy)`: every cell
/// it passes through becomes a wall in transit, with progress growing by
/// `ONE` per cell so that they clear one after the other; the last cell it
/// can enter becomes a plain wall.
pub open spec fn slide_wall(
    cells: Seq<MapCell>,
    w: int,
    h: int,
    x: int,
    y: int,
    dx: int,
    dy: int,
    area: u16,
    tex: u16,
    progress: int,
    fuel: nat,
) -> Seq<MapCell>
    decreases fuel,
{
    let k = cell_index(w, x, y);
    if fuel > 0 && can_push_at(cells, w, h, x + dx, y + dy) {
        slide_wall(
            cells.update(k, started(cells[k], area, tex, progress as u32)),
            w,
            h,
            x + dx,
            y + dy,
            dx,
            dy,
            area,
            tex,
            progress + ONE,
            (fuel - 1) as nat,
        )
    } else {
        cells.update(k, ended(cells[k], tex))
    }
}

/// The notice for a door whose key the player lacks.
pub open spec fn lock_note(key: u8) -> Notification {
    if key == 1 {
        Notification::LockNeedsGoldKey
    } else if key == 2 {
        Notification::LockNeedsSilverKey
    } else {
        Notification::LockNoKeyAvailable
    }
}

pub open spec fn max_side(w: int, h: int) -> int {
    if w > h {
        w
    } else {
        h
    }
}

/// The player uses what is in front of it: a push-wall at rest with room
/// behind it starts sliding (a secret found); a door opens or closes if the player
/// has its key, else the lock is reported.
pub open spec fn spec_use(v: World, w: int, h: int) -> (World, Option<Notification>) {
    let p = v.actors[0];
    let (dx, dy) = use_direction(p.angle as int);
    spec_use_at(v, w, h, fl(p.x as int) + dx, fl(p.y as int) + dy, dx, dy)
}

/// Using cell `(cx, cy)`, reached in direction `(dx, dy)`.
pub open spec fn spec_use_at(v: World, w: int, h: int, cx: int, cy: int, dx: int, dy: int) -> (World, Option<Notification>) {
    if !in_grid(w, h, cx, cy) {
        (v, None)
    } else {
        let k = cell_index(w, cx, cy);
        let cell = v.cells[k];
        if cell.push_wall && !(cell.state is Pushing) && can_push_at(v.cells, w, h, cx + dx, cy + dy) {
            let area = if in_grid(w, h, cx - dx, cy - dy) {
                v.cells[cell_index(w, cx - dx, cy - dy)].spec_get_area()
            } else {
                0
            };
            let tex = cell.spec_get_texture() as u16;
            (World {
                cells: slide_wall(v.cells, w, h, cx, cy, dx, dy, area, tex, ONE as int, max_side(w, h) as nat),
                status: GameStatus { cnt_secrets: capped_add(v.status.cnt_secrets, 1), ..v.status },
                ..v
            }, Some(Notification::FoundSecret))
        } else if v.status.spec_has_key(cell.spec_get_door_key_type()) {
            (World { cells: v.cells.update(k, cell.spec_activated()), ..v }, None)
        } else {
            (v, Some(lock_note(cell.spec_get_door_key_type())))
        }
    }
}

/// Using a cell credits at most one secret: exactly one when a push-wall
/// starts sliding, none otherwise; no other part of the status changes.
/// Using a wall that is already sliding credits nothing.
pub proof fn lemma_use_counts_one_secret(v: World, w: int, h: int)
    requires
        v.status.cnt_secrets < i32::MAX,
    ensures
        spec_use(v, w, h).1 == Some(Notification::FoundSecret) ==> spec_use(v, w, h).0.status == (GameStatus {
            cnt_secrets: (v.status.cnt_secrets + 1) as i32,
            ..v.status
        }),
        spec_use(v, w, h).1 != Some(Notification::FoundSecret) ==> spec_use(v, w, h).0.status == v.status,
        ({
            let p = v.actors[0];
            let (dx, dy) = use_direction(p.angle as int);
            let cx = fl(p.x as int) + dx;
            let cy = fl(p.y as int) + dy;
            in_grid(w, h, cx, cy) && v.cells[cell_index(w, cx, cy)].state is Pushing ==> spec_use(v, w, h).0.status == v.status
        }),
{
}

/// Frame ticks move doors and walls only: the status stays as it is.
pub proof fn lemma_tick_keeps_status(v: World, elapsed: u32)
    ensures
        spec_tick(v, elapsed).status == v.status,
{
}

/// Cells left before the edge of the map, from `(x, y)` in direction `(dx, dy)`.
pub open spec fn room_ahead(w: int, h: int, x: int, y: int, dx: int, dy: int) -> int {
    if dx == 1 {
        w - x
    } else if dx == -1 {
        x + 1
    } else if dy == 1 {
        h - y
    } else {
        y + 1
    }
}

pub open spec fn unit_step(dx: int, dy: int) -> bool {
    (dx == 0 && (dy == 1 || dy == -1)) || (dy == 0 && (dx == 1 || dx == -1))
}

/// The status after counting the secrets and treasures of `cells`.
pub open spec fn floor_totals(s: GameStatus, cells: Seq<MapCell>) -> GameStatus
    decreases cells.len(),
{
    if cells.len() == 0 {
        s
    } else {
        floor_totals(s, cells.drop_last()).spec_read_cell(cells.last())
    }
}

pub open spec fn has_player(things: Seq<u16>) -> bool {
    exists|i: int| 0 <= i < things.len() && is_player_start(#[trigger] things[i])
}

/// A floor that can be played: well formed, every tile known, a player start.
pub open spec fn map_ok(m: MapData) -> bool {
    m.wf() && all_tiles_known(m.tiles@) && has_player(m.things@)
}

pub open spec fn maps_ok(maps: Seq<MapData>) -> bool {
    forall|i: int| 0 <= i < maps.len() ==> map_ok(#[trigger] maps[i])
}

/// Whether a floor can be played: 64 x 64, known tiles, a player start.
pub fn map_is_playable(m: &MapData) -> (r: bool)
    ensures
        r == map_ok(*m),
{
    if m.width != 64 || m.height != 64 || m.tiles.len() != 4096 || m.things.len() != 4096
        || m.name.as_str().unicode_len() == 0 {
        return false;
    }
    let mut i: usize = 0;
    let mut player = false;
    while i < 4096
        invariant
            m.tiles@.len() == 4096,
            m.things@.len() == 4096,
            0 <= i <= 4096,
            forall|k: int| 0 <= k < i ==> #[trigger] m.tiles@[k] <= 0xFF && m.things@[k] <= 0x1FF
                && is_known_tile(m.tiles@[k]),
            player <==> exists|k: int| 0 <= k < i && is_player_start(#[trigger] m.things@[k]),
        decreases 4096 - i,
    {
        let t = m.tiles[i];
        let th = m.things[i];
        if t > 0xFF || th > 0x1FF || !tile_is_known(t) {
            return false;
        }
        if 19 <= th && th <= 22 {
            player = true;
        }
        proof {
            if player && !is_player_start(th) {
                let k = choose|k: int| 0 <= k < i && is_player_start(#[trigger] m.things@[k]);
                assert(0 <= k < i + 1 && is_player_start(m.things@[k]));
            }
            if is_player_start(th) {
                assert(is_player_start(m.things@[i as int]));
            }
        }
        i += 1;
    }
    proof {
        assert(m.tiles@.len() == 4096);
        assert forall|k: int| 0 <= k < 4096 implies m.tiles@[k] <= 0xFF by {
            assert(m.tiles@[k] <= 0xFF && m.things@[k] <= 0x1FF && is_known_tile(m.tiles@[k]));
        }
        assert forall|k: int| 0 <= k < 4096 implies m.things@[k] <= 0x1FF by {
            assert(m.tiles@[k] <= 0xFF && m.things@[k] <= 0x1FF && is_known_tile(m.tiles@[k]));
        }
        assert forall|k: int| 0 <= k < m.tiles@.len() implies is_known_tile(#[trigger] m.tiles@[k]) by {
            assert(m.tiles@[k] <= 0xFF && m.things@[k] <= 0x1FF && is_known_tile(m.tiles@[k]));
        }
    }
    player
}

/// A grid with a player start spawns a player.
pub proof fn lemma_spawned_nonempty(things: Seq<u16>, w: int, n: int, j: int)
    requires
        0 <= j < n <= things.len(),
        is_player_start(things[j]),
    ensures
        spawned(things, w, n).len() > 0,
    decreases n,
{
    if j < n - 1 && !is_player_start(things[n - 1]) {
        lemma_spawned_nonempty(things, w, n - 1, j);
    }
}

/// Spawned actors stand at cell centers of the grid, facing a right angle.
pub proof fn lemma_spawned_ok(things: Seq<u16>, w: int, h: int, n: int)
    requires
        0 < w <= 65535,
        0 < h <= 65535,
        0 <= n <= w * h,
        n <= things.len(),
    ensures
        actors_ok(spawned(things, w, n)),
        spawned(things, w, n).len() <= n,
    decreases n,
{
    if n > 0 {
        lemma_spawned_ok(things, w, h, n - 1);
        let i = n - 1;
        assert(i / w < h && i % w < w && i / w >= 0 && i % w >= 0) by (nonlinear_arith)
            requires 0 <= i < w * h, w > 0;
        lemma_mul_bound(i % w, UNIT as int, 65535, UNIT as int);
        lemma_mul_bound(i / w, UNIT as int, 65535, UNIT as int);
        assert(actor_ok(spawn(w, i, things[i])));
        let prev = spawned(things, w, n - 1);
        assert forall|k: int| 0 <= k < spawned(things, w, n).len() implies actor_ok(#[trigger] spawned(things, w, n)[k]) by {
            if is_player_start(things[i]) && prev.len() > 0 {
                if k > 0 && k < prev.len() {
                    assert(actor_ok(prev[k]));
                }
                assert(actor_ok(prev[0]));
            }
            if !is_player_start(things[i]) {
                assert(actor_ok(prev[k]));
            }
        }
    }
}

/// The name a floor is shown with.
pub open spec fn floor_name(floor: u8) -> Seq<char> {
    if floor == 9 {
        "Secret floor"@
    } else if floor == 8 {
        "Final floor"@
    } else {
        "floor "@ + dec_text(floor + 1)
    }
}

/// "name - ep. N, floor name".
pub open spec fn description_text(name: Seq<char>, episode: u8, floor: u8) -> Seq<char> {
    name + " - ep. "@ + dec_text(episode + 1) + ", "@ + floor_name(floor)
}

/// What the player asks for in one frame. `facing_x` and `facing_y` are the
/// cosine and sine of the player's angle (fixed-point).
#[derive(Clone, Copy, PartialEq, Eq, Structural, Debug)]
pub struct FrameInput {
    pub weapon: Option<u8>,
    pub use_pressed: bool,
    pub fire: bool,
    pub forward: bool,
    pub backward: bool,
    pub strafe_left: bool,
    pub strafe_right: bool,
    pub turn_left: bool,
    pub turn_right: bool,
    pub toggle_clipping: bool,
    pub give_stuff: bool,
    pub take_damage: bool,
    pub facing_x: i64,
    pub facing_y: i64,
}

pub open spec fn input_ok(i: FrameInput) -> bool {
    (i.weapon matches Some(wp) ==> wp <= 3) && -UNIT <= i.facing_x <= UNIT && -UNIT <= i.facing_y <= UNIT
}

/// Weapon choice, use, fire and moves of one frame.
pub open spec fn spec_commands(v: World, w: int, h: int, inp: FrameInput, e: int) -> (World, Option<Notification>) {
    let s1 = match inp.weapon {
        Some(wp) => World { status: v.status.spec_weapon_selected(wp as i32), ..v },
        None => v,
    };
    let (s2, note) = if inp.use_pressed {
        spec_use(s1, w, h)
    } else {
        (s1, None)
    };
    let s3 = if inp.fire && s2.status.selected_weapon != 0 {
        World { status: s2.status.spec_ammo_consumed(), ..s2 }
    } else {
        s2
    };
    let (fx, fy) = (inp.facing_x as int, inp.facing_y as int);
    let s4 = if inp.forward {
        spec_translate(s3, w, h, 0, e, fx, fy)
    } else if inp.backward {
        spec_translate(s3, w, h, 0, -e, fx, fy)
    } else {
        s3
    };
    let s5 = if inp.strafe_left {
        spec_translate(s4, w, h, 0, e, fy, -fx)
    } else if inp.strafe_right {
        spec_translate(s4, w, h, 0, e, -fy, fx)
    } else {
        s4
    };
    let s6 = if inp.turn_left {
        spec_rotate(s5, 0, -e)
    } else if inp.turn_right {
        spec_rotate(s5, 0, e)
    } else {
        s5
    };
    (s6, note)
}

/// One frame: the commands, then every cell ticks, then the pickup, then the debug keys.
pub open spec fn spec_frame(v: World, w: int, h: int, inp: FrameInput, e: u32) -> (World, Option<Notification>) {
    let (s6, note) = spec_commands(v, w, h, inp, e as int);
    let s8 = spec_pickup(spec_tick(s6, e), w, h);
    let s9 = if inp.toggle_clipping {
        World { clipping: !s8.clipping, ..s8 }
    } else {
        s8
    };
    let s10 = if inp.give_stuff {
        World { status: s9.status.spec_given_stuff(), ..s9 }
    } else {
        s9
    };
    let s11 = if inp.take_damage {
        World { status: s10.status.spec_health_updated(-10i32), ..s10 }
    } else {
        s10
    };
    (s11, note)
}

/// Loads a grid into cells and actors, and counts its totals into `status`.
fn load_floor(tiles: &Vec<u16>, things: &Vec<u16>, width: u16, height: u16, is_sod: bool, status: GameStatus, floor: u8) -> (r: (Vec<MapCell>, Vec<Actor>, GameStatus))
    requires
        0 < width,
        0 < height,
        tiles@.len() == width * height,
        things@.len() == width * height,
        all_tiles_known(tiles@),
        has_player(things@),
        status.wf(),
    ensures
        r.0@.len() == width * height,
        forall|i: int| 0 <= i < width * height ==> #[trigger] r.0@[i] == classified_cell(tiles@[i], things@[i], is_sod),
        r.1@ == spawned(things@, width as int, width * height),
        r.1@.len() > 0,
        actors_ok(r.1@),
        r.2.wf(),
        r.2 == floor_totals(status.spec_floor_set(floor as i32, (r.1@.len() - 1) as i32), r.0@),
{
    proof {
        lemma_mul_bound(width as int, height as int, 65535, 65535);
        let j = choose|j: int| 0 <= j < things@.len() && is_player_start(#[trigger] things@[j]);
        lemma_spawned_nonempty(things@, width as int, width * height, j);
        lemma_spawned_ok(things@, width as int, height as int, width * height);
    }
    let (cells, actors) = load_grid_to_cells(tiles, things, width as usize, height as usize, is_sod);
    let mut status = status;
    status.set_floor(floor as i32, (actors.len() - 1) as i32);
    let ghost s0 = status;
    let mut i: usize = 0;
    while i < cells.len()
        invariant
            0 <= i <= cells@.len(),
            status.wf(),
            status == floor_totals(s0, cells@.take(i as int)),
        decreases cells@.len() - i,
    {
        proof {
            assert(cells@.take(i + 1).drop_last() =~= cells@.take(i as int));
        }
        status.read_floor_cell(&cells[i]);
        i += 1;
    }
    assert(cells@.take(i as int) =~= cells@);
    (cells, actors, status)
}

/// The game state of one floor.
pub struct LiveMap {
    pub description: String,
    pub episode: u8,
    pub floor: u8,
    pub maps: Vec<MapData>,
    pub is_sod: bool,
    pub cells: Vec<MapCell>,
    pub actors: Vec<Actor>,
    pub width: u16,
    pub height: u16,
    pub status: GameStatus,
    pub clipping_enabled: bool,
    pub secret_floor_return: u8,
    pub player_map_x: i32,
    pub player_map_y: i32,
}

impl View for LiveMap {
    type V = World;

    open spec fn view(&self) -> World {
        World {
            cells: self.cells@,
            actors: self.actors@,
            status: self.status,
            clipping: self.clipping_enabled,
            player_map_x: self.player_map_x,
            player_map_y: self.player_map_y,
        }
    }
}

/// Position within the coordinate limits, angle in `[0, 2 pi)`.
pub open spec fn actor_ok(a: Actor) -> bool {
    -POS_LIMIT <= a.x <= POS_LIMIT && -POS_LIMIT <= a.y <= POS_LIMIT && 0 <= a.angle < ANGLE_TWO_PI
}

pub open spec fn actors_ok(actors: Seq<Actor>) -> bool {
    forall|i: int| 0 <= i < actors.len() ==> actor_ok(#[trigger] actors[i])
}

impl LiveMap {
    /// The grid matches its size, the player exists, positions and angles are in range.
    pub open spec fn wf(&self) -> bool {
        &&& 0 < self.width
        &&& 0 < self.height
        &&& self.cells@.len() == self.width * self.height
        &&& self.actors@.len() > 0
        &&& actors_ok(self.actors@)
        &&& self.status.wf()
    }

    pub open spec fn w(&self) -> int {
        self.width as int
    }

    pub open spec fn h(&self) -> int {
        self.height as int
    }

    pub open spec fn same_floor(&self, other: &LiveMap) -> bool {
        &&& self.width == other.width
        &&& self.height == other.height
        &&& self.episode == other.episode
        &&& self.floor == other.floor
        &&& self.maps@ == other.maps@
        &&& self.is_sod == other.is_sod
        &&& self.description@ == other.description@
        &&& self.secret_floor_return == other.secret_floor_return
    }

    pub fn width(&self) -> (r: u16)
        ensures
            r == self.width,
    {
        self.width
    }

    pub fn height(&self) -> (r: u16)
        ensures
            r == self.height,
    {
        self.height
    }

    /// Index of cell `(x, y)`, `None` outside the map.
    fn cell_index(&self, x: i64, y: i64) -> (r: Option<usize>)
        requires
            self.cells@.len() == self.width * self.height,
        ensures
            r is Some <==> in_grid(self.w(), self.h(), x as int, y as int),
            r matches Some(k) ==> k < self.cells@.len() && k as int == cell_index(self.w(), x as int, y as int),
    {
        let w = self.width as i64;
        let h = self.height as i64;
        if x >= 0 && x < w && y >= 0 && y < h {
            proof {
                assert(0 <= y * w + x < w * h) by (nonlinear_arith)
                    requires 0 <= x < w, 0 <= y < h;
                lemma_mul_bound(y as int, w as int, 65535, 65535);
            }
            Some((y * w + x) as usize)
        } else {
            None
        }
    }

    /// The cell at `(x, y)`, `None` outside the map.
    pub fn cell(&self, x: i32, y: i32) -> (r: Option<&MapCell>)
        requires
            self.cells@.len() == self.width * self.height,
        ensures
            r == if in_grid(self.w(), self.h(), x as int, y as int) {
                Some(&self.cells@[cell_index(self.w(), x as int, y as int)])
            } else {
                None::<&MapCell>
            },
    {
        match self.cell_index(x as i64, y as i64) {
            Some(k) => Some(&self.cells[k]),
            None => None,
        }
    }

    fn cell_is_solid(&self, x: i64, y: i64) -> (r: bool)
        requires
            self.cells@.len() == self.width * self.height,
        ensures
            r == cell_solid(self.cells@, self.w(), self.h(), x as int, y as int),
    {
        match self.cell_index(x, y) {
            Some(k) => self.cells[k].is_solid(),
            None => true,
        }
    }

    fn mark_actor(&mut self, x: i64, y: i64, present: bool)
        requires
            old(self).cells@.len() == old(self).width * old(self).height,
        ensures
            final(self).cells@ == mark_actor(old(self).cells@, old(self).w(), old(self).h(), x as int, y as int, present),
            final(self).cells@.len() == old(self).cells@.len(),
            final(self).actors == old(self).actors,
            final(self).status == old(self).status,
            final(self).clipping_enabled == old(self).clipping_enabled,
            final(self).player_map_x == old(self).player_map_x,
            final(self).player_map_y == old(self).player_map_y,
            final(self).same_floor(old(self)),
    {
        if let Some(k) = self.cell_index(x, y) {
            let mut c = self.cells[k];
            if present {
                c.actor_entered();
            } else {
                c.actor_left();
            }
            self.cells.set(k, c);
        }
    }

    /// Moves actor `actor_idx` for `elapsed` time (negative: backwards) in
    /// direction `(dir_x, dir_y)` (a fixed-point unit vector).
    pub fn translate_actor(&mut self, actor_idx: usize, elapsed: i64, dir_x: i64, dir_y: i64)
        requires
            old(self).wf(),
            actor_idx < old(self).actors@.len(),
            -0x1_0000_0000 <= elapsed <= 0x1_0000_0000,
            -UNIT <= dir_x <= UNIT,
            -UNIT <= dir_y <= UNIT,
        ensures
            final(self).wf(),
            final(self).same_floor(old(self)),
            final(self)@ == spec_translate(old(self)@, old(self).w(), old(self).h(), actor_idx as int, elapsed as int, dir_x as int, dir_y as int),
    {
        let dist = floor_div(elapsed * MOVE_SPEED_NUM, MOVE_SPEED_DEN);
        proof {
            assert(-0x5_0000_0000 <= dist <= 0x5_0000_0000) by (nonlinear_arith)
                requires dist == (elapsed * MOVE_SPEED_NUM) / (MOVE_SPEED_DEN as int),
                    -0x1_0000_0000 <= elapsed <= 0x1_0000_0000;
            assert(-0x5_0000_0000 * UNIT <= dist * dir_x <= 0x5_0000_0000 * UNIT) by (nonlinear_arith)
                requires -0x5_0000_0000 <= dist <= 0x5_0000_0000, -UNIT <= dir_x <= UNIT;
            assert(-0x5_0000_0000 * UNIT <= dist * dir_y <= 0x5_0000_0000 * UNIT) by (nonlinear_arith)
                requires -0x5_0000_0000 <= dist <= 0x5_0000_0000, -UNIT <= dir_y <= UNIT;
        }
        let delta_x = floor_div(dist * dir_x, UNIT);
        let delta_y = floor_div(dist * dir_y, UNIT);
        proof {
            assert(-0x5_0000_0000 <= delta_x <= 0x5_0000_0000) by (nonlinear_arith)
                requires delta_x == (dist * dir_x) / (UNIT as int),
                    -0x5_0000_0000 * UNIT <= dist * dir_x <= 0x5_0000_0000 * UNIT;
            assert(-0x5_0000_0000 <= delta_y <= 0x5_0000_0000) by (nonlinear_arith)
                requires delta_y == (dist * dir_y) / (UNIT as int),
                    -0x5_0000_0000 * UNIT <= dist * dir_y <= 0x5_0000_0000 * UNIT;
        }
        let a = self.actors[actor_idx];
        assert(actor_ok(self.actors@[actor_idx as int]));
        let old_x = a.x;
        let old_y = a.y;
        let mut upd_x = old_x + delta_x;
        let mut upd_y = old_y + delta_y;
        let ghost v0 = self@;
        // take the actor out first, so that it does not block itself
        self.mark_actor(floor_div(old_x, UNIT), floor_div(old_y, UNIT), false);
        let ghost left = self.cells@;
        if self.clipping_enabled {
            let ix = floor_div(upd_x, UNIT);
            let iy = floor_div(upd_y, UNIT);
            let sx: i64 = if delta_x > 0 { 1 } else if delta_x < 0 { -1 } else { 0 };
            let sy: i64 = if delta_y > 0 { 1 } else if delta_y < 0 { -1 } else { 0 };
            let fwd_x = floor_div(upd_x + MIN_DISTANCE_TO_WALL * sx, UNIT);
            let fwd_y = floor_div(upd_y + MIN_DISTANCE_TO_WALL * sy, UNIT);
            let block_x = self.cell_is_solid(fwd_x, iy);
            let block_y = self.cell_is_solid(ix, fwd_y);
            if !block_x && !block_y && self.cell_is_solid(fwd_x, fwd_y) {
                // cancel the smaller movement, to slide along the wall
                let ax = if delta_x < 0 { -delta_x } else { delta_x };
                let ay = if delta_y < 0 { -delta_y } else { delta_y };
                if ax < ay {
                    upd_x = old_x;
                } else {
                    upd_y = old_y;
                }
            } else {
                if block_x {
                    upd_x = old_x;
                }
                if block_y {
                    upd_y = old_y;
                }
            }
        }
        assert((upd_x as int, upd_y as int) == slide(left, self.w(), self.h(), self.clipping_enabled, old_x as int, old_y as int, delta_x as int, delta_y as int));
        let nx = if upd_x < -POS_LIMIT { -POS_LIMIT } else if upd_x > POS_LIMIT { POS_LIMIT } else { upd_x };
        let ny = if upd_y < -POS_LIMIT { -POS_LIMIT } else if upd_y > POS_LIMIT { POS_LIMIT } else { upd_y };
        self.mark_actor(floor_div(nx, UNIT), floor_div(ny, UNIT), true);
        self.actors.set(actor_idx, Actor { x: nx, y: ny, ..a });
        proof {
            assert(self@ =~= spec_translate(v0, self.w(), self.h(), actor_idx as int, elapsed as int, dir_x as int, dir_y as int));
            assert(actors_ok(self.actors@)) by {
                assert forall|i: int| 0 <= i < self.actors@.len() implies actor_ok(#[trigger] self.actors@[i]) by {
                    if i != actor_idx {
                        assert(self.actors@[i] == v0.actors[i]);
                    }
                }
            }
        }
    }

    /// Turns actor `actor_idx` for `elapsed` time (negative: the other way).
    pub fn rotate_actor(&mut self, actor_idx: usize, elapsed: i64)
        requires
            old(self).wf(),
            actor_idx < old(self).actors@.len(),
            -0x100_0000_0000 <= elapsed <= 0x100_0000_0000,
        ensures
            final(self).wf(),
            final(self).same_floor(old(self)),
            final(self)@ == spec_rotate(old(self)@, actor_idx as int, elapsed as int),
    {
        let a = self.actors[actor_idx];
        assert(actor_ok(self.actors@[actor_idx as int]));
        let ghost v0 = self@;
        let t = a.angle + elapsed * ROTATE_SPEED;
        let turns = floor_div(t, ANGLE_TWO_PI);
        proof {
            vstd::arithmetic::div_mod::lemma_fundamental_div_mod(t as int, ANGLE_TWO_PI as int);
            assert(-0x100_0000_0000 <= turns <= 0x100_0000_0000) by (nonlinear_arith)
                requires turns == (t as int) / (ANGLE_TWO_PI as int), -0x300_0000_0000 <= t <= 0x300_0000_0000;
        }
        let angle = t - turns * ANGLE_TWO_PI;
        self.actors.set(actor_idx, Actor { angle, ..a });
        proof {
            assert(self@ =~= spec_rotate(v0, actor_idx as int, elapsed as int));
            assert(actors_ok(self.actors@)) by {
                assert forall|i: int| 0 <= i < self.actors@.len() implies actor_ok(#[trigger] self.actors@[i]) by {
                    if i != actor_idx {
                        assert(self.actors@[i] == v0.actors[i]);
                    }
                }
            }
        }
    }

    /// Advances every door and push-wall by `elapsed`.
    pub fn update_cells(&mut self, elapsed: u32)
        requires
            old(self).wf(),
        ensures
            final(self).wf(),
            final(self).same_floor(old(self)),
            final(self)@ == spec_tick(old(self)@, elapsed),
    {
        let ghost v0 = self@;
        let mut i: usize = 0;
        while i < self.cells.len()
            invariant
                self.wf(),
                self.same_floor(old(self)),
                self.cells@.len() == v0.cells.len(),
                self.actors@ == v0.actors,
                self.status == v0.status,
                self.clipping_enabled == v0.clipping,
                self.player_map_x == v0.player_map_x,
                self.player_map_y == v0.player_map_y,
                v0 == old(self)@,
                0 <= i <= self.cells@.len(),
                forall|k: int| 0 <= k < i ==> self.cells@[k] == v0.cells[k].spec_updated(elapsed),
                forall|k: int| i <= k < self.cells@.len() ==> self.cells@[k] == v0.cells[k],
            decreases self.cells@.len() - i,
        {
            let mut c = self.cells[i];
            c.update_state(elapsed);
            self.cells.set(i, c);
            i += 1;
        }
        assert(self@ =~= spec_tick(v0, elapsed));
    }

    /// Picks up what lies in the player's cell, once per cell entered.
    fn update_player(&mut self)
        requires
            old(self).wf(),
        ensures
            final(self).wf(),
            final(self).same_floor(old(self)),
            final(self)@ == spec_pickup(old(self)@, old(self).w(), old(self).h()),
    {
        let ghost v0 = self@;
        let p = self.actors[0];
        let new_x = floor_div(p.x, UNIT);
        let new_y = floor_div(p.y, UNIT);
        if new_x != self.player_map_x as i64 || new_y != self.player_map_y as i64 {
            if let Some(k) = self.cell_index(new_x, new_y) {
                self.player_map_x = new_x as i32;
                self.player_map_y = new_y as i32;
                let consumable = self.cells[k].collectible();
                if self.status.try_consume(consumable) {
                    let mut c = self.cells[k];
                    c.remove_collectible();
                    self.cells.set(k, c);
                }
                assert(self@ =~= spec_pickup(v0, self.w(), self.h()));
            }
        }
    }

    /// Slides the push-wall at `(x0, y0)` in direction `(dx, dy)`.
    fn push_wall_from(&mut self, x0: i64, y0: i64, dx: i64, dy: i64, area: u16, tex: u16)
        requires
            old(self).wf(),
            in_grid(old(self).w(), old(self).h(), x0 as int, y0 as int),
            unit_step(dx as int, dy as int),
        ensures
            final(self).wf(),
            final(self).same_floor(old(self)),
            final(self)@ == (World {
                cells: slide_wall(old(self).cells@, old(self).w(), old(self).h(), x0 as int, y0 as int, dx as int, dy as int, area, tex, ONE as int, max_side(old(self).w(), old(self).h()) as nat),
                ..old(self)@
            }),
    {
        let ghost w = self.w();
        let ghost h = self.h();
        let ghost target = slide_wall(self.cells@, w, h, x0 as int, y0 as int, dx as int, dy as int, area, tex, ONE as int, max_side(w, h) as nat);
        let ghost v0 = self@;
        let mut x = x0;
        let mut y = y0;
        let mut progress: u32 = ONE;
        let ghost mut fuel: nat = max_side(w, h) as nat;
        loop
            invariant
                self.wf(),
                self.same_floor(old(self)),
                w == self.w(),
                h == self.h(),
                w <= 65535,
                h <= 65535,
                self.actors == old(self).actors,
                self.status == old(self).status,
                self.clipping_enabled == old(self).clipping_enabled,
                self.player_map_x == old(self).player_map_x,
                self.player_map_y == old(self).player_map_y,
                v0 == old(self)@,
                target == slide_wall(old(self).cells@, old(self).w(), old(self).h(), x0 as int, y0 as int, dx as int, dy as int, area, tex, ONE as int, max_side(old(self).w(), old(self).h()) as nat),
                unit_step(dx as int, dy as int),
                in_grid(w, h, x as int, y as int),
                fuel >= room_ahead(w, h, x as int, y as int, dx as int, dy as int),
                fuel <= max_side(w, h),
                progress == ONE * (max_side(w, h) - fuel + 1),
                slide_wall(self.cells@, w, h, x as int, y as int, dx as int, dy as int, area, tex, progress as int, fuel) == target,
            decreases room_ahead(w, h, x as int, y as int, dx as int, dy as int),
        {
            let k = self.cell_index(x, y).unwrap();
            let next = self.cell_index(x + dx, y + dy);
            let go_on = match next {
                Some(n) => self.cells[n].can_push_wall_into(),
                None => false,
            };
            assert(go_on == can_push_at(self.cells@, w, h, x + dx, y + dy));
            if go_on {
                proof {
                    assert(ONE * (max_side(w, h) - fuel + 1) <= ONE * 65534) by (nonlinear_arith)
                        requires fuel >= 2, max_side(w, h) <= 65535;
                }
                let mut c = self.cells[k];
                c.start_push_wall(area, tex, progress);
                self.cells.set(k, c);
                progress = progress + ONE;
                x = x + dx;
                y = y + dy;
                proof {
                    fuel = (fuel - 1) as nat;
                }
            } else {
                let mut c = self.cells[k];
                c.end_push_wall(tex);
                self.cells.set(k, c);
                assert(self.cells@ == target);
                assert(self@ =~= (World { cells: target, ..v0 }));
                return;
            }
        }
    }

    /// The player uses the cell in front of it; returns what the player is told.
    pub fn perform_use(&mut self) -> (r: Option<Notification>)
        requires
            old(self).wf(),
        ensures
            final(self).wf(),
            final(self).same_floor(old(self)),
            (final(self)@, r) == spec_use(old(self)@, old(self).w(), old(self).h()),
    {
        let p = self.actors[0];
        assert(actor_ok(self.actors@[0]));
        let (dx, dy): (i64, i64) = if p.angle < ANGLE_QUARTER_PI || p.angle >= ANGLE_SEVEN_QUARTER_PI {
            (1, 0)
        } else if p.angle < ANGLE_THREE_QUARTER_PI {
            (0, 1)
        } else if p.angle < ANGLE_FIVE_QUARTER_PI {
            (-1, 0)
        } else {
            (0, -1)
        };
        let cx = floor_div(p.x, UNIT) + dx;
        let cy = floor_div(p.y, UNIT) + dy;
        self.use_cell(cx, cy, dx, dy)
    }

    /// Starts the push-wall at `(cx, cy)` sliding and counts the secret.
    fn start_secret(&mut self, cx: i64, cy: i64, dx: i64, dy: i64)
        requires
            old(self).wf(),
            unit_step(dx as int, dy as int),
            in_grid(old(self).w(), old(self).h(), cx as int, cy as int),
            -0x1_0000_0000 <= cx <= 0x1_0000_0000,
            -0x1_0000_0000 <= cy <= 0x1_0000_0000,
        ensures
            final(self).wf(),
            final(self).same_floor(old(self)),
            ({
                let v = old(self)@;
                let w = old(self).w();
                let h = old(self).h();
                let cell = v.cells[cell_index(w, cx as int, cy as int)];
                let area = if in_grid(w, h, cx - dx, cy - dy) {
                    v.cells[cell_index(w, cx - dx, cy - dy)].spec_get_area()
                } else {
                    0
                };
                final(self)@ == (World {
                    cells: slide_wall(v.cells, w, h, cx as int, cy as int, dx as int, dy as int, area, cell.spec_get_texture() as u16, ONE as int, max_side(w, h) as nat),
                    status: GameStatus { cnt_secrets: capped_add(v.status.cnt_secrets, 1), ..v.status },
                    ..v
                })
            }),
    {
        let ghost v0 = self@;
        let k = self.cell_index(cx, cy).unwrap();
        let tex = self.cells[k].get_texture() as u16;
        let area = match self.cell_index(cx - dx, cy - dy) {
            Some(b) => self.cells[b].get_area(),
            None => 0,
        };
        self.push_wall_from(cx, cy, dx, dy, area, tex);
        self.status.found_secret();
        assert(self@ =~= (World {
            cells: slide_wall(v0.cells, self.w(), self.h(), cx as int, cy as int, dx as int, dy as int, area, tex, ONE as int, max_side(self.w(), self.h()) as nat),
            status: GameStatus { cnt_secrets: capped_add(v0.status.cnt_secrets, 1), ..v0.status },
            ..v0
        }));
    }

    fn use_cell(&mut self, cx: i64, cy: i64, dx: i64, dy: i64) -> (r: Option<Notification>)
        requires
            old(self).wf(),
            unit_step(dx as int, dy as int),
            -0x1_0000_0000 <= cx <= 0x1_0000_0000,
            -0x1_0000_0000 <= cy <= 0x1_0000_0000,
        ensures
            final(self).wf(),
            final(self).same_floor(old(self)),
            (final(self)@, r) == spec_use_at(old(self)@, old(self).w(), old(self).h(), cx as int, cy as int, dx as int, dy as int),
    {
        let ghost v0 = self@;
        match self.cell_index(cx, cy) {
            None => None,
            Some(k) => {
                let cell = self.cells[k];
                let room = match self.cell_index(cx + dx, cy + dy) {
                    Some(n) => self.cells[n].can_push_wall_into(),
                    None => false,
                };
                let resting = !matches!(cell.state, CellState::Pushing { .. });
                if cell.is_push_wall() && resting && room {
                    self.start_secret(cx, cy, dx, dy);
                    Some(Notification::FoundSecret)
                } else {
                    let key = cell.get_door_key_type();
                    if self.status.has_key(key) {
                        let mut c = cell;
                        c.activate_door_or_elevator(dx as i32, dy as i32);
                        self.cells.set(k, c);
                        assert(self@ =~= spec_use_at(v0, self.w(), self.h(), cx as int, cy as int, dx as int, dy as int).0);
                        None
                    } else if key == 1 {
                        Some(Notification::LockNeedsGoldKey)
                    } else if key == 2 {
                        Some(Notification::LockNeedsSilverKey)
                    } else {
                        Some(Notification::LockNoKeyAvailable)
                    }
                }
            },
        }
    }

    /// Floor bookkeeping: the levels of the game, the current one, and the
    /// floor to return to after the secret floor.
    pub open spec fn floors_ok(&self) -> bool {
        &&& maps_ok(self.maps@)
        &&& self.episode * 10 + 10 <= self.maps@.len()
        &&& self.floor <= 9
        &&& self.secret_floor_return <= 9
    }

    /// Sets up the current floor from the level list.
    fn floor_has_changed(&mut self)
        requires
            old(self).floors_ok(),
            old(self).status.wf(),
        ensures
            final(self).wf(),
            final(self).floors_ok(),
            final(self).width == 64,
            final(self).height == 64,
            final(self).description@ == description_text(
                old(self).maps@[old(self).episode * 10 + old(self).floor].name@,
                old(self).episode,
                old(self).floor,
            ),
            ({
                let m = old(self).maps@[old(self).episode * 10 + old(self).floor];
                &&& forall|i: int| 0 <= i < 4096 ==> #[trigger] final(self).cells@[i] == classified_cell(m.tiles@[i], m.things@[i], old(self).is_sod)
                &&& final(self).actors@ == spawned(m.things@, 64, 4096)
            }),
            final(self).status == floor_totals(old(self).status.spec_floor_set(old(self).floor as i32, (final(self).actors@.len() - 1) as i32), final(self).cells@),
            final(self).player_map_x == -1,
            final(self).player_map_y == -1,
            final(self).clipping_enabled == old(self).clipping_enabled,
            final(self).maps == old(self).maps,
            final(self).episode == old(self).episode,
            final(self).floor == old(self).floor,
            final(self).is_sod == old(self).is_sod,
            final(self).secret_floor_return == old(self).secret_floor_return,
    {
        let idx = (self.episode as usize) * 10 + (self.floor as usize);
        assert(map_ok(self.maps@[idx as int]));
        let mut description = String::new();
        description.append(self.maps[idx].name.as_str());
        description.append(" - ep. ");
        description.append(decimal(self.episode as i32 + 1).as_str());
        description.append(", ");
        if self.floor == 9 {
            description.append("Secret floor");
        } else if self.floor == 8 {
            description.append("Final floor");
        } else {
            description.append("floor ");
            description.append(decimal(self.floor as i32 + 1).as_str());
        }
        proof {
            reveal_strlit(" - ep. ");
            reveal_strlit(", ");
            reveal_strlit("floor ");
        }
        assert(description@ =~= description_text(self.maps@[idx as int].name@, self.episode, self.floor));
        self.description = description;
        let (cells, actors, status) = load_floor(&self.maps[idx].tiles, &self.maps[idx].things, 64, 64, self.is_sod, self.status, self.floor);
        self.cells = cells;
        self.actors = actors;
        self.status = status;
        self.width = 64;
        self.height = 64;
        self.player_map_x = -1;
        self.player_map_y = -1;
    }

    /// The game at the first floor of `episode`, from the levels of the game.
    pub fn new(maps: Vec<MapData>, episode: u8, is_sod: bool) -> (r: Self)
        requires
            maps_ok(maps@),
            episode * 10 + 10 <= maps@.len(),
        ensures
            r.wf(),
            r.floors_ok(),
            r.episode == episode,
            r.floor == 0,
            r.maps@ == maps@,
            r.is_sod == is_sod,
            r.clipping_enabled,
            r.description@ == description_text(maps@[episode * 10].name@, episode, 0),
            forall|i: int| 0 <= i < 4096 ==> #[trigger] r.cells@[i] == classified_cell(maps@[episode * 10].tiles@[i], maps@[episode * 10].things@[i], is_sod),
            r.actors@ == spawned(maps@[episode * 10].things@, 64, 4096),
    {
        let mut livemap = LiveMap {
            description: String::new(),
            episode,
            floor: 0,
            maps,
            is_sod,
            cells: Vec::new(),
            actors: Vec::new(),
            width: 0,
            height: 0,
            status: GameStatus::new(0),
            clipping_enabled: true,
            secret_floor_return: 0,
            player_map_x: -1,
            player_map_y: -1,
        };
        livemap.floor_has_changed();
        livemap
    }

    /// A game on a single `width` x `height` grid, given row by row.
    pub fn from_grid(width: u16, height: u16, tiles: Vec<u16>, things: Vec<u16>, is_sod: bool) -> (r: Self)
        requires
            0 < width,
            0 < height,
            tiles@.len() == width * height,
            things@.len() == width * height,
            all_tiles_known(tiles@),
            has_player(things@),
        ensures
            r.wf(),
            r.width == width,
            r.height == height,
            r.clipping_enabled,
            r.player_map_x == -1,
            r.player_map_y == -1,
            forall|i: int| 0 <= i < width * height ==> #[trigger] r.cells@[i] == classified_cell(tiles@[i], things@[i], is_sod),
            r.actors@ == spawned(things@, width as int, width * height),
            r.status == floor_totals(GameStatus::initial(0).spec_floor_set(0, (r.actors@.len() - 1) as i32), r.cells@),
    {
        let (cells, actors, status) = load_floor(&tiles, &things, width, height, is_sod, GameStatus::new(0), 0);
        LiveMap {
            description: String::new(),
            episode: 0,
            floor: 0,
            maps: Vec::new(),
            is_sod,
            cells,
            actors,
            width,
            height,
            status,
            clipping_enabled: true,
            secret_floor_return: 0,
            player_map_x: -1,
            player_map_y: -1,
        }
    }

    /// Goes on to the next floor; after the secret floor, to the floor it was reached from.
    pub fn go_to_next_floor(&mut self)
        requires
            old(self).wf(),
            old(self).floors_ok(),
        ensures
            final(self).wf(),
            final(self).floors_ok(),
            final(self).floor == if old(self).floor >= 9 {
                old(self).secret_floor_return
            } else {
                (old(self).floor + 1) as u8
            },
            final(self).description@ == description_text(
                old(self).maps@[old(self).episode * 10 + final(self).floor].name@,
                old(self).episode,
                final(self).floor,
            ),
            final(self).actors@ == spawned(old(self).maps@[old(self).episode * 10 + final(self).floor].things@, 64, 4096),
    {
        if self.floor >= 9 {
            self.floor = self.secret_floor_return;
        } else {
            self.floor += 1;
        }
        self.floor_has_changed();
    }

    /// Goes to the secret floor, remembering to come back to the floor after this one.
    pub fn go_to_secret_floor(&mut self)
        requires
            old(self).wf(),
            old(self).floors_ok(),
            old(self).floor < 8,
        ensures
            final(self).wf(),
            final(self).floors_ok(),
            final(self).floor == 9,
            final(self).secret_floor_return == old(self).floor + 1,
            final(self).actors@ == spawned(old(self).maps@[old(self).episode * 10 + 9].things@, 64, 4096),
    {
        self.secret_floor_return = self.floor + 1;
        self.floor = 9;
        self.floor_has_changed();
    }

    pub fn get_description(&self) -> (r: &str)
        ensures
            r@ == self.description@,
    {
        self.description.as_str()
    }

    pub fn get_secrets_msg(&self) -> (r: String)
        ensures
            r@ == self.status.secrets_text(),
    {
        self.status.get_secrets_msg()
    }

    /// Plays one frame of `elapsed` time (fixed-point seconds): weapon choice, use, fire, moves and turns, then doors and
    /// push-walls tick and the player picks up what it stands on. Returns
    /// what the player is to be told.
    pub fn handle_inputs(&mut self, inputs: &FrameInput, elapsed: u32) -> (r: Option<Notification>)
        requires
            old(self).wf(),
            input_ok(*inputs),
        ensures
            final(self).wf(),
            final(self).same_floor(old(self)),
            (final(self)@, r) == spec_frame(old(self)@, old(self).w(), old(self).h(), *inputs, elapsed),
    {
        let note = self.apply_commands(inputs, elapsed);
        self.update_cells(elapsed);
        self.update_player();
        if inputs.toggle_clipping {
            self.clipping_enabled = !self.clipping_enabled;
        }
        if inputs.give_stuff {
            self.status._tmp_give_stuff();
        }
        if inputs.take_damage {
            self.status.damage_health(10);
        }
        note
    }

    fn apply_commands(&mut self, inputs: &FrameInput, elapsed: u32) -> (r: Option<Notification>)
        requires
            old(self).wf(),
            input_ok(*inputs),
        ensures
            final(self).wf(),
            final(self).same_floor(old(self)),
            (final(self)@, r) == spec_commands(old(self)@, old(self).w(), old(self).h(), *inputs, elapsed as int),
    {
        if let Some(wp) = inputs.weapon {
            self.status.try_select_weapon(wp as i32);
        }
        let note = if inputs.use_pressed {
            self.perform_use()
        } else {
            None
        };
        if inputs.fire && self.status.get_selected_weapon() != 0 {
            self.status.consume_ammo();
        }
        let e = elapsed as i64;
        let fx = inputs.facing_x;
        let fy = inputs.facing_y;
        if inputs.forward {
            self.translate_actor(0, e, fx, fy);
        } else if inputs.backward {
            self.translate_actor(0, -e, fx, fy);
        }
        if inputs.strafe_left {
            self.translate_actor(0, e, fy, -fx);
        } else if inputs.strafe_right {
            self.translate_actor(0, e, -fy, fx);
        }
        if inputs.turn_left {
            self.rotate_actor(0, -e);
        } else if inputs.turn_right {
            self.rotate_actor(0, e);
        }
        note
    }
}

} // verus!
