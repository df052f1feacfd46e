use rolf3d::mapcell::{CellState, MapCell};
use rolf3d::raycaster::{RayCaster, FAR_AWAY};
use rolf3d::UNIT;

const OPEN: u16 = 107;

fn grid(w: usize, h: usize, special: &[(usize, usize, u16)]) -> Vec<MapCell> {
    let mut cells = Vec::new();
    for y in 0..h {
        for x in 0..w {
            let mut tile = OPEN;
            for &(sx, sy, t) in special {
                if sx == x && sy == y {
                    tile = t;
                }
            }
            cells.push(MapCell::new(tile, 0, false));
        }
    }
    cells
}

#[test]
fn wall_straight_ahead_on_the_grid_line() {
    // 3x3 grid, center-right cell is a wall; player at (0.5, 1.0) facing east
    let cells = grid(3, 3, &[(2, 1, 1)]);
    let mut rc = RayCaster::from_origin(UNIT / 2, UNIT, UNIT, 0, 3, 3);
    let (dist, tex, u) = rc.cast_ray(UNIT, 0, &cells);
    assert_eq!(dist, 3 * UNIT / 2);
    // wall tile 1 has textures 0 (light) and 1 (dark); the X stepper hit shows the dark one
    assert_eq!(tex, 1);
    // y = 1.0 lies on the cell's edge: the offset within the face is 0
    assert_eq!(u, 0);
}

#[test]
fn wall_straight_ahead_through_the_row_center() {
    let cells = grid(3, 3, &[(2, 1, 1)]);
    let mut rc = RayCaster::from_origin(UNIT / 2, 3 * UNIT / 2, UNIT, 0, 3, 3);
    let (dist, tex, u) = rc.cast_ray(UNIT, 0, &cells);
    assert_eq!(dist, 3 * UNIT / 2);
    assert_eq!(tex, 1);
    assert_eq!(u, UNIT / 2);
}

#[test]
fn closed_door_is_solid() {
    // tile 90: a plain door spanning the cell along Y, met by the X stepper at its middle line
    let cells = grid(3, 3, &[(2, 1, 90)]);
    assert_eq!(cells[5].state, CellState::Closed);
    let mut rc = RayCaster::from_origin(UNIT / 2, 3 * UNIT / 2, UNIT, 0, 3, 3);
    let (dist, tex, u) = rc.cast_ray(UNIT, 0, &cells);
    assert_eq!(dist, 2 * UNIT);
    assert_eq!(tex, 99);
    assert_eq!(u, UNIT / 2);
}

#[test]
fn open_door_lets_the_ray_through() {
    let mut cells = grid(3, 3, &[(2, 1, 90)]);
    cells[5].state = CellState::Open { timeout: UNIT as u32 };
    let mut rc = RayCaster::from_origin(UNIT / 2, 3 * UNIT / 2, UNIT, 0, 3, 3);
    assert_eq!(rc.cast_ray(UNIT, 0, &cells), (FAR_AWAY, 0, 0));

    // with a wall behind the open door, the ray goes on to that wall
    let mut cells = grid(4, 3, &[(2, 1, 90), (3, 1, 2)]);
    cells[6].state = CellState::Open { timeout: UNIT as u32 };
    let mut rc = RayCaster::from_origin(UNIT / 2, 3 * UNIT / 2, UNIT, 0, 4, 3);
    assert_eq!(rc.cast_ray(UNIT, 0, &cells), (5 * UNIT / 2, 100, UNIT / 2));
}

#[test]
fn half_open_door_blocks_only_its_closed_part() {
    let mut cells = grid(3, 3, &[(2, 1, 90)]);
    cells[5].state = CellState::Opening { progress: (UNIT / 2) as u32 };
    // at y = 1.75 the door slab still covers the ray
    let mut rc = RayCaster::from_origin(UNIT / 2, 7 * UNIT / 4, UNIT, 0, 3, 3);
    assert_eq!(rc.cast_ray(UNIT, 0, &cells), (2 * UNIT, 99, UNIT / 4));
    // at y = 1.25 the door has slid away
    let mut rc = RayCaster::from_origin(UNIT / 2, 5 * UNIT / 4, UNIT, 0, 3, 3);
    assert_eq!(rc.cast_ray(UNIT, 0, &cells).0, FAR_AWAY);
}

#[test]
fn wall_to_the_south_uses_the_light_texture() {
    let cells = grid(3, 3, &[(1, 2, 3)]);
    let mut rc = RayCaster::from_origin(3 * UNIT / 2, UNIT / 2, 0, UNIT, 3, 3);
    let (dist, tex, u) = rc.cast_ray(0, UNIT, &cells);
    assert_eq!(dist, 3 * UNIT / 2);
    assert_eq!(tex, 4);
    assert_eq!(u, UNIT / 2);
}

#[test]
fn ray_leaving_the_map_reports_far_away() {
    let cells = grid(3, 3, &[]);
    let mut rc = RayCaster::from_origin(UNIT / 2, UNIT / 2, UNIT, 0, 3, 3);
    assert_eq!(rc.cast_ray(UNIT, 0, &cells), (FAR_AWAY, 0, 0));
    // a zero direction stops at once too
    assert_eq!(rc.cast_ray(0, 0, &cells), (FAR_AWAY, 0, 0));
}

#[test]
fn diagonal_ray_terminates_with_a_hit() {
    let cells = grid(3, 3, &[(2, 2, 1)]);
    let mut rc = RayCaster::from_origin(UNIT / 2, UNIT / 2, UNIT, 0, 3, 3);
    let (dist, _, u) = rc.cast_ray(46341, 46341, &cells);
    assert!(dist >= 0 && dist < FAR_AWAY);
    assert!(u >= 0 && u < UNIT);
}

#[test]
fn door_jamb_texture_beside_a_door() {
    // ray starts in a door cell and hits the wall next to it
    let cells = grid(3, 3, &[(1, 1, 91), (2, 1, 1)]);
    let mut rc = RayCaster::from_origin(3 * UNIT / 2, 3 * UNIT / 2, UNIT, 0, 3, 3);
    let (_, tex, _) = rc.cast_ray(UNIT, 0, &cells);
    assert_eq!(tex, 100);
}

#[test]
fn visited_cells_are_sorted_far_to_near_and_unique() {
    let cells = grid(5, 3, &[(4, 1, 1)]);
    let mut rc = RayCaster::from_origin(UNIT / 2, 3 * UNIT / 2, UNIT, 0, 5, 3);
    rc.cast_ray(UNIT, 0, &cells);
    rc.cast_ray(UNIT, 0, &cells);
    let visited = rc.into_visited_cells();
    let idx: Vec<usize> = visited.iter().map(|c| c.idx).collect();
    assert_eq!(idx, vec![9, 8, 7, 6]);
    assert_eq!(visited[0].dist, 4 * UNIT);
    assert_eq!(visited[3].dist, UNIT);
    assert_eq!(visited[0].side, 0);
}

#[test]
fn caster_starts_behind_the_player() {
    let player = rolf3d::mapcell::Actor { thing: 20, x: 2 * UNIT, y: 2 * UNIT, angle: 0 };
    let rc = RayCaster::new(&player, UNIT, 0, 8, 8);
    assert_eq!(rc.origin_x, 2 * UNIT - 3 * UNIT / 8);
    assert_eq!(rc.origin_y, 2 * UNIT);
}

#[test]
fn open_door_cell_is_still_traversed() {
    let mut cells = grid(3, 3, &[(2, 1, 90)]);
    cells[5].state = CellState::Open { timeout: UNIT as u32 };
    let mut rc = RayCaster::from_origin(UNIT / 2, UNIT, UNIT, 0, 3, 3);
    assert_eq!(rc.cast_ray(UNIT, 0, &cells), (FAR_AWAY, 0, 0));
    let idx: Vec<usize> = rc.into_visited_cells().iter().map(|c| c.idx).collect();
    assert_eq!(idx, vec![5, 4]);
}
