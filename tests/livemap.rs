use rolf3d::assets::MapData;
use rolf3d::livemap::{FrameInput, LiveMap};
use rolf3d::mapcell::{CellState, Collectible, MapCell, ONE};
use rolf3d::notifier::Notification;
use rolf3d::UNIT;

const OPEN: u16 = 107;

/// `rows` gives the tile codes row by row; `things` pairs (x, y, thing).
fn level(w: u16, h: u16, rows: &[u16], things: &[(usize, usize, u16)]) -> LiveMap {
    let mut th = vec![0u16; (w as usize) * (h as usize)];
    for &(x, y, t) in things {
        th[y * (w as usize) + x] = t;
    }
    LiveMap::from_grid(w, h, rows.to_vec(), th, false)
}

fn idle() -> FrameInput {
    FrameInput {
        weapon: None,
        use_pressed: false,
        fire: false,
        forward: false,
        backward: false,
        strafe_left: false,
        strafe_right: false,
        turn_left: false,
        turn_right: false,
        toggle_clipping: false,
        give_stuff: false,
        take_damage: false,
        facing_x: UNIT,
        facing_y: 0,
    }
}

#[test]
fn player_spawns_at_cell_center() {
    let map = level(3, 3, &[OPEN; 9], &[(1, 2, 20)]);
    assert_eq!(map.actors.len(), 1);
    assert_eq!(map.actors[0].x, UNIT + UNIT / 2);
    assert_eq!(map.actors[0].y, 2 * UNIT + UNIT / 2);
    assert_eq!(map.actors[0].angle, 0);
    assert!(map.cells[7].has_actor());
}

#[test]
fn diagonal_move_into_corner_slides_along_the_wall() {
    // wall east of the player, open to the south-east diagonal's Y side
    let rows = [
        OPEN, OPEN, OPEN, OPEN,
        OPEN, OPEN, 1,    OPEN,
        OPEN, OPEN, 1,    OPEN,
        OPEN, OPEN, OPEN, OPEN,
    ];
    let mut map = level(4, 4, &rows, &[(1, 1, 20)]);
    map.actors[0].x = 2 * UNIT - UNIT / 2;
    map.actors[0].y = UNIT + UNIT / 2;
    let x0 = map.actors[0].x;
    let y0 = map.actors[0].y;
    // move south-east: (cos, sin) of 45 degrees
    map.translate_actor(0, UNIT / 9, 46341, 46341);
    assert_eq!(map.actors[0].x, x0);
    let expected_dy = ((UNIT / 9) * 9 / 2) * 46341 / UNIT;
    assert_eq!(map.actors[0].y, y0 + expected_dy);
}

#[test]
fn moving_into_a_wall_head_on_stops() {
    let rows = [OPEN, OPEN, 1, OPEN, OPEN, 1, OPEN, OPEN, 1];
    let mut map = level(3, 3, &rows, &[(1, 1, 20)]);
    let x0 = map.actors[0].x;
    map.translate_actor(0, UNIT / 4, UNIT, 0);
    assert_eq!(map.actors[0].x, x0);
    assert!(map.cells[4].has_actor());
}

#[test]
fn free_move_marks_the_new_cell() {
    let mut map = level(3, 3, &[OPEN; 9], &[(0, 1, 20)]);
    // 4.5 tiles per second for 2/9 s: one tile east
    map.translate_actor(0, 2 * UNIT / 9, UNIT, 0);
    assert_eq!(map.actors[0].x, UNIT / 2 + (2 * UNIT / 9) * 9 / 2);
    assert!(!map.cells[3].has_actor());
    assert!(map.cells[4].has_actor());
}

#[test]
fn rotation_wraps_into_one_turn() {
    let mut map = level(3, 3, &[OPEN; 9], &[(1, 1, 20)]);
    map.rotate_actor(0, -UNIT / 2);
    assert_eq!(map.actors[0].angle, 411775 - UNIT);
    map.rotate_actor(0, UNIT / 2);
    assert_eq!(map.actors[0].angle, 0);
}

#[test]
fn push_wall_slides_and_counts_one_secret() {
    // player at (0,1) facing east; push-wall at (1,1); open (2,1), (3,1); wall at (4,1)
    let rows = [
        1,    1, 1,    1,    1,
        OPEN, 5, OPEN, OPEN, 1,
        1,    1, 1,    1,    1,
    ];
    let mut map = level(5, 3, &rows, &[(0, 1, 20), (1, 1, 98)]);
    assert_eq!(map.status.total_secrets, 1);
    let note = map.perform_use();
    assert_eq!(note, Some(Notification::FoundSecret));
    assert_eq!(map.status.cnt_secrets, 1);
    assert_eq!(map.cells[6].state, CellState::Pushing { progress: ONE, area: OPEN });
    assert_eq!(map.cells[7].state, CellState::Pushing { progress: 2 * ONE, area: OPEN });
    assert!(map.cells[8].is_wall() && !map.cells[8].is_push_wall());
    // tick until every wall in transit has cleared
    for _ in 0..3 {
        map.update_cells(ONE);
    }
    assert!(!map.cells[6].is_wall());
    assert_eq!(map.cells[6].tile, OPEN);
    assert!(!map.cells[7].is_wall());
    assert_eq!(map.cells[7].tile, OPEN);
    assert!(map.cells[8].is_wall());
    assert_eq!(map.cells[8].get_texture(), 8);
    assert_eq!(map.status.cnt_secrets, 1);
}

#[test]
fn push_wall_without_room_behind_does_nothing() {
    let rows = [1, 1, 1, OPEN, 5, 1, 1, 1, 1];
    let mut map = level(3, 3, &rows, &[(0, 1, 20), (1, 1, 98)]);
    assert_eq!(map.perform_use(), None);
    assert_eq!(map.status.cnt_secrets, 0);
    assert_eq!(map.cells[4].state, CellState::Idle);
}

#[test]
fn door_opens_and_closes_by_itself() {
    let rows = [1, 1, 1, OPEN, 90, OPEN, 1, 1, 1];
    let mut map = level(3, 3, &rows, &[(0, 1, 20)]);
    assert_eq!(map.perform_use(), None);
    assert_eq!(map.cells[4].state, CellState::Opening { progress: 0 });
    map.update_cells(ONE / 2);
    assert_eq!(map.cells[4].state, CellState::Opening { progress: ONE / 2 });
    map.update_cells(ONE);
    assert_eq!(map.cells[4].state, CellState::Open { timeout: 4 * ONE });
    assert!(!map.cells[4].is_solid());
    map.update_cells(4 * ONE);
    assert_eq!(map.cells[4].state, CellState::Closing { progress: ONE });
    map.update_cells(ONE);
    assert_eq!(map.cells[4].state, CellState::Closed);
}

#[test]
fn locked_door_needs_its_key() {
    let rows = [1, 1, 1, OPEN, 92, OPEN, 1, 1, 1];
    let mut map = level(3, 3, &rows, &[(0, 1, 20)]);
    assert_eq!(map.cells[4].get_door_key_type(), 1);
    assert_eq!(map.perform_use(), Some(Notification::LockNeedsGoldKey));
    assert_eq!(map.cells[4].state, CellState::Closed);
    map.status.has_gold_key = true;
    assert_eq!(map.perform_use(), None);
    assert_eq!(map.cells[4].state, CellState::Opening { progress: 0 });
}

#[test]
fn frame_picks_up_treasure_once() {
    let rows = [OPEN; 9];
    let mut map = level(3, 3, &rows, &[(0, 1, 20), (1, 1, 52)]);
    assert_eq!(map.status.total_treasures, 1);
    let mut input = idle();
    input.forward = true;
    // 2/9 s forward at 4.5 tiles per second: into the next cell
    map.handle_inputs(&input, (2 * ONE) / 9 + 1);
    assert_eq!(map.status.score, 100);
    assert_eq!(map.status.cnt_treasures, 1);
    assert_eq!(map.cells[4].collectible(), Collectible::NoItem);
    assert!(map.status.got_all_treasures());
    assert_eq!(map.get_secrets_msg(), "K: 0/0   S: 0/0   T: 1/1");
}

#[test]
fn frame_turns_and_uses() {
    let rows = [1, 1, 1, OPEN, 90, OPEN, 1, 1, 1];
    let mut map = level(3, 3, &rows, &[(0, 1, 20)]);
    let mut input = idle();
    input.use_pressed = true;
    input.turn_right = true;
    assert_eq!(map.handle_inputs(&input, ONE / 4), None);
    assert_eq!(map.actors[0].angle, (UNIT / 4) * 2);
    // the door was opened, then ticked for the frame
    assert_eq!(map.cells[4].state, CellState::Opening { progress: ONE / 4 });
}

#[test]
fn cell_lookup_outside_the_map_is_none() {
    let map = level(3, 3, &[OPEN; 9], &[(0, 0, 20)]);
    assert!(map.cell(-1, 0).is_none());
    assert!(map.cell(3, 0).is_none());
    assert_eq!(map.cell(2, 2).map(|c: &MapCell| c.tile), Some(OPEN));
}

#[test]
fn other_locks_are_reported() {
    // tile 94: silver key; tile 96: a key the game never hands out
    let rows = [1, 1, 1, OPEN, 94, OPEN, 1, 1, 1];
    let mut map = level(3, 3, &rows, &[(0, 1, 20)]);
    assert_eq!(map.perform_use(), Some(Notification::LockNeedsSilverKey));
    let rows = [1, 1, 1, OPEN, 96, OPEN, 1, 1, 1];
    let mut map = level(3, 3, &rows, &[(0, 1, 20)]);
    map.status._tmp_give_stuff();
    assert_eq!(map.perform_use(), Some(Notification::LockNoKeyAvailable));
    assert_eq!(map.cells[4].state, CellState::Closed);
}

#[test]
fn floors_follow_each_other() {
    let mut maps = Vec::new();
    for f in 0..10u16 {
        let mut tiles = vec![107u16; 4096];
        tiles[0] = 1 + f;
        let mut things = vec![0u16; 4096];
        things[65] = 19;
        maps.push(MapData::new(format!("Map{f}"), 64, 64, tiles, things));
    }
    let mut map = LiveMap::new(maps, 0, false);
    assert_eq!(map.get_description(), "Map0 - ep. 1, floor 1");
    assert_eq!(map.cells[0].tile, 1);
    map.go_to_next_floor();
    assert_eq!(map.floor, 1);
    assert_eq!(map.cells[0].tile, 2);
    map.go_to_secret_floor();
    assert_eq!(map.get_description(), "Map9 - ep. 1, Secret floor");
    map.go_to_next_floor();
    assert_eq!(map.floor, 2);
    assert_eq!(map.actors[0].angle, 308831);
}

#[test]
fn long_frame_turn_wraps_into_one_turn() {
    let mut map = level(3, 3, &[OPEN; 9], &[(1, 1, 20)]);
    let mut input = idle();
    input.turn_right = true;
    // five seconds at 2 radians per second: 10 radians, less one full turn
    map.handle_inputs(&input, 5 * ONE);
    assert_eq!(map.actors[0].angle, 10 * UNIT - 411775);
    input.turn_right = false;
    input.turn_left = true;
    map.handle_inputs(&input, 5 * ONE);
    assert_eq!(map.actors[0].angle, 0);
}

#[test]
fn sliding_wall_is_not_pushed_again() {
    // push east from (0,1); then stand south of the sliding wall and push north
    let rows = [
        OPEN, OPEN, OPEN, OPEN, 1, //
        OPEN, 5, OPEN, 1, 1, //
        OPEN, OPEN, OPEN, OPEN, 1,
    ];
    let mut map = level(5, 3, &rows, &[(0, 1, 20), (1, 1, 98)]);
    assert_eq!(map.perform_use(), Some(Notification::FoundSecret));
    assert!(map.cells[6].is_push_wall());
    map.actors[0].x = UNIT + UNIT / 2;
    map.actors[0].y = 2 * UNIT + UNIT / 2;
    map.actors[0].angle = 308831;
    assert_eq!(map.perform_use(), None);
    assert_eq!(map.status.cnt_secrets, 1);
}
