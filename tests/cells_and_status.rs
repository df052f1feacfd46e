use rolf3d::assets::{FontData, GfxData, MapData};
use rolf3d::mapcell::{
    is_solid_decoration, load_map_to_cells, orientation_to_angle, CellState, Collectible, MapCell, NO_TEXTURE, ONE,
};
use rolf3d::notifier::{from_collectible, from_notification, Notification};
use rolf3d::palette::{palette_to_rgb, RGB};
use rolf3d::picdict::{translate_sdm, translate_sod, translate_wolf1, translate_wolf3or6, PicDict, PicType, BAD_IDX};
use rolf3d::status::GameStatus;
use rolf3d::text::decimal;
use rolf3d::utils::{buf_to_ascii, buf_to_i32, buf_to_u16, buf_to_u32};

#[test]
fn classification_is_repeatable() {
    for &(tile, thing) in &[(1u16, 0u16), (5, 98), (90, 0), (101, 0), (106, 29), (107, 24), (200, 20), (93, 63)] {
        for &sod in &[false, true] {
            assert_eq!(MapCell::new(tile, thing, sod), MapCell::new(tile, thing, sod));
        }
    }
}

#[test]
fn wall_door_and_decoration_classification() {
    let wall = MapCell::new(3, 0, false);
    assert!(wall.is_wall() && wall.is_solid() && !wall.is_push_wall());
    assert_eq!(wall.get_texture(), 4);
    let secret = MapCell::new(3, 98, false);
    assert!(secret.is_push_wall());
    let door = MapCell::new(91, 0, false);
    assert!(door.is_door() && door.is_horiz_door() && !door.is_vert_door());
    assert_eq!(door.state, CellState::Closed);
    assert_eq!(door.get_texture(), 98);
    assert_eq!(MapCell::new(100, 0, false).get_texture(), 103);
    assert_eq!(MapCell::new(95, 0, false).get_texture(), 104);
    assert_eq!(MapCell::new(96, 0, false).get_door_key_type(), 3);
    let barrel = MapCell::new(107, 24, false);
    assert!(barrel.is_solid());
    assert_eq!(barrel.get_sprite(), 3);
    assert_eq!(barrel.get_texture(), NO_TEXTURE as usize);
    let food = MapCell::new(107, 47, false);
    assert_eq!(food.collectible(), Collectible::GoodFood);
    assert!(!food.is_solid());
    assert_eq!(food.get_sprite(), 26);
    assert_eq!(MapCell::new(120, 0, false).get_area(), 120);
    assert!(MapCell::new(106, 0, false).ambush);
}

#[test]
fn game_variant_solid_decorations() {
    assert!(is_solid_decoration(38, true));
    assert!(!is_solid_decoration(38, false));
    assert!(is_solid_decoration(63, false));
    assert!(!is_solid_decoration(63, true));
    assert!(is_solid_decoration(73, false));
    assert!(!is_solid_decoration(27, false));
}

#[test]
fn player_start_facings() {
    assert_eq!(orientation_to_angle(0), 308831);
    assert_eq!(orientation_to_angle(1), 0);
    assert_eq!(orientation_to_angle(2), 102944);
    assert_eq!(orientation_to_angle(3), 205887);
}

#[test]
fn opening_door_never_overshoots() {
    let mut door = MapCell::new(90, 0, false);
    door.state = CellState::Opening { progress: ONE - 10 };
    door.update_state(ONE * 3);
    assert_eq!(door.state, CellState::Open { timeout: 4 * ONE });
    let mut door = MapCell::new(90, 0, false);
    door.state = CellState::Opening { progress: 100 };
    let mut last = 100;
    for _ in 0..10 {
        door.update_state(7000);
        match door.state {
            CellState::Opening { progress } => {
                assert!(progress > last && progress < ONE);
                last = progress;
            }
            CellState::Open { .. } => break,
            _ => panic!("unexpected door state"),
        }
    }
}

#[test]
fn open_door_waits_for_the_doorway_to_clear() {
    let mut door = MapCell::new(90, 0, false);
    door.state = CellState::Open { timeout: ONE };
    door.actor_entered();
    door.update_state(2 * ONE);
    assert_eq!(door.state, CellState::Open { timeout: ONE });
    door.actor_left();
    door.update_state(ONE / 2);
    assert_eq!(door.state, CellState::Open { timeout: ONE / 2 });
}

#[test]
fn activation_reverses_a_moving_door() {
    let mut door = MapCell::new(90, 0, false);
    door.state = CellState::Opening { progress: 300 };
    assert!(!door.activate_door_or_elevator(1, 0));
    assert_eq!(door.state, CellState::Closing { progress: 300 });
    door.activate_door_or_elevator(1, 0);
    assert_eq!(door.state, CellState::Opening { progress: 300 });
}

fn test_map(tiles: Vec<u16>, things: Vec<u16>) -> MapData {
    MapData::new(String::from("Wolf1 Map1"), 64, 64, tiles, things)
}

#[test]
fn map_loads_into_cells_and_player() {
    let mut tiles = vec![107u16; 4096];
    tiles[0] = 1;
    let mut things = vec![0u16; 4096];
    things[64 * 3 + 5] = 21;
    let map = test_map(tiles, things);
    assert_eq!(map.tile(0, 0), 1);
    assert_eq!(map.tile(-1, 0), 0);
    assert_eq!(map.thing(5, 3), 21);
    assert_eq!(map.thing(64, 3), 0);
    let (cells, actors) = load_map_to_cells(&map, false);
    assert_eq!(cells.len(), 4096);
    assert!(cells[0].is_wall());
    assert_eq!(actors.len(), 1);
    assert_eq!(actors[0].x, 5 * 65536 + 32768);
    assert_eq!(actors[0].y, 3 * 65536 + 32768);
    assert_eq!(actors[0].angle, 102944);
}

#[test]
fn new_game_status() {
    let s = GameStatus::new(2);
    assert_eq!((s.lives, s.health, s.ammo, s.get_selected_weapon()), (3, 100, 8, 1));
    assert!(!s.is_dead());
    assert!(s.has_key(0) && !s.has_key(1) && !s.has_key(2) && !s.has_key(3));
}

#[test]
fn pickups_change_the_status() {
    let mut s = GameStatus::new(0);
    assert!(!s.try_consume(Collectible::FirstAid));
    s.damage_health(50);
    assert!(s.try_consume(Collectible::FirstAid));
    assert_eq!(s.health, 75);
    assert!(!s.try_consume(Collectible::Gibs1));
    assert!(s.try_consume(Collectible::MachineGun));
    assert_eq!((s.ammo, s.get_selected_weapon()), (14, 2));
    assert!(!s.try_consume(Collectible::MachineGun));
    assert!(s.try_consume(Collectible::ChainGun));
    assert_eq!(s.get_selected_weapon(), 3);
    assert!(s.try_consume(Collectible::GoldKey));
    assert!(s.has_key(1));
    assert!(s.try_consume(Collectible::TreasureCrown));
    assert_eq!((s.score, s.cnt_treasures), (5000, 1));
    assert!(s.try_consume(Collectible::TreasureOneUp));
    assert_eq!((s.lives, s.health, s.ammo), (4, 100, 45));
    assert!(!s.try_consume(Collectible::SpearOfDestiny));
    assert!(!s.try_consume(Collectible::NoItem));
}

#[test]
fn ammo_runs_out_to_the_knife_and_back() {
    let mut s = GameStatus::new(0);
    for _ in 0..8 {
        s.consume_ammo();
    }
    assert_eq!((s.ammo, s.get_selected_weapon()), (0, 0));
    s.try_select_weapon(1);
    assert_eq!(s.get_selected_weapon(), 0);
    assert!(s.try_consume(Collectible::AmmoClipNormal));
    assert_eq!((s.ammo, s.get_selected_weapon()), (8, 1));
    s.consume_ammo();
    assert_eq!(s.ammo, 7);
}

#[test]
fn ammo_and_health_are_capped() {
    let mut s = GameStatus::new(0);
    for _ in 0..5 {
        s.try_consume(Collectible::AmmoBox);
    }
    assert_eq!(s.ammo, 99);
    assert!(!s.try_consume(Collectible::AmmoClipSmall));
    s.damage_health(500);
    assert_eq!(s.health, 0);
    assert!(s.is_dead());
    assert!(s.try_decrement_lives());
    assert_eq!((s.lives, s.health), (2, 100));
}

#[test]
fn floor_counters() {
    let mut s = GameStatus::new(0);
    s._tmp_give_stuff();
    s.set_floor(3, 2);
    assert!(!s.has_key(1) && s.has_weapon(3));
    assert!(!s.got_all_kills());
    s.increment_kills(100);
    s.increment_kills(100);
    assert!(s.got_all_kills());
    assert_eq!(s.score, 200);
    s.read_floor_cell(&MapCell::new(1, 98, false));
    s.read_floor_cell(&MapCell::new(107, 54, false));
    assert!(!s.got_all_secrets());
    s.found_secret();
    assert!(s.got_all_secrets());
    assert_eq!(s.get_secrets_msg(), "K: 2/2   S: 1/1   T: 0/1");
}

#[test]
fn decimal_text() {
    assert_eq!(decimal(0), "0");
    assert_eq!(decimal(1234), "1234");
    assert_eq!(decimal(-56), "-56");
    assert_eq!(decimal(i32::MIN), "-2147483648");
}

#[test]
fn little_endian_readers() {
    let b = [0x34u8, 0x12, 0xFF, 0xFF, 0x99];
    assert_eq!(buf_to_u16(&b), 0x1234);
    assert_eq!(buf_to_u32(&b), 0xFFFF_1234);
    assert_eq!(buf_to_i32(&b), -60876);
    assert_eq!(buf_to_i32(&[1, 0, 0, 0]), 1);
}

#[test]
fn ascii_reader_stops_at_unprintable_bytes() {
    assert_eq!(buf_to_ascii(b"Wolf1 Map1\0\0junk", 16), "Wolf1 Map1");
    assert_eq!(buf_to_ascii(b"ABCDEFGH", 3), "ABC");
    assert_eq!(buf_to_ascii(b"", 3), "");
}

#[test]
fn notification_texts() {
    assert_eq!(from_notification(Notification::LockNeedsGoldKey), "Locked - you need a GOLD key");
    assert_eq!(from_notification(Notification::FoundSecret), "You have found a secret :)");
    assert_eq!(from_collectible(Collectible::Gibs2), "YUCK - you ate some gibs :(((");
    assert_eq!(from_collectible(Collectible::NoItem), "");
}

#[test]
fn palette_colors() {
    assert_eq!(palette_to_rgb(0, false), RGB::from(0, 0, 0));
    assert_eq!(palette_to_rgb(1, false), RGB::from(0, 0, 0xA8));
    assert_eq!(palette_to_rgb(255, false), RGB::from(0xFF, 0x00, 0xFF));
    assert_eq!(palette_to_rgb(166, true), RGB::from(0, 56, 0));
    assert_eq!(palette_to_rgb(167, true), RGB::from(0, 40, 0));
    assert_ne!(palette_to_rgb(166, false), RGB::from(0, 56, 0));
}

#[test]
fn pic_translations() {
    assert_eq!(PicType::GetPsyched.index(), 120);
    assert_eq!(PicDict::pic_count(), 121);
    assert_eq!(translate_wolf1(PicType::OptionTitle.index()), 19);
    assert_eq!(translate_wolf1(PicType::BackDropScreen.index()), BAD_IDX);
    assert_eq!(translate_wolf3or6(PicType::Paused.index()), 130);
    assert_eq!(translate_sdm(PicType::StatusBar.index()), 73);
    assert_eq!(translate_sod(PicType::HighScoresTitle.index()), 26);
    assert_eq!(translate_sod(PicType::OptionTitle.index()), 2);
}

#[test]
fn pic_dictionary_orders_the_pics() {
    let mut input = Vec::new();
    for i in 0..150u16 {
        input.push(GfxData::new_pic(1, 1, vec![(i % 256) as u8]));
    }
    let dict = PicDict::new("WL6", input);
    assert_eq!(dict.pic(PicType::OptionTitle, 0).texels, vec![7]);
    assert_eq!(dict.pic(PicType::Episode1, 1).texels, vec![28]);
    assert_eq!(dict.pic_by_index(PicType::GetPsyched.index()).texels, vec![131]);
    // Wolfenstein 3D lacks two god-mode faces and the backdrop
    assert_eq!(dict.pic(PicType::StatusFaceGod3, 0).texels, dict.pic(PicType::StatusFaceGod1, 0).texels);
    assert_eq!(dict.pic(PicType::BackDropScreen, 0).texels, dict.pic(PicType::TitleScreen, 0).texels);
    let mut few = Vec::new();
    for i in 0..10u8 {
        few.push(GfxData::new_pic(1, 1, vec![i]));
    }
    let small = PicDict::new("SOD", few);
    assert_eq!(small.pic(PicType::OptionTitle, 0).texels, vec![2]);
    assert_eq!(small.pic(PicType::StatusBar, 0).size(), (0, 0));
}

#[test]
fn graphics_and_fonts() {
    let g = GfxData::new_sprite(vec![5u8; 4096]);
    assert_eq!(g.size(), (64, 64));
    assert_eq!(g.texel_at(63, 63), 5);
    assert_eq!(GfxData::new_empty().size(), (0, 0));
    let mut ow = Vec::new();
    for i in 0..95u16 {
        ow.push(i * 10);
        ow.push(i % 7 + 1);
    }
    let font = FontData::new(10, 4, ow, vec![0; 1000]);
    // 'A' is 65: width (65 - 33) % 7 + 1 = 5; '!' is 33: width 1; space 4
    assert_eq!(font.text_width("A ! "), 5 + 4 + 1 + 4);
    assert_eq!(font.text_width(""), 0);
}
