//! The contents of one map grid cell of the live map, and the classification
//! that turns a `(tile, thing)` pair of a map into such a cell.
use vstd::prelude::*;
use crate::UNIT;
use crate::assets::MapData;

verus! {

/// Wall tile marked as pushable (a secret wall) in the things plane.
pub const PUSHABLE_TILE: u16 = 98;
/// Tile that puts the enemies of a room in ambush mode.
pub const AMBUSH_TILE: u16 = 106;
/// First tile code of the open-area codes.
pub const AREA_TILE: u16 = 107;
/// Tile code of the elevator switch.
pub const ELEVATOR_TILE: u16 = 21;
/// Texture or sprite index meaning "none".
pub const NO_TEXTURE: u16 = 0xFFFF;
/// Thing code meaning "no thing".
pub const NO_THING: u16 = 0;
/// Fixed-point 1.0 for progress values and times (one second).
pub const ONE: u32 = 65536;
/// How long a door stays open, while nobody stands in it.
pub const DOOR_TIMEOUT: u32 = 262144;

/// Fixed-point angles (radians times 65536).
pub const ANGLE_HALF_PI: i64 = 102944;
pub const ANGLE_PI: i64 = 205887;
pub const ANGLE_THREE_HALF_PI: i64 = 308831;
pub const ANGLE_TWO_PI: i64 = 411775;

/// The pickups that a cell can hold.
#[derive(Clone, Copy, PartialEq, Eq, Structural, Debug)]
pub enum Collectible {
    NoItem,
    DogFood,
    GoodFood,
    FirstAid,
    Gibs1,
    Gibs2,
    AmmoClipSmall,
    AmmoClipNormal,
    MachineGun,
    ChainGun,
    GoldKey,
    SilverKey,
    TreasureCross,
    TreasureCup,
    TreasureChest,
    TreasureCrown,
    TreasureOneUp,
    AmmoBox,
    SpearOfDestiny,
}

impl Collectible {
    pub open spec fn spec_from_thing_code(thing: u16) -> Collectible {
        match thing {
            29 => Collectible::DogFood,
            43 => Collectible::GoldKey,
            44 => Collectible::SilverKey,
            47 => Collectible::GoodFood,
            48 => Collectible::FirstAid,
            49 => Collectible::AmmoClipNormal,
            50 => Collectible::MachineGun,
            51 => Collectible::ChainGun,
            52 => Collectible::TreasureCross,
            53 => Collectible::TreasureCup,
            54 => Collectible::TreasureChest,
            55 => Collectible::TreasureCrown,
            56 => Collectible::TreasureOneUp,
            57 => Collectible::Gibs1,
            61 => Collectible::Gibs2,
            72 => Collectible::AmmoBox,
            74 => Collectible::SpearOfDestiny,
            _ => Collectible::NoItem,
        }
    }

    /// The pickup that a static thing code stands for, `None` for a decoration.
    #[verifier::when_used_as_spec(spec_from_thing_code)]
    pub fn from_thing_code(thing: u16) -> (r: Collectible)
        ensures
            r == Self::spec_from_thing_code(thing),
    {
        match thing {
            29 => Collectible::DogFood,
            43 => Collectible::GoldKey,
            44 => Collectible::SilverKey,
            47 => Collectible::GoodFood,
            48 => Collectible::FirstAid,
            49 => Collectible::AmmoClipNormal,
            50 => Collectible::MachineGun,
            51 => Collectible::ChainGun,
            52 => Collectible::TreasureCross,
            53 => Collectible::TreasureCup,
            54 => Collectible::TreasureChest,
            55 => Collectible::TreasureCrown,
            56 => Collectible::TreasureOneUp,
            57 => Collectible::Gibs1,
            61 => Collectible::Gibs2,
            72 => Collectible::AmmoBox,
            74 => Collectible::SpearOfDestiny,
            _ => Collectible::NoItem,
        }
    }

    pub open spec fn spec_sprite(&self) -> u16 {
        match self {
            Collectible::DogFood => 8,
            Collectible::GoldKey => 22,
            Collectible::SilverKey => 23,
            Collectible::GoodFood => 26,
            Collectible::FirstAid => 27,
            Collectible::AmmoClipSmall => 28,
            Collectible::AmmoClipNormal => 28,
            Collectible::MachineGun => 29,
            Collectible::ChainGun => 30,
            Collectible::TreasureCross => 31,
            Collectible::TreasureCup => 32,
            Collectible::TreasureChest => 33,
            Collectible::TreasureCrown => 34,
            Collectible::TreasureOneUp => 35,
            Collectible::Gibs1 => 36,
            Collectible::Gibs2 => 40,
            Collectible::AmmoBox => 51,
            Collectible::SpearOfDestiny => 53,
            Collectible::NoItem => NO_TEXTURE,
        }
    }

    /// The sprite index used to draw the pickup.
    #[verifier::when_used_as_spec(spec_sprite)]
    pub fn sprite(&self) -> (r: u16)
        ensures
            r == self.spec_sprite(),
    {
        match self {
            Collectible::DogFood => 8,
            Collectible::GoldKey => 22,
            Collectible::SilverKey => 23,
            Collectible::GoodFood => 26,
            Collectible::FirstAid => 27,
            Collectible::AmmoClipSmall => 28,
            Collectible::AmmoClipNormal => 28,
            Collectible::MachineGun => 29,
            Collectible::ChainGun => 30,
            Collectible::TreasureCross => 31,
            Collectible::TreasureCup => 32,
            Collectible::TreasureChest => 33,
            Collectible::TreasureCrown => 34,
            Collectible::TreasureOneUp => 35,
            Collectible::Gibs1 => 36,
            Collectible::Gibs2 => 40,
            Collectible::AmmoBox => 51,
            Collectible::SpearOfDestiny => 53,
            Collectible::NoItem => NO_TEXTURE,
        }
    }
}

/// A creature on the map; index 0 of the actor list is the player.
/// Position and angle are fixed-point (`UNIT` = 1.0); the integer part of
/// a coordinate is the cell index.
#[derive(Clone, Copy, PartialEq, Eq, Structural, Debug)]
pub struct Actor {
    pub thing: u16,
    pub x: i64,
    pub y: i64,
    pub angle: i64,
}

/// Animation state of a door or a push-wall cell. Progress and timeout
/// values are fixed-point, `ONE` being 1.0.
#[derive(Clone, Copy, PartialEq, Eq, Structural, Debug)]
pub enum CellState {
    Idle,
    Open { timeout: u32 },
    Closed,
    Opening { progress: u32 },
    Closing { progress: u32 },
    /// A wall in transit; `area` is the area code the cell gets back once the wall is gone.
    Pushing { progress: u32, area: u16 },
}

/// One cell of the live map.
#[derive(Clone, Copy, PartialEq, Eq, Structural, Debug)]
pub struct MapCell {
    /// Tile code; a push-wall that has gone by leaves its area code here.
    pub tile: u16,
    /// Thing code from the map.
    pub thing: u16,
    /// Texture (walls, doors) or sprite (decorations) index.
    pub tex_sprt: u16,
    pub wall: bool,
    pub push_wall: bool,
    pub sprite: bool,
    pub solid_sprite: bool,
    pub actor: bool,
    pub ambush: bool,
    pub seen: bool,
    pub coll: Collectible,
    pub state: CellState,
}

pub open spec fn is_door_tile(tile: u16) -> bool {
    90 <= tile <= 101
}

/// Tile codes that a map may hold in its walls plane.
pub open spec fn is_known_tile(tile: u16) -> bool {
    (1 <= tile <= 101) || tile == AMBUSH_TILE || tile >= AREA_TILE
}

/// Exec check of `is_known_tile`.
pub fn tile_is_known(tile: u16) -> (r: bool)
    ensures
        r == is_known_tile(tile),
{
    (1 <= tile && tile <= 101) || tile == AMBUSH_TILE || tile >= AREA_TILE
}

/// Static things that block movement; 38 and 67 only in Spear of Destiny,
/// 63 only in Wolfenstein 3D.
pub open spec fn spec_is_solid_decoration(thing: u16, is_sod: bool) -> bool {
    if thing == 38 || thing == 67 {
        is_sod
    } else if thing == 63 {
        !is_sod
    } else {
        thing == 24 || thing == 25 || thing == 26 || thing == 28 || thing == 30 || thing == 31
            || thing == 33 || thing == 34 || thing == 35 || thing == 36 || thing == 39 || thing
            == 40 || thing == 41 || thing == 45 || thing == 58 || thing == 59 || thing == 60
            || thing == 62 || thing == 68 || thing == 69 || thing == 71 || thing == 73
    }
}

/// Whether a static thing code is a solid decoration in the given game.
pub fn is_solid_decoration(thing: u16, is_sod: bool) -> (r: bool)
    ensures
        r == spec_is_solid_decoration(thing, is_sod),
{
    match thing {
        38 | 67 => is_sod,
        63 => !is_sod,
        24 | 25 | 26 | 28 | 30 | 31 | 33 | 34 | 35 | 36 | 39 | 40 | 41 | 45 | 58 | 59 | 60 | 62
        | 68 | 69 | 71 | 73 => true,
        _ => false,
    }
}

pub open spec fn is_player_start(thing: u16) -> bool {
    19 <= thing <= 22
}

/// Facing of a player start: the low two bits of `thing - 19` in quarter turns.
pub open spec fn spec_orientation_to_angle(o: u16) -> i64 {
    let k = o % 4;
    if k == 0 {
        ANGLE_THREE_HALF_PI
    } else if k == 1 {
        0
    } else if k == 2 {
        ANGLE_HALF_PI
    } else {
        ANGLE_PI
    }
}

/// The fixed-point angle of a player start orientation.
pub fn orientation_to_angle(o: u16) -> (r: i64)
    ensures
        r == spec_orientation_to_angle(o),
{
    let k = o % 4;
    if k == 0 {
        ANGLE_THREE_HALF_PI
    } else if k == 1 {
        0
    } else if k == 2 {
        ANGLE_HALF_PI
    } else {
        ANGLE_PI
    }
}

/// Texture pair of a door tile: elevator doors, plain doors, locked doors.
pub open spec fn door_texture(tile: u16) -> u16 {
    if tile >= 100 {
        (103 - tile % 2) as u16
    } else if tile < 92 {
        (99 - tile % 2) as u16
    } else {
        (105 - tile % 2) as u16
    }
}

/// The cell that a `(tile, thing)` pair of a map loads into.
pub open spec fn classified_cell(tile: u16, thing: u16, is_sod: bool) -> MapCell {
    let is_wall = 1 <= tile <= 89;
    let is_door = is_door_tile(tile);
    let coll = if 23 <= thing <= 74 {
        Collectible::spec_from_thing_code(thing)
    } else {
        Collectible::NoItem
    };
    let is_deco = 23 <= thing <= 74 && coll == Collectible::NoItem;
    MapCell {
        tile,
        thing,
        tex_sprt: if is_wall {
            ((tile - 1) * 2) as u16
        } else if is_door {
            door_texture(tile)
        } else if is_deco {
            (thing - 21) as u16
        } else {
            NO_TEXTURE
        },
        wall: is_wall,
        push_wall: is_wall && thing == PUSHABLE_TILE,
        sprite: is_deco,
        solid_sprite: is_deco && spec_is_solid_decoration(thing, is_sod),
        actor: is_player_start(thing),
        ambush: tile == AMBUSH_TILE,
        seen: false,
        coll,
        state: if is_door {
            CellState::Closed
        } else {
            CellState::Idle
        },
    }
}

/// A cell turned into a wall in transit.
pub open spec fn started(c: MapCell, area: u16, tex: u16, progress: u32) -> MapCell {
    MapCell {
        wall: true,
        push_wall: true,
        sprite: false,
        solid_sprite: false,
        actor: false,
        ambush: false,
        seen: false,
        state: CellState::Pushing { progress, area },
        tex_sprt: tex,
        ..c
    }
}

/// A cell turned into the wall at the end of a push-wall's path.
pub open spec fn ended(c: MapCell, tex: u16) -> MapCell {
    MapCell {
        wall: true,
        push_wall: false,
        sprite: false,
        solid_sprite: false,
        actor: false,
        ambush: false,
        seen: false,
        state: CellState::Idle,
        tex_sprt: tex,
        thing: NO_THING,
        ..c
    }
}

impl MapCell {
    /// Loads one `(tile, thing)` pair of a map into a cell.
    pub fn new(tile: u16, thing: u16, is_sod: bool) -> (r: MapCell)
        requires
            is_known_tile(tile),
        ensures
            r == classified_cell(tile, thing, is_sod),
    {
        let is_wall = 1 <= tile && tile <= 89;
        let is_door = 90 <= tile && tile <= 101;
        let coll = if 23 <= thing && thing <= 74 {
            Collectible::from_thing_code(thing)
        } else {
            Collectible::NoItem
        };
        let is_deco = 23 <= thing && thing <= 74 && coll == Collectible::NoItem;
        let tex_sprt = if is_wall {
            // textures come in pairs: light (+0) for N/S faces, dark (+1) for E/W faces
            (tile - 1) * 2
        } else if is_door {
            if tile >= 100 {
                103 - tile % 2
            } else if tile < 92 {
                99 - tile % 2
            } else {
                105 - tile % 2
            }
        } else if is_deco {
            thing - 21
        } else {
            NO_TEXTURE
        };
        MapCell {
            tile,
            thing,
            tex_sprt,
            wall: is_wall,
            push_wall: is_wall && thing == PUSHABLE_TILE,
            sprite: is_deco,
            solid_sprite: is_deco && is_solid_decoration(thing, is_sod),
            actor: 19 <= thing && thing <= 22,
            ambush: tile == AMBUSH_TILE,
            seen: false,
            coll,
            state: if is_door {
                CellState::Closed
            } else {
                CellState::Idle
            },
        }
    }

    pub open spec fn spec_is_wall(&self) -> bool {
        self.wall
    }

    #[verifier::when_used_as_spec(spec_is_wall)]
    pub fn is_wall(&self) -> (r: bool)
        ensures
            r == self.spec_is_wall(),
    {
        self.wall
    }

    pub open spec fn spec_is_push_wall(&self) -> bool {
        self.push_wall
    }

    #[verifier::when_used_as_spec(spec_is_push_wall)]
    pub fn is_push_wall(&self) -> (r: bool)
        ensures
            r == self.spec_is_push_wall(),
    {
        self.push_wall
    }

    pub open spec fn spec_is_door(&self) -> bool {
        is_door_tile(self.tile)
    }

    #[verifier::when_used_as_spec(spec_is_door)]
    pub fn is_door(&self) -> (r: bool)
        ensures
            r == self.spec_is_door(),
    {
        self.tile >= 90 && self.tile <= 101
    }

    /// Doors with an odd tile code span the cell along X and are met by the Y-stepping ray.
    pub open spec fn spec_is_horiz_door(&self) -> bool {
        is_door_tile(self.tile) && self.tile % 2 == 1
    }

    #[verifier::when_used_as_spec(spec_is_horiz_door)]
    pub fn is_horiz_door(&self) -> (r: bool)
        ensures
            r == self.spec_is_horiz_door(),
    {
        self.tile >= 90 && self.tile <= 101 && self.tile % 2 == 1
    }

    /// Doors with an even tile code span the cell along Y and are met by the X-stepping ray.
    pub open spec fn spec_is_vert_door(&self) -> bool {
        is_door_tile(self.tile) && self.tile % 2 == 0
    }

    #[verifier::when_used_as_spec(spec_is_vert_door)]
    pub fn is_vert_door(&self) -> (r: bool)
        ensures
            r == self.spec_is_vert_door(),
    {
        self.tile >= 90 && self.tile <= 101 && self.tile % 2 == 0
    }

    pub open spec fn spec_get_door_key_type(&self) -> u8 {
        if 92 <= self.tile <= 99 {
            ((self.tile - 90) / 2) as u8
        } else {
            0
        }
    }

    /// The key a locked door asks for (1 = gold, 2 = silver, ...), 0 for none.
    #[verifier::when_used_as_spec(spec_get_door_key_type)]
    pub fn get_door_key_type(&self) -> (r: u8)
        ensures
            r == self.spec_get_door_key_type(),
    {
        if self.tile >= 92 && self.tile <= 99 {
            ((self.tile - 90) / 2) as u8
        } else {
            0
        }
    }

    pub fn actor_entered(&mut self)
        ensures
            *final(self) == (MapCell { actor: true, ..*old(self) }),
    {
        self.actor = true;
    }

    pub fn actor_left(&mut self)
        ensures
            *final(self) == (MapCell { actor: false, ..*old(self) }),
    {
        self.actor = false;
    }

    pub open spec fn spec_has_actor(&self) -> bool {
        self.actor
    }

    #[verifier::when_used_as_spec(spec_has_actor)]
    pub fn has_actor(&self) -> (r: bool)
        ensures
            r == self.spec_has_actor(),
    {
        self.actor
    }

    pub fn set_seen(&mut self)
        ensures
            *final(self) == (MapCell { seen: true, ..*old(self) }),
    {
        self.seen = true;
    }

    pub fn was_seen(&self) -> (r: bool)
        ensures
            r == self.seen,
    {
        self.seen
    }

    pub open spec fn spec_is_solid(&self) -> bool {
        self.wall || self.solid_sprite || self.actor || (self.spec_is_door()
            && !(self.state is Open))
    }

    /// Solid cells cannot be walked into: walls, solid decorations, cells
    /// holding an actor, and doors unless fully open.
    #[verifier::when_used_as_spec(spec_is_solid)]
    pub fn is_solid(&self) -> (r: bool)
        ensures
            r == self.spec_is_solid(),
    {
        self.wall || self.solid_sprite || self.actor || (self.is_door() && !matches!(
            self.state,
            CellState::Open { .. }
        ))
    }

    pub open spec fn spec_is_actionable(&self) -> bool {
        self.tile == ELEVATOR_TILE || self.spec_is_door() || self.push_wall
    }

    #[verifier::when_used_as_spec(spec_is_actionable)]
    pub fn is_actionable(&self) -> (r: bool)
        ensures
            r == self.spec_is_actionable(),
    {
        self.tile == ELEVATOR_TILE || self.is_door() || self.push_wall
    }

    pub open spec fn spec_get_area(&self) -> u16 {
        if self.tile >= AREA_TILE {
            self.tile
        } else {
            0
        }
    }

    /// The area code of an open-area cell, 0 for any other cell.
    #[verifier::when_used_as_spec(spec_get_area)]
    pub fn get_area(&self) -> (r: u16)
        ensures
            r == self.spec_get_area(),
    {
        if self.tile >= AREA_TILE {
            self.tile
        } else {
            0
        }
    }

    /// The state a cell reaches after `elapsed` more time (fixed-point).
    pub open spec fn spec_updated(self, elapsed: u32) -> MapCell {
        if self.spec_is_door() {
            match self.state {
                CellState::Opening { progress } => if progress + elapsed >= ONE {
                    MapCell { state: CellState::Open { timeout: DOOR_TIMEOUT }, ..self }
                } else {
                    MapCell {
                        state: CellState::Opening { progress: (progress + elapsed) as u32 },
                        ..self
                    }
                },
                CellState::Closing { progress } => if progress <= elapsed {
                    MapCell { state: CellState::Closed, ..self }
                } else {
                    MapCell {
                        state: CellState::Closing { progress: (progress - elapsed) as u32 },
                        ..self
                    }
                },
                CellState::Open { timeout } => if self.actor {
                    self
                } else if timeout <= elapsed {
                    MapCell { state: CellState::Closing { progress: ONE }, ..self }
                } else {
                    MapCell { state: CellState::Open { timeout: (timeout - elapsed) as u32 }, ..self }
                },
                _ => self,
            }
        } else if self.push_wall {
            match self.state {
                CellState::Pushing { progress, area } => if progress > elapsed {
                    MapCell {
                        state: CellState::Pushing { progress: (progress - elapsed) as u32, area },
                        ..self
                    }
                } else {
                    MapCell {
                        tile: area,
                        thing: NO_THING,
                        tex_sprt: NO_TEXTURE,
                        wall: false,
                        push_wall: false,
                        sprite: false,
                        solid_sprite: false,
                        actor: false,
                        ambush: false,
                        seen: false,
                        coll: self.coll,
                        state: CellState::Idle,
                    }
                },
                _ => self,
            }
        } else {
            self
        }
    }

    /// Advances a door or a push-wall by `elapsed` time (fixed-point).
    pub fn update_state(&mut self, elapsed: u32)
        ensures
            *final(self) == old(self).spec_updated(elapsed),
    {
        if self.is_door() {
            match self.state {
                CellState::Opening { progress } => {
                    let p = progress as u64 + elapsed as u64;
                    self.state = if p >= ONE as u64 {
                        CellState::Open { timeout: DOOR_TIMEOUT }
                    } else {
                        CellState::Opening { progress: p as u32 }
                    };
                },
                CellState::Closing { progress } => {
                    self.state = if progress <= elapsed {
                        CellState::Closed
                    } else {
                        CellState::Closing { progress: progress - elapsed }
                    };
                },
                CellState::Open { timeout } => {
                    // the countdown waits while an actor stands in the doorway
                    if !self.actor {
                        self.state = if timeout <= elapsed {
                            CellState::Closing { progress: ONE }
                        } else {
                            CellState::Open { timeout: timeout - elapsed }
                        };
                    }
                },
                _ => {},
            }
        } else if self.push_wall {
            if let CellState::Pushing { progress, area } = self.state {
                if progress > elapsed {
                    self.state = CellState::Pushing { progress: progress - elapsed, area };
                } else {
                    // the wall has moved on: the cell is open floor again
                    self.state = CellState::Idle;
                    self.wall = false;
                    self.push_wall = false;
                    self.sprite = false;
                    self.solid_sprite = false;
                    self.actor = false;
                    self.ambush = false;
                    self.seen = false;
                    self.tex_sprt = NO_TEXTURE;
                    self.tile = area;
                    self.thing = NO_THING;
                }
            }
        }
    }

    pub open spec fn spec_activated(self) -> MapCell {
        if self.spec_is_door() {
            MapCell {
                state: match self.state {
                    CellState::Open { .. } => CellState::Closing { progress: ONE },
                    CellState::Opening { progress } => CellState::Closing { progress },
                    CellState::Closed => CellState::Opening { progress: 0 },
                    CellState::Closing { progress } => CellState::Opening { progress },
                    _ => CellState::Closed,
                },
                ..self
            }
        } else {
            self
        }
    }

    /// Toggles a door: a closed door starts opening, an open one starts
    /// closing, and one in motion turns back from where it is. Returns
    /// whether a push-wall was started, which this never does.
    pub fn activate_door_or_elevator(&mut self, _dx: i32, _dy: i32) -> (r: bool)
        ensures
            *final(self) == old(self).spec_activated(),
            !r,
    {
        if self.is_door() {
            self.state = match self.state {
                CellState::Open { .. } => CellState::Closing { progress: ONE },
                CellState::Opening { progress } => CellState::Closing { progress },
                CellState::Closed => CellState::Opening { progress: 0 },
                CellState::Closing { progress } => CellState::Opening { progress },
                _ => CellState::Closed,
            };
        }
        false
    }

    pub open spec fn spec_can_push_wall_into(&self) -> bool {
        !(self.spec_is_door() || self.wall || self.actor || self.solid_sprite)
    }

    /// Whether a sliding wall may move into this cell.
    #[verifier::when_used_as_spec(spec_can_push_wall_into)]
    pub fn can_push_wall_into(&self) -> (r: bool)
        ensures
            r == self.spec_can_push_wall_into(),
    {
        !(self.is_door() || self.wall || self.actor || self.solid_sprite)
    }

    /// Turns the cell into a wall in transit, which leaves `area` behind once
    /// `progress` has run out.
    pub fn start_push_wall(&mut self, area_code: u16, wall_texture: u16, progress: u32)
        ensures
            *final(self) == started(*old(self), area_code, wall_texture, progress),
    {
        self.wall = true;
        self.push_wall = true;
        self.sprite = false;
        self.solid_sprite = false;
        self.actor = false;
        self.ambush = false;
        self.seen = false;
        self.state = CellState::Pushing { progress, area: area_code };
        self.tex_sprt = wall_texture;
    }

    /// Turns the cell into the plain wall at the end of a push-wall's path.
    pub fn end_push_wall(&mut self, wall_texture: u16)
        ensures
            *final(self) == ended(*old(self), wall_texture),
    {
        self.wall = true;
        self.push_wall = false;
        self.sprite = false;
        self.solid_sprite = false;
        self.actor = false;
        self.ambush = false;
        self.seen = false;
        self.state = CellState::Idle;
        self.tex_sprt = wall_texture;
        self.thing = NO_THING;
    }

    pub open spec fn spec_get_progress(&self) -> u32 {
        match self.state {
            CellState::Opening { progress } => progress,
            CellState::Closing { progress } => progress,
            CellState::Open { .. } => ONE,
            CellState::Pushing { progress, .. } => progress,
            CellState::Closed => 0,
            CellState::Idle => ONE,
        }
    }

    /// How far a door is open (0 = closed, `ONE` = open) or how much of its
    /// slide a push-wall has left.
    #[verifier::when_used_as_spec(spec_get_progress)]
    pub fn get_progress(&self) -> (r: u32)
        ensures
            r == self.spec_get_progress(),
    {
        match self.state {
            CellState::Opening { progress } => progress,
            CellState::Closing { progress } => progress,
            CellState::Open { .. } => ONE,
            CellState::Pushing { progress, .. } => progress,
            CellState::Closed => 0,
            CellState::Idle => ONE,
        }
    }

    pub fn collectible(&self) -> (r: Collectible)
        ensures
            r == self.coll,
    {
        self.coll
    }

    pub fn remove_collectible(&mut self)
        ensures
            *final(self) == (MapCell { coll: Collectible::NoItem, ..*old(self) }),
    {
        self.coll = Collectible::NoItem;
    }

    pub open spec fn spec_get_texture(&self) -> usize {
        if self.wall || self.spec_is_door() {
            self.tex_sprt as usize
        } else {
            NO_TEXTURE as usize
        }
    }

    /// The wall or door texture of the cell, `NO_TEXTURE` for other cells.
    #[verifier::when_used_as_spec(spec_get_texture)]
    pub fn get_texture(&self) -> (r: usize)
        ensures
            r == self.spec_get_texture(),
    {
        if self.wall || self.is_door() {
            self.tex_sprt as usize
        } else {
            NO_TEXTURE as usize
        }
    }

    pub open spec fn spec_get_sprite(&self) -> u16 {
        if self.coll != Collectible::NoItem {
            self.coll.spec_sprite()
        } else if self.sprite {
            self.tex_sprt
        } else {
            NO_TEXTURE
        }
    }

    /// The sprite drawn in the cell: its pickup, else its decoration, else `NO_TEXTURE`.
    #[verifier::when_used_as_spec(spec_get_sprite)]
    pub fn get_sprite(&self) -> (r: u16)
        ensures
            r == self.spec_get_sprite(),
    {
        if self.coll != Collectible::NoItem {
            self.coll.sprite()
        } else if self.sprite {
            self.tex_sprt
        } else {
            NO_TEXTURE
        }
    }
}

/// Loading the same `(tile, thing)` pair twice gives identical cells.
pub proof fn lemma_classification_deterministic(tile: u16, thing: u16, is_sod: bool, a: MapCell, b: MapCell)
    requires
        is_known_tile(tile),
        a == classified_cell(tile, thing, is_sod),
        b == classified_cell(tile, thing, is_sod),
    ensures
        a == b,
{
}

/// The player spawned by the player start `thing` in cell `i` of a grid
/// `w` wide, at the cell's center.
pub open spec fn spawn(w: int, i: int, thing: u16) -> Actor {
    Actor {
        thing,
        x: ((i % w) * UNIT + UNIT / 2) as i64,
        y: ((i / w) * UNIT + UNIT / 2) as i64,
        angle: spec_orientation_to_angle((thing - 19) as u16),
    }
}

/// The actors found in the first `n` cells: each new player start goes to
/// the front, the one it displaces to the back.
pub open spec fn spawned(things: Seq<u16>, w: int, n: int) -> Seq<Actor>
    decreases n,
{
    if n <= 0 {
        seq![]
    } else {
        let prev = spawned(things, w, n - 1);
        if is_player_start(things[n - 1]) {
            let a = spawn(w, n - 1, things[n - 1]);
            if prev.len() > 0 {
                prev.update(0, a).push(prev[0])
            } else {
                seq![a]
            }
        } else {
            prev
        }
    }
}

pub open spec fn all_tiles_known(tiles: Seq<u16>) -> bool {
    forall|i: int| 0 <= i < tiles.len() ==> is_known_tile(#[trigger] tiles[i])
}

/// Whether every wall code of the list is one a map may hold.
pub fn tiles_are_known(tiles: &Vec<u16>) -> (r: bool)
    ensures
        r == all_tiles_known(tiles@),
{
    let mut i: usize = 0;
    while i < tiles.len()
        invariant
            0 <= i <= tiles@.len(),
            forall|k: int| 0 <= k < i ==> is_known_tile(#[trigger] tiles@[k]),
        decreases tiles@.len() - i,
    {
        if !tile_is_known(tiles[i]) {
            return false;
        }
        i += 1;
    }
    true
}

/// Loads a `width` x `height` grid, given row by row, into cells and the
/// list of actors (the player first).
pub fn load_grid_to_cells(tiles: &Vec<u16>, things: &Vec<u16>, width: usize, height: usize, is_sod: bool) -> (r: (Vec<MapCell>, Vec<Actor>))
    requires
        0 < width <= 65535,
        0 < height <= 65535,
        tiles@.len() == width * height,
        things@.len() == width * height,
        all_tiles_known(tiles@),
    ensures
        r.0@.len() == width * height,
        forall|i: int| 0 <= i < width * height ==> #[trigger] r.0@[i] == classified_cell(tiles@[i], things@[i], is_sod),
        r.1@ == spawned(things@, width as int, width * height),
{
    proof {
        crate::lemma_mul_bound(width as int, height as int, 65535, 65535);
    }
    let len = width * height;
    let mut cells: Vec<MapCell> = Vec::new();
    let mut actors: Vec<Actor> = Vec::new();
    let mut idx: usize = 0;
    while idx < len
        invariant
            len == width * height,
            tiles@.len() == len,
            things@.len() == len,
            all_tiles_known(tiles@),
            0 < width <= 65535,
            0 < height <= 65535,
            0 <= idx <= len,
            cells@.len() == idx,
            forall|i: int| 0 <= i < idx ==> #[trigger] cells@[i] == classified_cell(tiles@[i], things@[i], is_sod),
            actors@ == spawned(things@, width as int, idx as int),
        decreases len - idx,
    {
        let tile = tiles[idx];
        let thing = things[idx];
        assert(is_known_tile(tiles@[idx as int]));
        cells.push(MapCell::new(tile, thing, is_sod));
        if 19 <= thing && thing <= 22 {
            proof {
                assert(idx / width < height) by (nonlinear_arith)
                    requires idx < width * height, width > 0;
                assert(idx % width < width) by (nonlinear_arith)
                    requires width > 0;
            }
            let x = (idx % width) as i64;
            let y = (idx / width) as i64;
            assert(0 <= x < 65535 && 0 <= y < 65535);
            let actor = Actor {
                thing,
                x: x * UNIT + UNIT / 2,
                y: y * UNIT + UNIT / 2,
                angle: orientation_to_angle(thing - 19),
            };
            assert(actor == spawn(width as int, idx as int, thing));
            if actors.len() > 0 {
                let first = actors[0];
                actors.set(0, actor);
                actors.push(first);
            } else {
                actors.push(actor);
            }
        }
        proof {
            assert(actors@ =~= spawned(things@, width as int, idx + 1));
        }
        idx += 1;
    }
    (cells, actors)
}

/// Loads a floor into cells and the list of actors (the player first).
pub fn load_map_to_cells(mapsrc: &MapData, is_sod: bool) -> (r: (Vec<MapCell>, Vec<Actor>))
    requires
        mapsrc.wf(),
        all_tiles_known(mapsrc.tiles@),
    ensures
        r.0@.len() == 4096,
        forall|i: int| 0 <= i < 4096 ==> #[trigger] r.0@[i] == classified_cell(mapsrc.tiles@[i], mapsrc.things@[i], is_sod),
        r.1@ == spawned(mapsrc.things@, 64, 4096),
{
    load_grid_to_cells(&mapsrc.tiles, &mapsrc.things, mapsrc.width as usize, mapsrc.height as usize, is_sod)
}

/// Two cells loaded from the same `(tile, thing)` pair are identical,
/// wherever they stand in the grid.
pub proof fn lemma_same_pair_same_cell(
    tiles: Seq<u16>,
    things: Seq<u16>,
    is_sod: bool,
    cells: Seq<MapCell>,
    i: int,
    j: int,
)
    requires
        0 <= i < cells.len(),
        0 <= j < cells.len(),
        cells.len() <= tiles.len(),
        cells.len() <= things.len(),
        forall|k: int| 0 <= k < cells.len() ==> #[trigger] cells[k] == classified_cell(tiles[k], things[k], is_sod),
        tiles[i] == tiles[j],
        things[i] == things[j],
    ensures
        cells[i] == cells[j],
{
    assert(cells[i] == classified_cell(tiles[i], things[i], is_sod));
    assert(cells[j] == classified_cell(tiles[j], things[j], is_sod));
}

/// A cell after a run of frame ticks.
pub open spec fn ticks(c: MapCell, es: Seq<u32>) -> MapCell
    decreases es.len(),
{
    if es.len() == 0 {
        c
    } else {
        ticks(c.spec_updated(es[0]), es.drop_first())
    }
}

pub open spec fn total_time(es: Seq<u32>) -> int
    decreases es.len(),
{
    if es.len() == 0 {
        0
    } else {
        es[0] + total_time(es.drop_first())
    }
}

/// An opening door moves towards open with every tick of positive time,
/// and turns `Open` exactly when its progress would reach `ONE`, never
/// going past it.
pub proof fn lemma_opening_progress(c: MapCell, p: u32, elapsed: u32)
    requires
        c.spec_is_door(),
        c.state == (CellState::Opening { progress: p }),
        p < ONE,
        elapsed > 0,
    ensures
        p + elapsed >= ONE ==> c.spec_updated(elapsed).state == (CellState::Open { timeout: DOOR_TIMEOUT }),
        p + elapsed < ONE ==> c.spec_updated(elapsed).state == (CellState::Opening { progress: (p + elapsed) as u32 }),
        c.spec_updated(elapsed).state matches CellState::Opening { progress: q } ==> p < q < ONE,
{
}

/// A cell that is neither a door nor a push-wall does not change with time.
pub proof fn lemma_still_cell(c: MapCell, es: Seq<u32>)
    requires
        !c.spec_is_door(),
        !c.push_wall,
    ensures
        ticks(c, es) == c,
    decreases es.len(),
{
    if es.len() > 0 {
        lemma_still_cell(c.spec_updated(es[0]), es.drop_first());
    }
}

/// A wall in transit clears once ticks adding up to its progress have gone
/// by: the cell is open floor again, with the area code it recorded.
pub proof fn lemma_push_wall_clears(c: MapCell, p: u32, area: u16, es: Seq<u32>)
    requires
        !c.spec_is_door(),
        c.push_wall,
        c.state == (CellState::Pushing { progress: p, area }),
        area == 0 || area >= AREA_TILE,
        p > 0,
        total_time(es) >= p,
    ensures
        ticks(c, es).tile == area,
        !ticks(c, es).wall,
        !ticks(c, es).push_wall,
        ticks(c, es).state == CellState::Idle,
    decreases es.len(),
{
    let d = c.spec_updated(es[0]);
    if p <= es[0] {
        lemma_still_cell(d, es.drop_first());
    } else {
        lemma_push_wall_clears(d, (p - es[0]) as u32, area, es.drop_first());
    }
}

/// A push-wall slide run to its end: the cells it went through get back
/// their recorded area code and stop being walls, and the cell it stopped
/// in is a wall for good.
pub proof fn lemma_push_wall_round_trip(
    passed: MapCell,
    stop: MapCell,
    area: u16,
    tex: u16,
    progress: u32,
    es: Seq<u32>,
)
    requires
        !passed.spec_is_door(),
        !stop.spec_is_door(),
        area == 0 || area >= AREA_TILE,
        progress > 0,
        total_time(es) >= progress,
    ensures
        ticks(started(passed, area, tex, progress), es).tile == area,
        !ticks(started(passed, area, tex, progress), es).spec_is_wall(),
        ticks(ended(stop, tex), es).spec_is_wall(),
        ticks(ended(stop, tex), es).spec_get_texture() == tex as usize,
{
    lemma_push_wall_clears(started(passed, area, tex, progress), progress, area, es);
    lemma_still_cell(ended(stop, tex), es);
}

} // verus!
