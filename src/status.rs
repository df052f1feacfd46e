//! The game status: score, lives, health, ammo, weapons, keys and the
//! per-floor kill / secret / treasure counters.
use vstd::prelude::*;
use crate::mapcell::{Collectible, MapCell};
use crate::text::{decimal, dec_text};

verus! {

pub const MAX_HEALTH: i32 = 100;
pub const MAX_AMMO: i32 = 99;

/// The player's status. Weapons are 0 = knife, 1 = pistol, 2 = machine
/// gun, 3 = chain gun; keys are 1 = gold, 2 = silver.
#[derive(Clone, Copy, PartialEq, Eq, Structural, Debug)]
pub struct GameStatus {
    pub episode: i32,
    pub floor: i32,
    pub score: i32,
    pub lives: i32,
    pub health: i32,
    pub ammo: i32,
    pub selected_weapon: u8,
    pub has_machine_gun: bool,
    pub has_chain_gun: bool,
    pub has_silver_key: bool,
    pub has_gold_key: bool,
    pub cnt_kills: i32,
    pub cnt_secrets: i32,
    pub cnt_treasures: i32,
    pub total_kills: i32,
    pub total_secrets: i32,
    pub total_treasures: i32,
}

/// `a + b`, held at `i32::MAX`.
pub open spec fn capped_add(a: i32, b: i32) -> i32 {
    if a + b > i32::MAX {
        i32::MAX
    } else {
        (a + b) as i32
    }
}

fn add_capped(a: i32, b: i32) -> (r: i32)
    requires
        b >= 0,
    ensures
        r == capped_add(a, b),
{
    if a > i32::MAX - b {
        i32::MAX
    } else {
        a + b
    }
}

/// `v` held within `[lo, hi]`.
pub open spec fn clamped(v: int, lo: int, hi: int) -> int {
    if v < lo {
        lo
    } else if v > hi {
        hi
    } else {
        v
    }
}

impl GameStatus {
    /// The ranges that the status values keep.
    pub open spec fn wf(&self) -> bool {
        &&& 0 <= self.health <= MAX_HEALTH
        &&& 0 <= self.ammo <= MAX_AMMO
        &&& 0 <= self.lives
        &&& self.selected_weapon <= 3
        &&& 0 <= self.cnt_kills
        &&& 0 <= self.cnt_secrets
        &&& 0 <= self.cnt_treasures
        &&& 0 <= self.total_secrets
        &&& 0 <= self.total_treasures
    }

    pub open spec fn initial(episode: i32) -> GameStatus {
        GameStatus {
            episode,
            floor: 0,
            score: 0,
            lives: 3,
            health: 100,
            ammo: 8,
            selected_weapon: 1,
            has_machine_gun: false,
            has_chain_gun: false,
            has_silver_key: false,
            has_gold_key: false,
            cnt_kills: 0,
            cnt_secrets: 0,
            cnt_treasures: 0,
            total_kills: 0,
            total_secrets: 0,
            total_treasures: 0,
        }
    }

    /// A new game: 3 lives, full health, 8 bullets, the pistol in hand.
    pub fn new(episode: i32) -> (r: Self)
        ensures
            r.wf(),
            r == Self::initial(episode),
    {
        GameStatus {
            episode,
            floor: 0,
            score: 0,
            lives: 3,
            health: 100,
            ammo: 8,
            selected_weapon: 1,
            has_machine_gun: false,
            has_chain_gun: false,
            has_silver_key: false,
            has_gold_key: false,
            cnt_kills: 0,
            cnt_secrets: 0,
            cnt_treasures: 0,
            total_kills: 0,
            total_secrets: 0,
            total_treasures: 0,
        }
    }

    pub open spec fn spec_floor_set(self, floor: i32, cnt_enemies: i32) -> GameStatus {
        GameStatus {
            floor,
            has_silver_key: false,
            has_gold_key: false,
            cnt_kills: 0,
            cnt_secrets: 0,
            cnt_treasures: 0,
            total_kills: cnt_enemies,
            total_secrets: 0,
            total_treasures: 0,
            ..self
        }
    }

    /// Starts a new floor: keys are lost, weapons kept, counters reset.
    pub fn set_floor(&mut self, floor: i32, cnt_enemies: i32)
        requires
            old(self).wf(),
        ensures
            final(self).wf(),
            *final(self) == old(self).spec_floor_set(floor, cnt_enemies),
    {
        self.has_silver_key = false;
        self.has_gold_key = false;
        self.floor = floor;
        self.cnt_kills = 0;
        self.cnt_secrets = 0;
        self.cnt_treasures = 0;
        self.total_kills = cnt_enemies;
        self.total_secrets = 0;
        self.total_treasures = 0;
    }

    pub open spec fn is_treasure(c: Collectible) -> bool {
        c == Collectible::TreasureCross || c == Collectible::TreasureCup || c
            == Collectible::TreasureChest || c == Collectible::TreasureCrown || c
            == Collectible::TreasureOneUp
    }

    pub open spec fn spec_read_cell(self, cell: MapCell) -> GameStatus {
        GameStatus {
            total_secrets: if cell.push_wall {
                capped_add(self.total_secrets, 1)
            } else {
                self.total_secrets
            },
            total_treasures: if Self::is_treasure(cell.coll) {
                capped_add(self.total_treasures, 1)
            } else {
                self.total_treasures
            },
            ..self
        }
    }

    /// Counts the secrets (push-walls) and treasures of a freshly loaded cell.
    pub fn read_floor_cell(&mut self, cell: &MapCell)
        requires
            old(self).wf(),
        ensures
            final(self).wf(),
            *final(self) == old(self).spec_read_cell(*cell),
    {
        if cell.is_push_wall() {
            self.total_secrets = add_capped(self.total_secrets, 1);
        }
        match cell.collectible() {
            Collectible::TreasureCross | Collectible::TreasureCup | Collectible::TreasureChest
            | Collectible::TreasureCrown | Collectible::TreasureOneUp => {
                self.total_treasures = add_capped(self.total_treasures, 1);
            },
            _ => {},
        }
    }

    pub open spec fn spec_given_stuff(self) -> GameStatus {
        GameStatus {
            has_gold_key: true,
            has_silver_key: true,
            has_machine_gun: true,
            has_chain_gun: true,
            ..self
        }
    }

    /// Gives both keys and all weapons.
    pub fn _tmp_give_stuff(&mut self)
        ensures
            *final(self) == old(self).spec_given_stuff(),
    {
        self.has_gold_key = true;
        self.has_silver_key = true;
        self.has_machine_gun = true;
        self.has_chain_gun = true;
    }

    pub fn get_selected_weapon(&self) -> (r: u8)
        ensures
            r == self.selected_weapon,
    {
        self.selected_weapon
    }

    pub fn increment_kills(&mut self, kill_score: i32)
        requires
            old(self).wf(),
            kill_score >= 0,
        ensures
            final(self).wf(),
            *final(self) == (GameStatus {
                cnt_kills: capped_add(old(self).cnt_kills, 1),
                score: capped_add(old(self).score, kill_score),
                ..*old(self)
            }),
    {
        self.cnt_kills = add_capped(self.cnt_kills, 1);
        self.score = add_capped(self.score, kill_score);
    }

    pub fn found_secret(&mut self)
        requires
            old(self).wf(),
        ensures
            final(self).wf(),
            *final(self) == (GameStatus {
                cnt_secrets: capped_add(old(self).cnt_secrets, 1),
                ..*old(self)
            }),
    {
        self.cnt_secrets = add_capped(self.cnt_secrets, 1);
    }

    pub fn got_all_kills(&self) -> (r: bool)
        ensures
            r == (self.cnt_kills == self.total_kills),
    {
        self.cnt_kills == self.total_kills
    }

    pub fn got_all_secrets(&self) -> (r: bool)
        ensures
            r == (self.cnt_secrets == self.total_secrets),
    {
        self.cnt_secrets == self.total_secrets
    }

    pub fn got_all_treasures(&self) -> (r: bool)
        ensures
            r == (self.cnt_treasures == self.total_treasures),
    {
        self.cnt_treasures == self.total_treasures
    }

    pub open spec fn spec_has_weapon(&self, weapon: i32) -> bool {
        if weapon == 0 || weapon == 1 {
            true
        } else if weapon == 2 {
            self.has_machine_gun
        } else if weapon == 3 {
            self.has_chain_gun
        } else {
            false
        }
    }

    /// Whether the player owns the weapon (knife and pistol always).
    #[verifier::when_used_as_spec(spec_has_weapon)]
    pub fn has_weapon(&self, weapon: i32) -> (r: bool)
        ensures
            r == self.spec_has_weapon(weapon),
    {
        match weapon {
            0 | 1 => true,
            2 => self.has_machine_gun,
            3 => self.has_chain_gun,
            _ => false,
        }
    }

    pub open spec fn spec_weapon_selected(self, weapon: i32) -> GameStatus {
        if (weapon == 0 || self.ammo > 0) && self.spec_has_weapon(weapon) {
            GameStatus { selected_weapon: weapon as u8, ..self }
        } else {
            self
        }
    }

    /// Selects a weapon the player owns, unless it needs ammo and there is none.
    pub fn try_select_weapon(&mut self, weapon: i32)
        requires
            old(self).wf(),
            0 <= weapon <= 3,
        ensures
            final(self).wf(),
            *final(self) == old(self).spec_weapon_selected(weapon),
    {
        let has_ammo = weapon == 0 || self.ammo > 0;
        if has_ammo && self.has_weapon(weapon) {
            self.selected_weapon = weapon as u8;
        }
    }

    pub open spec fn spec_has_key(&self, key: u8) -> bool {
        if key == 0 {
            true
        } else if key == 1 {
            self.has_gold_key
        } else if key == 2 {
            self.has_silver_key
        } else {
            false
        }
    }

    /// Whether the player holds the key (0 = no key needed, 1 = gold, 2 = silver).
    #[verifier::when_used_as_spec(spec_has_key)]
    pub fn has_key(&self, key: u8) -> (r: bool)
        ensures
            r == self.spec_has_key(key),
    {
        match key {
            0 => true,
            1 => self.has_gold_key,
            2 => self.has_silver_key,
            _ => false,
        }
    }

    pub open spec fn best_weapon(self) -> i32 {
        if self.has_chain_gun {
            3
        } else if self.has_machine_gun {
            2
        } else {
            1
        }
    }

    pub open spec fn spec_ammo_updated(self, delta: i32) -> GameStatus {
        let s = GameStatus { ammo: clamped(self.ammo + delta, 0, MAX_AMMO as int) as i32, ..self };
        if self.ammo == 0 && s.ammo > 0 {
            s.spec_weapon_selected(self.best_weapon())
        } else {
            s
        }
    }

    /// Changes the ammo within `[0, MAX_AMMO]`; picking up ammo with none
    /// left switches to the best weapon.
    fn update_ammo(&mut self, delta: i32)
        requires
            old(self).wf(),
            -1000 <= delta <= 1000,
        ensures
            final(self).wf(),
            *final(self) == old(self).spec_ammo_updated(delta),
    {
        let was_empty = self.ammo == 0;
        let v = self.ammo + delta;
        self.ammo = if v < 0 {
            0
        } else if v > MAX_AMMO {
            MAX_AMMO
        } else {
            v
        };
        if was_empty && self.ammo > 0 {
            let best = if self.has_chain_gun {
                3
            } else if self.has_machine_gun {
                2
            } else {
                1
            };
            self.try_select_weapon(best);
        }
    }

    pub open spec fn spec_health_updated(self, delta: i32) -> GameStatus {
        GameStatus { health: clamped(self.health + delta, 0, MAX_HEALTH as int) as i32, ..self }
    }

    /// Changes the health within `[0, MAX_HEALTH]`.
    fn update_health(&mut self, delta: i32)
        requires
            old(self).wf(),
            -0x4000_0000 <= delta <= 0x4000_0000,
        ensures
            final(self).wf(),
            *final(self) == old(self).spec_health_updated(delta),
    {
        let v = self.health + delta;
        self.health = if v < 0 {
            0
        } else if v > MAX_HEALTH {
            MAX_HEALTH
        } else {
            v
        };
    }

    pub open spec fn spec_ammo_consumed(self) -> GameStatus {
        if self.selected_weapon != 0 {
            let s = self.spec_ammo_updated(-1i32);
            if s.ammo <= 0 {
                s.spec_weapon_selected(0)
            } else {
                s
            }
        } else {
            self
        }
    }

    /// Fires one shot: with a gun in hand, one bullet goes; running out
    /// switches to the knife.
    pub fn consume_ammo(&mut self)
        requires
            old(self).wf(),
        ensures
            final(self).wf(),
            *final(self) == old(self).spec_ammo_consumed(),
    {
        if self.get_selected_weapon() != 0 {
            self.update_ammo(-1);
            if self.ammo <= 0 {
                self.try_select_weapon(0);
            }
        }
    }

    pub fn damage_health(&mut self, damage: i32)
        requires
            old(self).wf(),
            -0x4000_0000 <= damage <= 0x4000_0000,
        ensures
            final(self).wf(),
            *final(self) == old(self).spec_health_updated(-damage as i32),
    {
        self.update_health(-damage);
    }

    pub fn is_dead(&self) -> (r: bool)
        ensures
            r == (self.health <= 0),
    {
        self.health <= 0
    }

    /// Uses up a life, if any is left, and restores full health.
    pub fn try_decrement_lives(&mut self) -> (r: bool)
        requires
            old(self).wf(),
        ensures
            final(self).wf(),
            r == (old(self).lives > 0),
            *final(self) == if r {
                GameStatus { lives: (old(self).lives - 1) as i32, health: 100, ..*old(self) }
            } else {
                *old(self)
            },
    {
        if self.lives > 0 {
            self.lives -= 1;
            self.health = 100;
            true
        } else {
            false
        }
    }

    /// What picking up `c` does to the status, and whether it was taken.
    pub open spec fn spec_consumed(self, c: Collectible) -> (GameStatus, bool) {
        match c {
            Collectible::Gibs1 | Collectible::Gibs2 => if self.health <= 10 {
                (self.spec_health_updated(1), true)
            } else {
                (self, false)
            },
            Collectible::DogFood => if self.health < MAX_HEALTH {
                (self.spec_health_updated(4), true)
            } else {
                (self, false)
            },
            Collectible::GoodFood => if self.health < MAX_HEALTH {
                (self.spec_health_updated(10), true)
            } else {
                (self, false)
            },
            Collectible::FirstAid => if self.health < MAX_HEALTH {
                (self.spec_health_updated(25), true)
            } else {
                (self, false)
            },
            Collectible::AmmoClipSmall => if self.ammo < MAX_AMMO {
                (self.spec_ammo_updated(4), true)
            } else {
                (self, false)
            },
            Collectible::AmmoClipNormal => if self.ammo < MAX_AMMO {
                (self.spec_ammo_updated(8), true)
            } else {
                (self, false)
            },
            Collectible::AmmoBox => if self.ammo < MAX_AMMO {
                (self.spec_ammo_updated(25), true)
            } else {
                (self, false)
            },
            Collectible::MachineGun => if !self.has_machine_gun {
                let s = GameStatus { has_machine_gun: true, ..self }.spec_ammo_updated(6);
                (if !s.has_chain_gun {
                    s.spec_weapon_selected(2)
                } else {
                    s
                }, true)
            } else {
                (self, false)
            },
            Collectible::ChainGun => if !self.has_chain_gun {
                let s = GameStatus { has_chain_gun: true, ..self }.spec_ammo_updated(6);
                (s.spec_weapon_selected(3), true)
            } else {
                (self, false)
            },
            Collectible::GoldKey => if !self.has_gold_key {
                (GameStatus { has_gold_key: true, ..self }, true)
            } else {
                (self, false)
            },
            Collectible::SilverKey => if !self.has_silver_key {
                (GameStatus { has_silver_key: true, ..self }, true)
            } else {
                (self, false)
            },
            Collectible::TreasureCross => (self.spec_treasure(100), true),
            Collectible::TreasureCup => (self.spec_treasure(500), true),
            Collectible::TreasureChest => (self.spec_treasure(1000), true),
            Collectible::TreasureCrown => (self.spec_treasure(5000), true),
            Collectible::TreasureOneUp => {
                let s = self.spec_health_updated(100).spec_ammo_updated(25);
                (GameStatus {
                    lives: capped_add(s.lives, 1),
                    cnt_treasures: capped_add(s.cnt_treasures, 1),
                    ..s
                }, true)
            },
            Collectible::SpearOfDestiny | Collectible::NoItem => (self, false),
        }
    }

    pub open spec fn spec_treasure(self, points: i32) -> GameStatus {
        GameStatus {
            score: capped_add(self.score, points),
            cnt_treasures: capped_add(self.cnt_treasures, 1),
            ..self
        }
    }

    /// Picks up `coll` if the player can use it, and says whether it was
    /// taken. The Spear of Destiny is left where it lies.
    pub fn try_consume(&mut self, coll: Collectible) -> (r: bool)
        requires
            old(self).wf(),
        ensures
            final(self).wf(),
            (*final(self), r) == old(self).spec_consumed(coll),
    {
        match coll {
            Collectible::Gibs1 | Collectible::Gibs2 => {
                if self.health <= 10 {
                    self.update_health(1);
                    true
                } else {
                    false
                }
            },
            Collectible::DogFood => {
                if self.health < MAX_HEALTH {
                    self.update_health(4);
                    true
                } else {
                    false
                }
            },
            Collectible::GoodFood => {
                if self.health < MAX_HEALTH {
                    self.update_health(10);
                    true
                } else {
                    false
                }
            },
            Collectible::FirstAid => {
                if self.health < MAX_HEALTH {
                    self.update_health(25);
                    true
                } else {
                    false
                }
            },
            Collectible::AmmoClipSmall => {
                if self.ammo < MAX_AMMO {
                    self.update_ammo(4);
                    true
                } else {
                    false
                }
            },
            Collectible::AmmoClipNormal => {
                if self.ammo < MAX_AMMO {
                    self.update_ammo(8);
                    true
                } else {
                    false
                }
            },
            Collectible::AmmoBox => {
                if self.ammo < MAX_AMMO {
                    self.update_ammo(25);
                    true
                } else {
                    false
                }
            },
            Collectible::MachineGun => {
                if !self.has_machine_gun {
                    self.has_machine_gun = true;
                    self.update_ammo(6);
                    if !self.has_chain_gun {
                        // a new best weapon
                        self.try_select_weapon(2);
                    }
                    true
                } else {
                    false
                }
            },
            Collectible::ChainGun => {
                if !self.has_chain_gun {
                    self.has_chain_gun = true;
                    self.update_ammo(6);
                    self.try_select_weapon(3);
                    true
                } else {
                    false
                }
            },
            Collectible::GoldKey => {
                if !self.has_gold_key {
                    self.has_gold_key = true;
                    true
                } else {
                    false
                }
            },
            Collectible::SilverKey => {
                if !self.has_silver_key {
                    self.has_silver_key = true;
                    true
                } else {
                    false
                }
            },
            Collectible::TreasureCross => {
                self.add_treasure(100);
                true
            },
            Collectible::TreasureCup => {
                self.add_treasure(500);
                true
            },
            Collectible::TreasureChest => {
                self.add_treasure(1000);
                true
            },
            Collectible::TreasureCrown => {
                self.add_treasure(5000);
                true
            },
            Collectible::TreasureOneUp => {
                self.update_health(100);
                self.update_ammo(25);
                self.lives = add_capped(self.lives, 1);
                self.cnt_treasures = add_capped(self.cnt_treasures, 1);
                true
            },
            Collectible::SpearOfDestiny | Collectible::NoItem => false,
        }
    }

    fn add_treasure(&mut self, points: i32)
        requires
            old(self).wf(),
            points >= 0,
        ensures
            final(self).wf(),
            *final(self) == old(self).spec_treasure(points),
    {
        self.score = add_capped(self.score, points);
        self.cnt_treasures = add_capped(self.cnt_treasures, 1);
    }

    pub open spec fn secrets_text(self) -> Seq<char> {
        seq!['K', ':', ' '] + dec_text(self.cnt_kills as int) + seq!['/'] + dec_text(self.total_kills as int)
            + seq![' ', ' ', ' ', 'S', ':', ' '] + dec_text(self.cnt_secrets as int) + seq!['/']
            + dec_text(self.total_secrets as int) + seq![' ', ' ', ' ', 'T', ':', ' '] + dec_text(
            self.cnt_treasures as int,
        ) + seq!['/'] + dec_text(self.total_treasures as int)
    }

    /// "K: kills/total   S: secrets/total   T: treasures/total".
    pub fn get_secrets_msg(&self) -> (r: String)
        ensures
            r@ == self.secrets_text(),
    {
        let mut s = String::new();
        s.append("K: ");
        s.append(decimal(self.cnt_kills).as_str());
        s.append("/");
        s.append(decimal(self.total_kills).as_str());
        s.append("   S: ");
        s.append(decimal(self.cnt_secrets).as_str());
        s.append("/");
        s.append(decimal(self.total_secrets).as_str());
        s.append("   T: ");
        s.append(decimal(self.cnt_treasures).as_str());
        s.append("/");
        s.append(decimal(self.total_treasures).as_str());
        proof {
            reveal_strlit("K: ");
            reveal_strlit("/");
            reveal_strlit("   S: ");
            reveal_strlit("   T: ");
        }
        assert(s@ =~= self.secrets_text());
        s
    }
}

/// "Y" when the flag is set, "N" otherwise.
pub fn _yesno(x: i32, flag: i32) -> (r: &'static str)
    ensures
        r@ == if x & flag != 0 { seq!['Y'] } else { seq!['N'] },
{
    proof {
        reveal_strlit("Y");
        reveal_strlit("N");
    }
    if x & flag != 0 {
        "Y"
    } else {
        "N"
    }
}

} // verus!
