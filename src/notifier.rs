//! Messages shown to the player.
use vstd::prelude::*;
use crate::mapcell::Collectible;

verus! {

/// Events the player is told about.
#[derive(Clone, Copy, PartialEq, Eq, Structural, Debug)]
pub enum Notification {
    LockNeedsGoldKey,
    LockNeedsSilverKey,
    LockNoKeyAvailable,
    FoundSecret,
    GotAllKils,
    GotAllSecrets,
    GotAllTreasures,
}

pub open spec fn notification_text(note: Notification) -> Seq<char> {
    match note {
        Notification::LockNeedsGoldKey => "Locked - you need a GOLD key"@,
        Notification::LockNeedsSilverKey => "Locked - you need a SILVER key"@,
        Notification::LockNoKeyAvailable => "Locked, and there is no key for it :("@,
        Notification::FoundSecret => "You have found a secret :)"@,
        Notification::GotAllKils => "You have killed everybody"@,
        Notification::GotAllSecrets => "You have found all the secrets"@,
        Notification::GotAllTreasures => "You have found all the treasures"@,
    }
}

/// The message for a notification.
pub fn from_notification(note: Notification) -> (r: &'static str)
    ensures
        r@ == notification_text(note),
{
    match note {
        Notification::LockNeedsGoldKey => "Locked - you need a GOLD key",
        Notification::LockNeedsSilverKey => "Locked - you need a SILVER key",
        Notification::LockNoKeyAvailable => "Locked, and there is no key for it :(",
        Notification::FoundSecret => "You have found a secret :)",
        Notification::GotAllKils => "You have killed everybody",
        Notification::GotAllSecrets => "You have found all the secrets",
        Notification::GotAllTreasures => "You have found all the treasures",
    }
}

pub open spec fn collectible_text(coll: Collectible) -> Seq<char> {
    match coll {
        Collectible::DogFood => "You ate some dog food :("@,
        Collectible::GoodFood => "You ate a tasty meal"@,
        Collectible::FirstAid => "You found a first-aid kit"@,
        Collectible::Gibs1 | Collectible::Gibs2 => "YUCK - you ate some gibs :((("@,
        Collectible::AmmoClipSmall | Collectible::AmmoClipNormal => "You found some ammo"@,
        Collectible::MachineGun => "You found a machine gun"@,
        Collectible::ChainGun => "YEAH - you found the Gatling Gun :D"@,
        Collectible::GoldKey => "You found a GOLD key"@,
        Collectible::SilverKey => "You found a SILVER key"@,
        Collectible::TreasureCross | Collectible::TreasureCup | Collectible::TreasureChest
        | Collectible::TreasureCrown => "You found some treasure"@,
        Collectible::TreasureOneUp => "You found a Megasphere :]"@,
        Collectible::AmmoBox => "You found a box of ammo"@,
        Collectible::SpearOfDestiny => "You got the SPEAR OF DESTINY"@,
        Collectible::NoItem => ""@,
    }
}

/// The message for picking up a collectible; empty for none.
pub fn from_collectible(coll: Collectible) -> (r: &'static str)
    ensures
        r@ == collectible_text(coll),
{
    match coll {
        Collectible::DogFood => "You ate some dog food :(",
        Collectible::GoodFood => "You ate a tasty meal",
        Collectible::FirstAid => "You found a first-aid kit",
        Collectible::Gibs1 | Collectible::Gibs2 => "YUCK - you ate some gibs :(((",
        Collectible::AmmoClipSmall | Collectible::AmmoClipNormal => "You found some ammo",
        Collectible::MachineGun => "You found a machine gun",
        Collectible::ChainGun => "YEAH - you found the Gatling Gun :D",
        Collectible::GoldKey => "You found a GOLD key",
        Collectible::SilverKey => "You found a SILVER key",
        Collectible::TreasureCross | Collectible::TreasureCup | Collectible::TreasureChest
        | Collectible::TreasureCrown => "You found some treasure",
        Collectible::TreasureOneUp => "You found a Megasphere :]",
        Collectible::AmmoBox => "You found a box of ammo",
        Collectible::SpearOfDestiny => "You got the SPEAR OF DESTINY",
        Collectible::NoItem => "",
    }
}

} // verus!
