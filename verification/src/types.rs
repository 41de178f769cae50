//! The closed set of object types a level can place, each with its
//! numeric identifier from the level format.

use vstd::prelude::*;

verus! {

/// Every object type the level format can place.
#[derive(Clone, Copy, Debug, PartialEq, Eq, Structural)]
pub enum ThingType {
    Arachnotron,
    ArchVile,
    BaronOfHell,
    Cacodemon,
    CommanderKeen,
    Cyberdemon,
    Demon,
    HeavyWeaponDude,
    HellKnight,
    Imp,
    LostSoul,
    Mancubus,
    PainElemental,
    Revenant,
    ShotgunGuy,
    Spectre,
    SpiderDemon,
    WolfensteinSS,
    ZombieMan,
    BFG9000,
    Chaingun,
    Chainsaw,
    PlasmaRifle,
    RocketLauncher,
    Shotgun,
    SuperShotgun,
    Shell4,
    BulletBox,
    RocketBox,
    ShellBox,
    Clip,
    EnergyCell,
    EnergyPack,
    Rocket,
    ArmorBonus,
    Berserk,
    ComputerMap,
    HealthBonus,
    Invulnerability,
    LightAmp,
    Megasphere,
    PartialInvisibility,
    Soulsphere,
    GreenArmor,
    Backpack,
    Medikit,
    BlueArmor,
    RadSuit,
    Stimpack,
    BlueCard,
    BlueSkull,
    RedCard,
    RedSkull,
    YellowCard,
    YellowSkull,
    DeathMatchStart,
    MonsterSpawner,
    Player1Start,
    Player2Start,
    Player3Start,
    Player4Start,
    RomeroHead,
    SpawnSpot,
    TeleportLanding,
    Unknown,
}

impl ThingType {
    /// The type's numeric identifier.
    pub open spec fn spec_id(self) -> u16 {
        match self {
            ThingType::Arachnotron => 68,
            ThingType::ArchVile => 64,
            ThingType::BaronOfHell => 3003,
            ThingType::Cacodemon => 3005,
            ThingType::CommanderKeen => 72,
            ThingType::Cyberdemon => 16,
            ThingType::Demon => 3002,
            ThingType::HeavyWeaponDude => 65,
            ThingType::HellKnight => 69,
            ThingType::Imp => 3001,
            ThingType::LostSoul => 3006,
            ThingType::Mancubus => 67,
            ThingType::PainElemental => 71,
            ThingType::Revenant => 66,
            ThingType::ShotgunGuy => 9,
            ThingType::Spectre => 58,
            ThingType::SpiderDemon => 7,
            ThingType::WolfensteinSS => 84,
            ThingType::ZombieMan => 3004,
            ThingType::BFG9000 => 2006,
            ThingType::Chaingun => 2002,
            ThingType::Chainsaw => 2005,
            ThingType::PlasmaRifle => 2004,
            ThingType::RocketLauncher => 2003,
            ThingType::Shotgun => 2001,
            ThingType::SuperShotgun => 82,
            ThingType::Shell4 => 2008,
            ThingType::BulletBox => 2048,
            ThingType::RocketBox => 2046,
            ThingType::ShellBox => 2049,
            ThingType::Clip => 2007,
            ThingType::EnergyCell => 2047,
            ThingType::EnergyPack => 17,
            ThingType::Rocket => 2010,
            ThingType::ArmorBonus => 2015,
            ThingType::Berserk => 2023,
            ThingType::ComputerMap => 2026,
            ThingType::HealthBonus => 2014,
            ThingType::Invulnerability => 2022,
            ThingType::LightAmp => 2045,
            ThingType::Megasphere => 83,
            ThingType::PartialInvisibility => 2024,
            ThingType::Soulsphere => 2013,
            ThingType::GreenArmor => 2018,
            ThingType::Backpack => 8,
            ThingType::Medikit => 2012,
            ThingType::BlueArmor => 2019,
            ThingType::RadSuit => 2025,
            ThingType::Stimpack => 2011,
            ThingType::BlueCard => 5,
            ThingType::BlueSkull => 40,
            ThingType::RedCard => 13,
            ThingType::RedSkull => 38,
            ThingType::YellowCard => 6,
            ThingType::YellowSkull => 39,
            ThingType::DeathMatchStart => 11,
            ThingType::MonsterSpawner => 89,
            ThingType::Player1Start => 1,
            ThingType::Player2Start => 2,
            ThingType::Player3Start => 3,
            ThingType::Player4Start => 4,
            ThingType::RomeroHead => 88,
            ThingType::SpawnSpot => 87,
            ThingType::TeleportLanding => 14,
            ThingType::Unknown => 65535,
        }
    }

    /// The type's numeric identifier.
    pub fn id(&self) -> (r: u16)
        ensures
            r == self.spec_id(),
    {
        match self {
            ThingType::Arachnotron => 68,
            ThingType::ArchVile => 64,
            ThingType::BaronOfHell => 3003,
            ThingType::Cacodemon => 3005,
            ThingType::CommanderKeen => 72,
            ThingType::Cyberdemon => 16,
            ThingType::Demon => 3002,
            ThingType::HeavyWeaponDude => 65,
            ThingType::HellKnight => 69,
            ThingType::Imp => 3001,
            ThingType::LostSoul => 3006,
            ThingType::Mancubus => 67,
            ThingType::PainElemental => 71,
            ThingType::Revenant => 66,
            ThingType::ShotgunGuy => 9,
            ThingType::Spectre => 58,
            ThingType::SpiderDemon => 7,
            ThingType::WolfensteinSS => 84,
            ThingType::ZombieMan => 3004,
            ThingType::BFG9000 => 2006,
            ThingType::Chaingun => 2002,
            ThingType::Chainsaw => 2005,
            ThingType::PlasmaRifle => 2004,
            ThingType::RocketLauncher => 2003,
            ThingType::Shotgun => 2001,
            ThingType::SuperShotgun => 82,
            ThingType::Shell4 => 2008,
            ThingType::BulletBox => 2048,
            ThingType::RocketBox => 2046,
            ThingType::ShellBox => 2049,
            ThingType::Clip => 2007,
            ThingType::EnergyCell => 2047,
            ThingType::EnergyPack => 17,
            ThingType::Rocket => 2010,
            ThingType::ArmorBonus => 2015,
            ThingType::Berserk => 2023,
            ThingType::ComputerMap => 2026,
            ThingType::HealthBonus => 2014,
            ThingType::Invulnerability => 2022,
            ThingType::LightAmp => 2045,
            ThingType::Megasphere => 83,
            ThingType::PartialInvisibility => 2024,
            ThingType::Soulsphere => 2013,
            ThingType::GreenArmor => 2018,
            ThingType::Backpack => 8,
            ThingType::Medikit => 2012,
            ThingType::BlueArmor => 2019,
            ThingType::RadSuit => 2025,
            ThingType::Stimpack => 2011,
            ThingType::BlueCard => 5,
            ThingType::BlueSkull => 40,
            ThingType::RedCard => 13,
            ThingType::RedSkull => 38,
            ThingType::YellowCard => 6,
            ThingType::YellowSkull => 39,
            ThingType::DeathMatchStart => 11,
            ThingType::MonsterSpawner => 89,
            ThingType::Player1Start => 1,
            ThingType::Player2Start => 2,
            ThingType::Player3Start => 3,
            ThingType::Player4Start => 4,
            ThingType::RomeroHead => 88,
            ThingType::SpawnSpot => 87,
            ThingType::TeleportLanding => 14,
            ThingType::Unknown => 65535,
        }
    }

    /// The type a numeric identifier names, `Unknown` for any other.
    pub open spec fn spec_from_id(value: u16) -> ThingType {
        match value {
            68 => ThingType::Arachnotron,
            64 => ThingType::ArchVile,
            3003 => ThingType::BaronOfHell,
            3005 => ThingType::Cacodemon,
            72 => ThingType::CommanderKeen,
            16 => ThingType::Cyberdemon,
            3002 => ThingType::Demon,
            65 => ThingType::HeavyWeaponDude,
            69 => ThingType::HellKnight,
            3001 => ThingType::Imp,
            3006 => ThingType::LostSoul,
            67 => ThingType::Mancubus,
            71 => ThingType::PainElemental,
            66 => ThingType::Revenant,
            9 => ThingType::ShotgunGuy,
            58 => ThingType::Spectre,
            7 => ThingType::SpiderDemon,
            84 => ThingType::WolfensteinSS,
            3004 => ThingType::ZombieMan,
            2006 => ThingType::BFG9000,
            2002 => ThingType::Chaingun,
            2005 => ThingType::Chainsaw,
            2004 => ThingType::PlasmaRifle,
            2003 => ThingType::RocketLauncher,
            2001 => ThingType::Shotgun,
            82 => ThingType::SuperShotgun,
            2008 => ThingType::Shell4,
            2048 => ThingType::BulletBox,
            2046 => ThingType::RocketBox,
            2049 => ThingType::ShellBox,
            2007 => ThingType::Clip,
            2047 => ThingType::EnergyCell,
            17 => ThingType::EnergyPack,
            2010 => ThingType::Rocket,
            2015 => ThingType::ArmorBonus,
            2023 => ThingType::Berserk,
            2026 => ThingType::ComputerMap,
            2014 => ThingType::HealthBonus,
            2022 => ThingType::Invulnerability,
            2045 => ThingType::LightAmp,
            83 => ThingType::Megasphere,
            2024 => ThingType::PartialInvisibility,
            2013 => ThingType::Soulsphere,
            2018 => ThingType::GreenArmor,
            8 => ThingType::Backpack,
            2012 => ThingType::Medikit,
            2019 => ThingType::BlueArmor,
            2025 => ThingType::RadSuit,
            2011 => ThingType::Stimpack,
            5 => ThingType::BlueCard,
            40 => ThingType::BlueSkull,
            13 => ThingType::RedCard,
            38 => ThingType::RedSkull,
            6 => ThingType::YellowCard,
            39 => ThingType::YellowSkull,
            11 => ThingType::DeathMatchStart,
            89 => ThingType::MonsterSpawner,
            1 => ThingType::Player1Start,
            2 => ThingType::Player2Start,
            3 => ThingType::Player3Start,
            4 => ThingType::Player4Start,
            88 => ThingType::RomeroHead,
            87 => ThingType::SpawnSpot,
            14 => ThingType::TeleportLanding,
            _ => ThingType::Unknown,
        }
    }

    /// The type a numeric identifier names, `Unknown` for any other.
    pub fn from_id(value: u16) -> (r: ThingType)
        ensures
            r == Self::spec_from_id(value),
            r != ThingType::Unknown ==> r.spec_id() == value,
    {
        match value {
            68 => ThingType::Arachnotron,
            64 => ThingType::ArchVile,
            3003 => ThingType::BaronOfHell,
            3005 => ThingType::Cacodemon,
            72 => ThingType::CommanderKeen,
            16 => ThingType::Cyberdemon,
            3002 => ThingType::Demon,
            65 => ThingType::HeavyWeaponDude,
            69 => ThingType::HellKnight,
            3001 => ThingType::Imp,
            3006 => ThingType::LostSoul,
            67 => ThingType::Mancubus,
            71 => ThingType::PainElemental,
            66 => ThingType::Revenant,
            9 => ThingType::ShotgunGuy,
            58 => ThingType::Spectre,
            7 => ThingType::SpiderDemon,
            84 => ThingType::WolfensteinSS,
            3004 => ThingType::ZombieMan,
            2006 => ThingType::BFG9000,
            2002 => ThingType::Chaingun,
            2005 => ThingType::Chainsaw,
            2004 => ThingType::PlasmaRifle,
            2003 => ThingType::RocketLauncher,
            2001 => ThingType::Shotgun,
            82 => ThingType::SuperShotgun,
            2008 => ThingType::Shell4,
            2048 => ThingType::BulletBox,
            2046 => ThingType::RocketBox,
            2049 => ThingType::ShellBox,
            2007 => ThingType::Clip,
            2047 => ThingType::EnergyCell,
            17 => ThingType::EnergyPack,
            2010 => ThingType::Rocket,
            2015 => ThingType::ArmorBonus,
            2023 => ThingType::Berserk,
            2026 => ThingType::ComputerMap,
            2014 => ThingType::HealthBonus,
            2022 => ThingType::Invulnerability,
            2045 => ThingType::LightAmp,
            83 => ThingType::Megasphere,
            2024 => ThingType::PartialInvisibility,
            2013 => ThingType::Soulsphere,
            2018 => ThingType::GreenArmor,
            8 => ThingType::Backpack,
            2012 => ThingType::Medikit,
            2019 => ThingType::BlueArmor,
            2025 => ThingType::RadSuit,
            2011 => ThingType::Stimpack,
            5 => ThingType::BlueCard,
            40 => ThingType::BlueSkull,
            13 => ThingType::RedCard,
            38 => ThingType::RedSkull,
            6 => ThingType::YellowCard,
            39 => ThingType::YellowSkull,
            11 => ThingType::DeathMatchStart,
            89 => ThingType::MonsterSpawner,
            1 => ThingType::Player1Start,
            2 => ThingType::Player2Start,
            3 => ThingType::Player3Start,
            4 => ThingType::Player4Start,
            88 => ThingType::RomeroHead,
            87 => ThingType::SpawnSpot,
            14 => ThingType::TeleportLanding,
            _ => ThingType::Unknown,
        }
    }
}

} // verus!
