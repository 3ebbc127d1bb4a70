//! The record model the validators work on.
//!
//! Records are read-only views over an already-parsed plugin file. Strings
//! are byte strings as stored in the file. World coordinates appear in
//! fixed-point thousandths of a world unit; a coordinate that was not a
//! finite number is kept as such, since the bounds rule must report it.

use vstd::prelude::*;

use crate::text::copy_bytes;

verus! {

/// One world coordinate: a finite value in thousandths of a unit, or the
/// marker for a value that was not a finite number.
#[derive(Clone, Copy, Debug, PartialEq, Eq, Structural)]
pub enum Coord {
    NonFinite,
    Milli(i64),
}

/// Largest magnitude, in thousandths, that the bounds rule treats as a safe
/// coordinate (the largest integer a double holds exactly).
pub const MAX_SAFE_MILLI: i64 = 9007199254740991000;

/// A 3-component translation.
#[derive(Clone, Copy, Debug, PartialEq, Eq, Structural)]
pub struct Translation {
    pub x: Coord,
    pub y: Coord,
    pub z: Coord,
}

/// A 3-component rotation, in fixed-point thousandths.
#[derive(Clone, Copy, Debug, PartialEq, Eq, Structural)]
pub struct Rotation {
    pub x: i64,
    pub y: i64,
    pub z: i64,
}

/// A placed instance of a base object inside a cell.
#[derive(Clone, Debug, PartialEq, Eq)]
pub struct Placement {
    pub id: Vec<u8>,
    pub translation: Translation,
    pub rotation: Rotation,
    pub deleted: Option<bool>,
    pub owner_faction: Option<Vec<u8>>,
    pub owner_faction_rank: Option<u32>,
}

/// A spatial partition of the game world, interior or exterior.
#[derive(Debug, PartialEq, Eq)]
pub struct Cell {
    pub id: Vec<u8>,
    pub region: Option<Vec<u8>>,
    pub interior: bool,
    pub grid: (i32, i32),
    pub has_water: bool,
    /// Explicit water height in thousandths, where the file carries one.
    pub water_height: Option<i64>,
    /// Fog density in thousandths, where the file carries atmosphere data.
    pub fog_density: Option<i64>,
    pub references: Vec<Placement>,
}

/// One navigation-graph point: a location and the point's own connection
/// count.
#[derive(Clone, Copy, Debug, PartialEq, Eq)]
pub struct PathGridPoint {
    pub location: (i32, i32, i32),
    pub connection_count: u32,
}

/// A navigation graph associated with a cell.
#[derive(Debug, PartialEq, Eq)]
pub struct PathGrid {
    pub cell: Option<Vec<u8>>,
    pub grid: Option<(i32, i32)>,
    pub points: Option<Vec<PathGridPoint>>,
    pub connections: Option<Vec<u32>>,
}

/// An inventory line: a signed quantity and an item id.
#[derive(Clone, Debug, PartialEq, Eq)]
pub struct InventoryEntry {
    pub count: i32,
    pub id: Vec<u8>,
}

/// A leveled-list line: an entry id and the level it appears at.
#[derive(Clone, Debug, PartialEq, Eq)]
pub struct LeveledEntry {
    pub id: Vec<u8>,
    pub level: u16,
}

/// The human-readable kind of a record.
#[derive(Clone, Copy, Debug, PartialEq, Eq, Structural)]
pub enum RecordKind {
    Activator,
    Alchemy,
    Apparatus,
    Armor,
    Birthsign,
    Bodypart,
    Book,
    Cell,
    Class,
    Clothing,
    Container,
    Creature,
    Dialogue,
    Door,
    Enchanting,
    Faction,
    GameSetting,
    GlobalVariable,
    Header,
    Info,
    Ingredient,
    Landscape,
    LandscapeTexture,
    LeveledCreature,
    LeveledItem,
    Light,
    Lockpick,
    MagicEffect,
    MiscItem,
    Npc,
    PathGrid,
    Probe,
    Race,
    Region,
    RepairItem,
    Script,
    Skill,
    Sound,
    SoundGen,
    Spell,
    StartScript,
    Static,
    Weapon,
}

/// A record of the plugin file: a closed union over every record kind, each
/// variant carrying the fields the validation rules read.
#[derive(Debug, PartialEq, Eq)]
pub enum Record {
    Activator { id: Vec<u8>, persistent: bool, mesh: Vec<u8> },
    Alchemy { id: Vec<u8>, persistent: bool, icon: Vec<u8>, mesh: Vec<u8>, name: Vec<u8> },
    Apparatus { id: Vec<u8>, persistent: bool, icon: Vec<u8>, mesh: Vec<u8>, name: Vec<u8> },
    Armor { id: Vec<u8>, persistent: bool, icon: Vec<u8>, mesh: Vec<u8>, name: Vec<u8> },
    Birthsign { id: Vec<u8> },
    Bodypart { id: Vec<u8> },
    Book {
        id: Vec<u8>,
        persistent: bool,
        icon: Vec<u8>,
        mesh: Vec<u8>,
        name: Vec<u8>,
        marker: bool,
    },
    Cell(Cell),
    Class { id: Vec<u8> },
    Clothing { id: Vec<u8>, persistent: bool, icon: Vec<u8>, mesh: Vec<u8>, name: Vec<u8> },
    Container {
        id: Vec<u8>,
        persistent: bool,
        mesh: Vec<u8>,
        inventory: Option<Vec<InventoryEntry>>,
    },
    Creature {
        id: Vec<u8>,
        persistent: bool,
        mesh: Vec<u8>,
        inventory: Option<Vec<InventoryEntry>>,
        health: Option<u32>,
    },
    Dialogue { id: Vec<u8> },
    Door { id: Vec<u8>, persistent: bool, mesh: Vec<u8>, name: Vec<u8> },
    Enchanting { id: Vec<u8> },
    Faction { id: Vec<u8> },
    GameSetting { id: Vec<u8> },
    GlobalVariable { id: Vec<u8> },
    Header,
    Info { id: Vec<u8>, script_text: Option<Vec<u8>> },
    Ingredient { id: Vec<u8>, persistent: bool, icon: Vec<u8>, mesh: Vec<u8>, name: Vec<u8> },
    Landscape,
    LandscapeTexture,
    LeveledCreature { id: Vec<u8>, creatures: Option<Vec<LeveledEntry>> },
    LeveledItem { id: Vec<u8>, items: Option<Vec<LeveledEntry>> },
    Light {
        id: Vec<u8>,
        persistent: bool,
        icon: Vec<u8>,
        mesh: Vec<u8>,
        name: Vec<u8>,
        carryable: bool,
    },
    Lockpick { id: Vec<u8>, persistent: bool, icon: Vec<u8>, mesh: Vec<u8>, name: Vec<u8> },
    MagicEffect,
    MiscItem { id: Vec<u8>, persistent: bool, icon: Vec<u8>, mesh: Vec<u8>, name: Vec<u8> },
    Npc {
        id: Vec<u8>,
        persistent: bool,
        name: Vec<u8>,
        inventory: Option<Vec<InventoryEntry>>,
        health: Option<u32>,
    },
    PathGrid(PathGrid),
    Probe { id: Vec<u8>, persistent: bool, icon: Vec<u8>, mesh: Vec<u8>, name: Vec<u8> },
    Race { id: Vec<u8> },
    Region { id: Vec<u8> },
    RepairItem { id: Vec<u8>, persistent: bool, icon: Vec<u8>, mesh: Vec<u8>, name: Vec<u8> },
    Script { id: Vec<u8>, script_text: Option<Vec<u8>> },
    Skill,
    Sound { id: Vec<u8> },
    SoundGen { id: Vec<u8> },
    Spell { id: Vec<u8> },
    StartScript { id: Vec<u8> },
    Static { id: Vec<u8>, persistent: bool, mesh: Vec<u8> },
    Weapon { id: Vec<u8>, persistent: bool, icon: Vec<u8>, mesh: Vec<u8>, name: Vec<u8> },
}

impl Record {
    /// The kind of this record.
    pub open spec fn spec_kind(&self) -> RecordKind {
        match self {
            Record::Activator { .. } => RecordKind::Activator,
            Record::Alchemy { .. } => RecordKind::Alchemy,
            Record::Apparatus { .. } => RecordKind::Apparatus,
            Record::Armor { .. } => RecordKind::Armor,
            Record::Birthsign { .. } => RecordKind::Birthsign,
            Record::Bodypart { .. } => RecordKind::Bodypart,
            Record::Book { .. } => RecordKind::Book,
            Record::Cell(..) => RecordKind::Cell,
            Record::Class { .. } => RecordKind::Class,
            Record::Clothing { .. } => RecordKind::Clothing,
            Record::Container { .. } => RecordKind::Container,
            Record::Creature { .. } => RecordKind::Creature,
            Record::Dialogue { .. } => RecordKind::Dialogue,
            Record::Door { .. } => RecordKind::Door,
            Record::Enchanting { .. } => RecordKind::Enchanting,
            Record::Faction { .. } => RecordKind::Faction,
            Record::GameSetting { .. } => RecordKind::GameSetting,
            Record::GlobalVariable { .. } => RecordKind::GlobalVariable,
            Record::Header => RecordKind::Header,
            Record::Info { .. } => RecordKind::Info,
            Record::Ingredient { .. } => RecordKind::Ingredient,
            Record::Landscape => RecordKind::Landscape,
            Record::LandscapeTexture => RecordKind::LandscapeTexture,
            Record::LeveledCreature { .. } => RecordKind::LeveledCreature,
            Record::LeveledItem { .. } => RecordKind::LeveledItem,
            Record::Light { .. } => RecordKind::Light,
            Record::Lockpick { .. } => RecordKind::Lockpick,
            Record::MagicEffect => RecordKind::MagicEffect,
            Record::MiscItem { .. } => RecordKind::MiscItem,
            Record::Npc { .. } => RecordKind::Npc,
            Record::PathGrid(..) => RecordKind::PathGrid,
            Record::Probe { .. } => RecordKind::Probe,
            Record::Race { .. } => RecordKind::Race,
            Record::Region { .. } => RecordKind::Region,
            Record::RepairItem { .. } => RecordKind::RepairItem,
            Record::Script { .. } => RecordKind::Script,
            Record::Skill => RecordKind::Skill,
            Record::Sound { .. } => RecordKind::Sound,
            Record::SoundGen { .. } => RecordKind::SoundGen,
            Record::Spell { .. } => RecordKind::Spell,
            Record::StartScript { .. } => RecordKind::StartScript,
            Record::Static { .. } => RecordKind::Static,
            Record::Weapon { .. } => RecordKind::Weapon,
        }
    }

    /// The kind of this record.
    #[verifier::when_used_as_spec(spec_kind)]
    pub fn kind(&self) -> (r: RecordKind)
        ensures
            r == self.spec_kind(),
    {
        match self {
            Record::Activator { .. } => RecordKind::Activator,
            Record::Alchemy { .. } => RecordKind::Alchemy,
            Record::Apparatus { .. } => RecordKind::Apparatus,
            Record::Armor { .. } => RecordKind::Armor,
            Record::Birthsign { .. } => RecordKind::Birthsign,
            Record::Bodypart { .. } => RecordKind::Bodypart,
            Record::Book { .. } => RecordKind::Book,
            Record::Cell(..) => RecordKind::Cell,
            Record::Class { .. } => RecordKind::Class,
            Record::Clothing { .. } => RecordKind::Clothing,
            Record::Container { .. } => RecordKind::Container,
            Record::Creature { .. } => RecordKind::Creature,
            Record::Dialogue { .. } => RecordKind::Dialogue,
            Record::Door { .. } => RecordKind::Door,
            Record::Enchanting { .. } => RecordKind::Enchanting,
            Record::Faction { .. } => RecordKind::Faction,
            Record::GameSetting { .. } => RecordKind::GameSetting,
            Record::GlobalVariable { .. } => RecordKind::GlobalVariable,
            Record::Header => RecordKind::Header,
            Record::Info { .. } => RecordKind::Info,
            Record::Ingredient { .. } => RecordKind::Ingredient,
            Record::Landscape => RecordKind::Landscape,
            Record::LandscapeTexture => RecordKind::LandscapeTexture,
            Record::LeveledCreature { .. } => RecordKind::LeveledCreature,
            Record::LeveledItem { .. } => RecordKind::LeveledItem,
            Record::Light { .. } => RecordKind::Light,
            Record::Lockpick { .. } => RecordKind::Lockpick,
            Record::MagicEffect => RecordKind::MagicEffect,
            Record::MiscItem { .. } => RecordKind::MiscItem,
            Record::Npc { .. } => RecordKind::Npc,
            Record::PathGrid(..) => RecordKind::PathGrid,
            Record::Probe { .. } => RecordKind::Probe,
            Record::Race { .. } => RecordKind::Race,
            Record::Region { .. } => RecordKind::Region,
            Record::RepairItem { .. } => RecordKind::RepairItem,
            Record::Script { .. } => RecordKind::Script,
            Record::Skill => RecordKind::Skill,
            Record::Sound { .. } => RecordKind::Sound,
            Record::SoundGen { .. } => RecordKind::SoundGen,
            Record::Spell { .. } => RecordKind::Spell,
            Record::StartScript { .. } => RecordKind::StartScript,
            Record::Static { .. } => RecordKind::Static,
            Record::Weapon { .. } => RecordKind::Weapon,
        }
    }

    /// The record's stable identifier, empty for kinds with no natural id.
    pub open spec fn spec_id(&self) -> Seq<u8> {
        match self {
            Record::Activator { id, .. } => id@,
            Record::Alchemy { id, .. } => id@,
            Record::Apparatus { id, .. } => id@,
            Record::Armor { id, .. } => id@,
            Record::Birthsign { id } => id@,
            Record::Bodypart { id } => id@,
            Record::Book { id, .. } => id@,
            Record::Cell(c) => c.id@,
            Record::Class { id } => id@,
            Record::Clothing { id, .. } => id@,
            Record::Container { id, .. } => id@,
            Record::Creature { id, .. } => id@,
            Record::Dialogue { id } => id@,
            Record::Door { id, .. } => id@,
            Record::Enchanting { id } => id@,
            Record::Faction { id } => id@,
            Record::GameSetting { id } => id@,
            Record::GlobalVariable { id } => id@,
            Record::Header => Seq::empty(),
            Record::Info { id, .. } => id@,
            Record::Ingredient { id, .. } => id@,
            Record::Landscape => Seq::empty(),
            Record::LandscapeTexture => Seq::empty(),
            Record::LeveledCreature { id, .. } => id@,
            Record::LeveledItem { id, .. } => id@,
            Record::Light { id, .. } => id@,
            Record::Lockpick { id, .. } => id@,
            Record::MagicEffect => Seq::empty(),
            Record::MiscItem { id, .. } => id@,
            Record::Npc { id, .. } => id@,
            Record::PathGrid(..) => Seq::empty(),
            Record::Probe { id, .. } => id@,
            Record::Race { id } => id@,
            Record::Region { id } => id@,
            Record::RepairItem { id, .. } => id@,
            Record::Script { id, .. } => id@,
            Record::Skill => Seq::empty(),
            Record::Sound { id } => id@,
            Record::SoundGen { id } => id@,
            Record::Spell { id } => id@,
            Record::StartScript { id } => id@,
            Record::Static { id, .. } => id@,
            Record::Weapon { id, .. } => id@,
        }
    }

    /// The record's stable identifier as a fresh byte string.
    pub fn id_bytes(&self) -> (r: Vec<u8>)
        ensures
            r@ == self.spec_id(),
    {
        match self {
            Record::Activator { id, .. } => copy_bytes(id),
            Record::Alchemy { id, .. } => copy_bytes(id),
            Record::Apparatus { id, .. } => copy_bytes(id),
            Record::Armor { id, .. } => copy_bytes(id),
            Record::Birthsign { id } => copy_bytes(id),
            Record::Bodypart { id } => copy_bytes(id),
            Record::Book { id, .. } => copy_bytes(id),
            Record::Cell(c) => copy_bytes(&c.id),
            Record::Class { id } => copy_bytes(id),
            Record::Clothing { id, .. } => copy_bytes(id),
            Record::Container { id, .. } => copy_bytes(id),
            Record::Creature { id, .. } => copy_bytes(id),
            Record::Dialogue { id } => copy_bytes(id),
            Record::Door { id, .. } => copy_bytes(id),
            Record::Enchanting { id } => copy_bytes(id),
            Record::Faction { id } => copy_bytes(id),
            Record::GameSetting { id } => copy_bytes(id),
            Record::GlobalVariable { id } => copy_bytes(id),
            Record::Header => Vec::new(),
            Record::Info { id, .. } => copy_bytes(id),
            Record::Ingredient { id, .. } => copy_bytes(id),
            Record::Landscape => Vec::new(),
            Record::LandscapeTexture => Vec::new(),
            Record::LeveledCreature { id, .. } => copy_bytes(id),
            Record::LeveledItem { id, .. } => copy_bytes(id),
            Record::Light { id, .. } => copy_bytes(id),
            Record::Lockpick { id, .. } => copy_bytes(id),
            Record::MagicEffect => Vec::new(),
            Record::MiscItem { id, .. } => copy_bytes(id),
            Record::Npc { id, .. } => copy_bytes(id),
            Record::PathGrid(..) => Vec::new(),
            Record::Probe { id, .. } => copy_bytes(id),
            Record::Race { id } => copy_bytes(id),
            Record::Region { id } => copy_bytes(id),
            Record::RepairItem { id, .. } => copy_bytes(id),
            Record::Script { id, .. } => copy_bytes(id),
            Record::Skill => Vec::new(),
            Record::Sound { id } => copy_bytes(id),
            Record::SoundGen { id } => copy_bytes(id),
            Record::Spell { id } => copy_bytes(id),
            Record::StartScript { id } => copy_bytes(id),
            Record::Static { id, .. } => copy_bytes(id),
            Record::Weapon { id, .. } => copy_bytes(id),
        }
    }
}

} // verus!
