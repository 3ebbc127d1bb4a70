//! Shared helpers: record predicates, cell naming and grid arithmetic.

use vstd::prelude::*;

use crate::findings::{CellName, CellNameS};
use crate::model::{Cell, Record, MAX_SAFE_MILLI};
use crate::text::{byte_lower, bytes_eq, copy_bytes, lower, to_lowercase};

verus! {

/// Width of one exterior cell in world units.
pub const CELL_SIZE: i32 = 8192;

/// Width of one exterior cell in fixed-point thousandths.
pub const CELL_SIZE_MILLI: i64 = 8192000;

/// Whether a record is a creature or person with zero health.
pub open spec fn spec_is_dead(record: Record) -> bool {
    match record {
        Record::Creature { health, .. } => health == Some(0u32),
        Record::Npc { health, .. } => health == Some(0u32),
        _ => false,
    }
}

/// Whether a record is a creature or person with zero health.
pub fn is_dead(record: &Record) -> (r: bool)
    ensures
        r == spec_is_dead(*record),
{
    match record {
        Record::Creature { health, .. } => match health {
            Some(h) => *h == 0,
            None => false,
        },
        Record::Npc { health, .. } => match health {
            Some(h) => *h == 0,
            None => false,
        },
        _ => false,
    }
}

/// Whether a record of a placeable kind carries the persistent flag.
pub open spec fn spec_is_persistent(record: Record) -> bool {
    match record {
        Record::Activator { persistent, .. } => persistent,
        Record::Alchemy { persistent, .. } => persistent,
        Record::Apparatus { persistent, .. } => persistent,
        Record::Armor { persistent, .. } => persistent,
        Record::Book { persistent, .. } => persistent,
        Record::Clothing { persistent, .. } => persistent,
        Record::Container { persistent, .. } => persistent,
        Record::Creature { persistent, .. } => persistent,
        Record::Door { persistent, .. } => persistent,
        Record::Ingredient { persistent, .. } => persistent,
        Record::Light { persistent, .. } => persistent,
        Record::Lockpick { persistent, .. } => persistent,
        Record::MiscItem { persistent, .. } => persistent,
        Record::Npc { persistent, .. } => persistent,
        Record::Probe { persistent, .. } => persistent,
        Record::RepairItem { persistent, .. } => persistent,
        Record::Static { persistent, .. } => persistent,
        Record::Weapon { persistent, .. } => persistent,
        _ => false,
    }
}

/// Whether a record of a placeable kind carries the persistent flag.
pub fn is_persistent(record: &Record) -> (r: bool)
    ensures
        r == spec_is_persistent(*record),
{
    match record {
        Record::Activator { persistent, .. } => *persistent,
        Record::Alchemy { persistent, .. } => *persistent,
        Record::Apparatus { persistent, .. } => *persistent,
        Record::Armor { persistent, .. } => *persistent,
        Record::Book { persistent, .. } => *persistent,
        Record::Clothing { persistent, .. } => *persistent,
        Record::Container { persistent, .. } => *persistent,
        Record::Creature { persistent, .. } => *persistent,
        Record::Door { persistent, .. } => *persistent,
        Record::Ingredient { persistent, .. } => *persistent,
        Record::Light { persistent, .. } => *persistent,
        Record::Lockpick { persistent, .. } => *persistent,
        Record::MiscItem { persistent, .. } => *persistent,
        Record::Npc { persistent, .. } => *persistent,
        Record::Probe { persistent, .. } => *persistent,
        Record::RepairItem { persistent, .. } => *persistent,
        Record::Static { persistent, .. } => *persistent,
        Record::Weapon { persistent, .. } => *persistent,
        _ => false,
    }
}

/// How a cell is named in a report: interior cells by their id; exterior
/// cells by their id, else their region, else nothing, plus their grid.
pub open spec fn spec_cell_name(cell: Cell) -> CellNameS {
    if cell.interior {
        CellNameS { name: cell.id@, grid: None }
    } else {
        CellNameS {
            name: if cell.id@.len() > 0 {
                cell.id@
            } else {
                match cell.region {
                    Some(r) => r@,
                    None => Seq::empty(),
                }
            },
            grid: Some(cell.grid),
        }
    }
}

/// Names a cell for a report.
pub fn get_cell_name(cell: &Cell) -> (r: CellName)
    ensures
        r@ == spec_cell_name(*cell),
{
    if cell.interior {
        CellName { name: copy_bytes(&cell.id), grid: None }
    } else if cell.id.len() > 0 {
        CellName { name: copy_bytes(&cell.id), grid: Some(cell.grid) }
    } else {
        match &cell.region {
            Some(r) => CellName { name: copy_bytes(r), grid: Some(cell.grid) },
            None => CellName { name: Vec::new(), grid: Some(cell.grid) },
        }
    }
}

/// The exterior grid square a world coordinate falls in: the coordinate, in
/// thousandths, floor-divided by the cell width.
pub fn get_cell_grid(x_milli: i64, y_milli: i64) -> (r: (i64, i64))
    requires
        -MAX_SAFE_MILLI <= x_milli <= MAX_SAFE_MILLI,
        -MAX_SAFE_MILLI <= y_milli <= MAX_SAFE_MILLI,
    ensures
        r.0 == x_milli as int / CELL_SIZE_MILLI as int,
        r.1 == y_milli as int / CELL_SIZE_MILLI as int,
{
    (floor_div_cell(x_milli), floor_div_cell(y_milli))
}

/// Floor division of a coordinate in thousandths by the cell width.
pub fn floor_div_cell(a: i64) -> (q: i64)
    requires
        -MAX_SAFE_MILLI <= a <= MAX_SAFE_MILLI,
    ensures
        q == a as int / CELL_SIZE_MILLI as int,
{
    let d: u64 = 8192000;
    if a >= 0 {
        let qu: u64 = (a as u64) / d;
        proof {
            assert(a as int == d as int * (qu as int) + (a as int % d as int)) by {
                vstd::arithmetic::div_mod::lemma_fundamental_div_mod(a as int, d as int);
            }
        }
        qu as i64
    } else {
        let mag: u64 = (-a) as u64;
        let qu: u64 = mag / d;
        let rem: u64 = mag % d;
        if rem == 0 {
            proof {
                vstd::arithmetic::div_mod::lemma_fundamental_div_mod(mag as int, d as int);
                vstd::arithmetic::div_mod::lemma_fundamental_div_mod_converse(
                    a as int,
                    d as int,
                    -(qu as int),
                    0,
                );
            }
            -(qu as i64)
        } else {
            proof {
                vstd::arithmetic::div_mod::lemma_fundamental_div_mod(mag as int, d as int);
                vstd::arithmetic::div_mod::lemma_fundamental_div_mod_converse(
                    a as int,
                    d as int,
                    -(qu as int) - 1,
                    d as int - rem as int,
                );
            }
            -(qu as i64) - 1
        }
    }
}

/// "marker_divine.nif", lowercased bytes.
pub open spec fn marker_mesh_divine() -> Seq<u8> {
    seq![
        0x6du8, 0x61u8, 0x72u8, 0x6bu8, 0x65u8, 0x72u8, 0x5fu8, 0x64u8, 0x69u8, 0x76u8, 0x69u8,
        0x6eu8, 0x65u8, 0x2eu8, 0x6eu8, 0x69u8, 0x66u8,
    ]
}

/// "marker_temple.nif", lowercased bytes.
pub open spec fn marker_mesh_temple() -> Seq<u8> {
    seq![
        0x6du8, 0x61u8, 0x72u8, 0x6bu8, 0x65u8, 0x72u8, 0x5fu8, 0x74u8, 0x65u8, 0x6du8, 0x70u8,
        0x6cu8, 0x65u8, 0x2eu8, 0x6eu8, 0x69u8, 0x66u8,
    ]
}

/// "marker_travel.nif", lowercased bytes.
pub open spec fn marker_mesh_travel() -> Seq<u8> {
    seq![
        0x6du8, 0x61u8, 0x72u8, 0x6bu8, 0x65u8, 0x72u8, 0x5fu8, 0x74u8, 0x72u8, 0x61u8, 0x76u8,
        0x65u8, 0x6cu8, 0x2eu8, 0x6eu8, 0x69u8, 0x66u8,
    ]
}

/// Whether a mesh names one of the non-physical marker models, ignoring
/// ASCII case. A book carrying one is a marker item, not a readable
/// object placed in the world.
pub open spec fn spec_is_marker(mesh: Seq<u8>) -> bool {
    lower(mesh) == marker_mesh_divine() || lower(mesh) == marker_mesh_temple() || lower(mesh)
        == marker_mesh_travel()
}

/// Whether a mesh names one of the non-physical marker models.
pub fn is_marker(mesh: &Vec<u8>) -> (r: bool)
    ensures
        r == spec_is_marker(mesh@),
{
    let divine: Vec<u8> = vec![
        0x6du8, 0x61u8, 0x72u8, 0x6bu8, 0x65u8, 0x72u8, 0x5fu8, 0x64u8, 0x69u8, 0x76u8, 0x69u8,
        0x6eu8, 0x65u8, 0x2eu8, 0x6eu8, 0x69u8, 0x66u8,
    ];
    let temple: Vec<u8> = vec![
        0x6du8, 0x61u8, 0x72u8, 0x6bu8, 0x65u8, 0x72u8, 0x5fu8, 0x74u8, 0x65u8, 0x6du8, 0x70u8,
        0x6cu8, 0x65u8, 0x2eu8, 0x6eu8, 0x69u8, 0x66u8,
    ];
    let travel: Vec<u8> = vec![
        0x6du8, 0x61u8, 0x72u8, 0x6bu8, 0x65u8, 0x72u8, 0x5fu8, 0x74u8, 0x72u8, 0x61u8, 0x76u8,
        0x65u8, 0x6cu8, 0x2eu8, 0x6eu8, 0x69u8, 0x66u8,
    ];
    proof {
        assert(divine@ =~= marker_mesh_divine());
        assert(temple@ =~= marker_mesh_temple());
        assert(travel@ =~= marker_mesh_travel());
    }
    let lowered = to_lowercase(mesh);
    bytes_eq(&lowered, &divine) || bytes_eq(&lowered, &temple) || bytes_eq(&lowered, &travel)
}

/// Whether `s` begins with `prefix`, ignoring ASCII case.
pub open spec fn spec_ci_starts_with(s: Seq<u8>, prefix: Seq<u8>) -> bool {
    s.len() >= prefix.len() && lower(s.take(prefix.len() as int)) == lower(prefix)
}

/// Whether `s` begins with `prefix`, ignoring ASCII case.
pub fn ci_starts_with(s: &Vec<u8>, prefix: &Vec<u8>) -> (r: bool)
    ensures
        r == spec_ci_starts_with(s@, prefix@),
{
    if s.len() < prefix.len() {
        return false;
    }
    let ghost head = s@.take(prefix@.len() as int);
    let mut i: usize = 0;
    while i < prefix.len()
        invariant
            i <= prefix.len(),
            prefix.len() <= s.len(),
            head == s@.take(prefix@.len() as int),
            forall|j: int| 0 <= j < i ==> lower(head)[j] == lower(prefix@)[j],
        decreases prefix.len() - i,
    {
        if byte_lower(s[i]) != byte_lower(prefix[i]) {
            proof {
                assert(head[i as int] == s@[i as int]);
                assert(lower(head)[i as int] != lower(prefix@)[i as int]);
            }
            return false;
        }
        proof {
            assert(head[i as int] == s@[i as int]);
        }
        i = i + 1;
    }
    proof {
        assert(lower(head) =~= lower(prefix@));
    }
    true
}

} // verus!
