//! Findings: the structured diagnostics the rules emit.
//!
//! A finding carries the data a report line is rendered from; rendering to
//! text is a presentation concern outside the validation core.

use vstd::prelude::*;

use crate::model::{RecordKind, Translation};

verus! {

/// A required field of a record.
#[derive(Clone, Copy, Debug, PartialEq, Eq, Structural)]
pub enum FieldKind {
    Icon,
    Mesh,
    Name,
}

/// How a cell is named in a report: interior cells by id alone, exterior
/// cells by id (or region, or nothing) plus their grid coordinates.
#[derive(Debug, PartialEq, Eq)]
pub struct CellName {
    pub name: Vec<u8>,
    pub grid: Option<(i32, i32)>,
}

/// The ghost image of a [`CellName`].
pub struct CellNameS {
    pub name: Seq<u8>,
    pub grid: Option<(i32, i32)>,
}

impl View for CellName {
    type V = CellNameS;

    open spec fn view(&self) -> CellNameS {
        CellNameS { name: self.name@, grid: self.grid }
    }
}

/// How a path grid is named in a report: its cell's name where it has one,
/// and its grid coordinates where they are not the origin.
#[derive(Debug, PartialEq, Eq)]
pub struct GridName {
    pub name: Option<Vec<u8>>,
    pub grid: Option<(i32, i32)>,
}

/// The ghost image of a [`GridName`].
pub struct GridNameS {
    pub name: Option<Seq<u8>>,
    pub grid: Option<(i32, i32)>,
}

impl View for GridName {
    type V = GridNameS;

    open spec fn view(&self) -> GridNameS {
        GridNameS {
            name: match self.name {
                Some(ref n) => Some(n@),
                None => None,
            },
            grid: self.grid,
        }
    }
}

/// Where a path-grid point sits: in cell-local space always, and in world
/// space as well when the grid is offset from the origin.
#[derive(Clone, Copy, Debug, PartialEq, Eq)]
pub struct PointCoords {
    pub local: (i32, i32),
    pub world: Option<(i64, i64)>,
}

/// A single reported validation defect.
#[derive(Debug, PartialEq, Eq)]
pub enum Finding {
    ZeroFogDensity { cell: CellName },
    DuplicateNode { grid: GridName, index: usize, coords: PointCoords },
    UnconnectedNode { grid: GridName, index: usize, coords: PointCoords },
    FarOutReference { cell: CellName, id: Vec<u8>, pos: Translation },
    OutOfBoundsReference {
        cell: CellName,
        id: Vec<u8>,
        pos: Translation,
        expected: (i64, i64),
    },
    BrokenReference { cell: CellName, id: Vec<u8>, replacement: Option<Vec<u8>> },
    AboveWaterBlackSquare { cell: CellName, id: Vec<u8> },
    NotOwnedByFaction { cell: CellName, id: Vec<u8>, faction: Vec<u8> },
    NotAvailableToAllRanks { cell: CellName, id: Vec<u8> },
    TodoScript { script: Vec<u8>, comment: Vec<u8> },
    TodoInfo { info: Vec<u8>, topic: Vec<u8>, comment: Vec<u8> },
    MissingField { kind: RecordKind, id: Vec<u8>, field: FieldKind },
    InvalidFieldValue { kind: RecordKind, id: Vec<u8>, field: FieldKind, value: Vec<u8> },
}

/// The ghost image of a [`Finding`].
pub enum FindingS {
    ZeroFogDensity { cell: CellNameS },
    DuplicateNode { grid: GridNameS, index: int, coords: PointCoords },
    UnconnectedNode { grid: GridNameS, index: int, coords: PointCoords },
    FarOutReference { cell: CellNameS, id: Seq<u8>, pos: Translation },
    OutOfBoundsReference {
        cell: CellNameS,
        id: Seq<u8>,
        pos: Translation,
        expected: (int, int),
    },
    BrokenReference { cell: CellNameS, id: Seq<u8>, replacement: Option<Seq<u8>> },
    AboveWaterBlackSquare { cell: CellNameS, id: Seq<u8> },
    NotOwnedByFaction { cell: CellNameS, id: Seq<u8>, faction: Seq<u8> },
    NotAvailableToAllRanks { cell: CellNameS, id: Seq<u8> },
    TodoScript { script: Seq<u8>, comment: Seq<u8> },
    TodoInfo { info: Seq<u8>, topic: Seq<u8>, comment: Seq<u8> },
    MissingField { kind: RecordKind, id: Seq<u8>, field: FieldKind },
    InvalidFieldValue { kind: RecordKind, id: Seq<u8>, field: FieldKind, value: Seq<u8> },
}

impl View for Finding {
    type V = FindingS;

    open spec fn view(&self) -> FindingS {
        match self {
            Finding::ZeroFogDensity { cell } => FindingS::ZeroFogDensity { cell: cell@ },
            Finding::DuplicateNode { grid, index, coords } => FindingS::DuplicateNode {
                grid: grid@,
                index: *index as int,
                coords: *coords,
            },
            Finding::UnconnectedNode { grid, index, coords } => FindingS::UnconnectedNode {
                grid: grid@,
                index: *index as int,
                coords: *coords,
            },
            Finding::FarOutReference { cell, id, pos } => FindingS::FarOutReference {
                cell: cell@,
                id: id@,
                pos: *pos,
            },
            Finding::OutOfBoundsReference { cell, id, pos, expected } => {
                FindingS::OutOfBoundsReference {
                    cell: cell@,
                    id: id@,
                    pos: *pos,
                    expected: ((*expected).0 as int, (*expected).1 as int),
                }
            },
            Finding::BrokenReference { cell, id, replacement } => FindingS::BrokenReference {
                cell: cell@,
                id: id@,
                replacement: match replacement {
                    Some(r) => Some(r@),
                    None => None,
                },
            },
            Finding::AboveWaterBlackSquare { cell, id } => FindingS::AboveWaterBlackSquare {
                cell: cell@,
                id: id@,
            },
            Finding::NotOwnedByFaction { cell, id, faction } => FindingS::NotOwnedByFaction {
                cell: cell@,
                id: id@,
                faction: faction@,
            },
            Finding::NotAvailableToAllRanks { cell, id } => FindingS::NotAvailableToAllRanks {
                cell: cell@,
                id: id@,
            },
            Finding::TodoScript { script, comment } => FindingS::TodoScript {
                script: script@,
                comment: comment@,
            },
            Finding::TodoInfo { info, topic, comment } => FindingS::TodoInfo {
                info: info@,
                topic: topic@,
                comment: comment@,
            },
            Finding::MissingField { kind, id, field } => FindingS::MissingField {
                kind: *kind,
                id: id@,
                field: *field,
            },
            Finding::InvalidFieldValue { kind, id, field, value } => FindingS::InvalidFieldValue {
                kind: *kind,
                id: id@,
                field: *field,
                value: value@,
            },
        }
    }
}

/// The ghost images of a sequence of findings.
pub open spec fn finding_views(s: Seq<Finding>) -> Seq<FindingS> {
    s.map_values(|f: Finding| f@)
}

} // verus!
