//! The cell/placement rule: placement bounds checking, path-grid
//! duplicate and connectivity analysis, broken-reference lookup, fog
//! density, and the above-water decal heuristic.

use vstd::prelude::*;

use crate::context::Context;
use crate::findings::{Finding, FindingS, GridName, GridNameS, PointCoords, finding_views};
use crate::model::{Cell, Coord, PathGrid, PathGridPoint, Placement, Record, MAX_SAFE_MILLI};
use crate::tables::{spec_lookup, LookupTable};
use crate::text::{bytes_eq, copy_bytes, lower};
use crate::util::{get_cell_grid, get_cell_name, spec_cell_name, CELL_SIZE, CELL_SIZE_MILLI};

verus! {

/// Lowest placement height the bounds rule accepts, in thousandths.
pub const MIN_Z_MILLI: i64 = -32000000;

/// Highest placement height the bounds rule accepts, in thousandths.
pub const MAX_Z_MILLI: i64 = 64000000;

/// Whether a coordinate is unusable for bounds checking: not a finite
/// number, or beyond the largest magnitude a double holds exactly.
pub open spec fn spec_coord_unsafe(c: Coord) -> bool {
    match c {
        Coord::NonFinite => true,
        Coord::Milli(m) => m > MAX_SAFE_MILLI || m < -MAX_SAFE_MILLI,
    }
}

/// The finite value of a coordinate, in thousandths.
pub open spec fn spec_milli(c: Coord) -> int {
    match c {
        Coord::Milli(m) => m as int,
        Coord::NonFinite => 0,
    }
}

/// Whether a placement is far out: some coordinate unusable, or its
/// height outside the accepted range.
pub open spec fn spec_far_out(p: Placement) -> bool {
    spec_coord_unsafe(p.translation.x) || spec_coord_unsafe(p.translation.y) || spec_coord_unsafe(
        p.translation.z,
    ) || spec_milli(p.translation.z) < MIN_Z_MILLI || spec_milli(p.translation.z) > MAX_Z_MILLI
}

/// Whether a placement with usable coordinates lies outside its exterior
/// cell's bounding box.
pub open spec fn spec_out_of_bounds(cell: Cell, p: Placement) -> bool {
    let x = spec_milli(p.translation.x);
    let y = spec_milli(p.translation.y);
    let xb = cell.grid.0 as int * CELL_SIZE_MILLI as int;
    let yb = cell.grid.1 as int * CELL_SIZE_MILLI as int;
    x < xb || y < yb || x >= xb + CELL_SIZE_MILLI || y >= yb + CELL_SIZE_MILLI
}

/// The bounds findings of one placement: for non-deleted placements of
/// exterior cells, a far-out finding wins over an out-of-bounds finding.
pub open spec fn spec_bounds_findings(cell: Cell, p: Placement) -> Seq<FindingS> {
    if p.deleted != Some(true) && !cell.interior {
        if spec_far_out(p) {
            seq![
                FindingS::FarOutReference {
                    cell: spec_cell_name(cell),
                    id: p.id@,
                    pos: p.translation,
                },
            ]
        } else if spec_out_of_bounds(cell, p) {
            seq![
                FindingS::OutOfBoundsReference {
                    cell: spec_cell_name(cell),
                    id: p.id@,
                    pos: p.translation,
                    expected: (
                        spec_milli(p.translation.x) / CELL_SIZE_MILLI as int,
                        spec_milli(p.translation.y) / CELL_SIZE_MILLI as int,
                    ),
                },
            ]
        } else {
            Seq::empty()
        }
    } else {
        Seq::empty()
    }
}

/// The broken-reference findings of one placement: its lowercased id is
/// looked up in the rename table; an empty mapped value means known-bad
/// with no suggested fix.
pub open spec fn spec_broken_findings(
    broken: Seq<(Vec<u8>, Vec<u8>)>,
    cell: Cell,
    p: Placement,
) -> Seq<FindingS> {
    match spec_lookup(broken, lower(p.id@)) {
        None => Seq::empty(),
        Some(rep) => seq![
            FindingS::BrokenReference {
                cell: spec_cell_name(cell),
                id: p.id@,
                replacement: if rep.len() == 0 {
                    None
                } else {
                    Some(rep)
                },
            },
        ],
    }
}

/// The water height of a cell, in thousandths: exterior cells yield a
/// sentinel below ground, interior cells their explicit height only when
/// the water flag is set.
pub open spec fn spec_water_height(cell: Cell) -> Option<int> {
    if !cell.interior {
        Some(-1000int)
    } else if cell.has_water {
        match cell.water_height {
            Some(h) => Some(h as int),
            None => None,
        }
    } else {
        None
    }
}

/// "in_lava_blacksquare", lowercased bytes.
pub open spec fn black_square_1() -> Seq<u8> {
    seq![
        0x69u8, 0x6eu8, 0x5fu8, 0x6cu8, 0x61u8, 0x76u8, 0x61u8, 0x5fu8, 0x62u8, 0x6cu8, 0x61u8,
        0x63u8, 0x6bu8, 0x73u8, 0x71u8, 0x75u8, 0x61u8, 0x72u8, 0x65u8,
    ]
}

/// "t_aid_blackcircle_01", lowercased bytes.
pub open spec fn black_square_2() -> Seq<u8> {
    seq![
        0x74u8, 0x5fu8, 0x61u8, 0x69u8, 0x64u8, 0x5fu8, 0x62u8, 0x6cu8, 0x61u8, 0x63u8, 0x6bu8,
        0x63u8, 0x69u8, 0x72u8, 0x63u8, 0x6cu8, 0x65u8, 0x5fu8, 0x30u8, 0x31u8,
    ]
}

/// "t_aid_blackcircle_02", lowercased bytes.
pub open spec fn black_square_3() -> Seq<u8> {
    seq![
        0x74u8, 0x5fu8, 0x61u8, 0x69u8, 0x64u8, 0x5fu8, 0x62u8, 0x6cu8, 0x61u8, 0x63u8, 0x6bu8,
        0x63u8, 0x69u8, 0x72u8, 0x63u8, 0x6cu8, 0x65u8, 0x5fu8, 0x30u8, 0x32u8,
    ]
}

/// "t_aid_blacktriangle_01", lowercased bytes.
pub open spec fn black_square_4() -> Seq<u8> {
    seq![
        0x74u8, 0x5fu8, 0x61u8, 0x69u8, 0x64u8, 0x5fu8, 0x62u8, 0x6cu8, 0x61u8, 0x63u8, 0x6bu8,
        0x74u8, 0x72u8, 0x69u8, 0x61u8, 0x6eu8, 0x67u8, 0x6cu8, 0x65u8, 0x5fu8, 0x30u8, 0x31u8,
    ]
}

/// Whether an id names one of the known black-square decals, ignoring
/// ASCII case.
pub open spec fn spec_black_square(id: Seq<u8>) -> bool {
    lower(id) == black_square_1() || lower(id) == black_square_2() || lower(id)
        == black_square_3() || lower(id) == black_square_4()
}

/// The de-duplication key of the above-water check: cell id, an
/// underscore, and the lowercased placement id.
pub open spec fn spec_seen_key(cell: Cell, p: Placement) -> Seq<u8> {
    cell.id@ + seq![0x5fu8] + lower(p.id@)
}

/// Whether a key is in the de-duplication set.
pub open spec fn spec_seen_has(seen: Seq<Seq<u8>>, key: Seq<u8>) -> bool {
    exists|i: int| 0 <= i < seen.len() && seen[i] == key
}

/// Whether the placement's height is at least the water height.
pub open spec fn spec_z_at_least(c: Coord, h: int) -> bool {
    match c {
        Coord::Milli(m) => m as int >= h,
        Coord::NonFinite => false,
    }
}

/// The above-water findings of one placement, and the de-duplication set
/// after the check: an upright black-square decal at or above the water
/// height of an interior cell is reported once per (cell, id) pair.
pub open spec fn spec_water_findings(seen: Seq<Seq<u8>>, cell: Cell, p: Placement) -> (Seq<
    FindingS,
>, Seq<Seq<u8>>) {
    match spec_water_height(cell) {
        None => (Seq::empty(), seen),
        Some(h) => {
            if cell.interior && spec_z_at_least(p.translation.z, h) && p.rotation.x == 0
                && p.rotation.y == 0 && spec_black_square(p.id@) {
                let key = spec_seen_key(cell, p);
                if spec_seen_has(seen, key) {
                    (Seq::empty(), seen)
                } else {
                    (
                        seq![
                            FindingS::AboveWaterBlackSquare {
                                cell: spec_cell_name(cell),
                                id: p.id@,
                            },
                        ],
                        seen.push(key),
                    )
                }
            } else {
                (Seq::empty(), seen)
            }
        },
    }
}

/// Every finding the cell rule yields for one placement, and the
/// de-duplication set afterwards: bounds findings, then broken-reference
/// findings, then above-water findings.
pub open spec fn spec_cellref_findings(
    broken: Seq<(Vec<u8>, Vec<u8>)>,
    seen: Seq<Seq<u8>>,
    cell: Cell,
    p: Placement,
) -> (Seq<FindingS>, Seq<Seq<u8>>) {
    let bounds = spec_bounds_findings(cell, p);
    let brokenf = spec_broken_findings(broken, cell, p);
    let wf = spec_water_findings(seen, cell, p);
    (bounds + brokenf + wf.0, wf.1)
}

/// How a path grid is named: by its cell and its grid coordinates, the
/// latter only when they are not the origin.
pub open spec fn spec_pg_name(pg: PathGrid) -> GridNameS {
    GridNameS {
        name: match pg.cell {
            Some(c) => Some(c@),
            None => None,
        },
        grid: match pg.grid {
            Some(g) => if g.0 != 0 || g.1 != 0 {
                Some(g)
            } else {
                None
            },
            None => None,
        },
    }
}

/// Where a path-grid point sits: local coordinates, and world
/// coordinates when the grid is offset from the origin.
pub open spec fn spec_point_coords(pg: PathGrid, pt: PathGridPoint) -> PointCoords {
    PointCoords {
        local: (pt.location.0, pt.location.1),
        world: match pg.grid {
            Some(g) => if g.0 != 0 || g.1 != 0 {
                Some(
                    (
                        (pt.location.0 as int + g.0 as int * CELL_SIZE as int) as i64,
                        (pt.location.1 as int + g.1 as int * CELL_SIZE as int) as i64,
                    ),
                )
            } else {
                None
            },
            None => None,
        },
    }
}

/// Whether point `i` is connected: named by the explicit connection set,
/// or carrying a positive connection count of its own.
pub open spec fn spec_connected(pts: Seq<PathGridPoint>, conns: Seq<u32>, i: int) -> bool {
    (exists|k: int| 0 <= k < conns.len() && conns[k] as int == i) || (0 <= i < pts.len()
        && pts[i].connection_count > 0)
}

/// How many of the first `i` points are connected.
pub open spec fn spec_conn_card(pts: Seq<PathGridPoint>, conns: Seq<u32>, i: int) -> int
    decreases i,
{
    if i <= 0 {
        0
    } else {
        spec_conn_card(pts, conns, i - 1) + if spec_connected(pts, conns, i - 1) {
            1int
        } else {
            0int
        }
    }
}

/// How many distinct values among the first `k` connection entries name
/// no existing point. The connected set of a grid holds the connected
/// point indices together with these stray entries; both kinds count
/// toward its size, though a stray entry marks no index.
pub open spec fn spec_stray_card(pts: Seq<PathGridPoint>, conns: Seq<u32>, k: int) -> int
    decreases k,
{
    if k <= 0 {
        0
    } else {
        spec_stray_card(pts, conns, k - 1) + if conns[k - 1] as int >= pts.len() && !(exists|k2: int|
            0 <= k2 < k - 1 && #[trigger] conns[k2] == conns[k - 1]) {
            1int
        } else {
            0int
        }
    }
}

/// Whether some later point shares point `i`'s location.
pub open spec fn spec_later_dup(pts: Seq<PathGridPoint>, i: int) -> bool {
    exists|j: int| i < j < pts.len() && pts[j].location == pts[i].location
}

/// The duplicate-node findings among the first `n` points, in index
/// order: one finding per point that a later point duplicates.
pub open spec fn spec_dup_findings(pg: PathGrid, pts: Seq<PathGridPoint>, n: int) -> Seq<FindingS>
    decreases n,
{
    if n <= 0 {
        Seq::empty()
    } else {
        spec_dup_findings(pg, pts, n - 1) + if spec_later_dup(pts, n - 1) {
            seq![
                FindingS::DuplicateNode {
                    grid: spec_pg_name(pg),
                    index: n - 1,
                    coords: spec_point_coords(pg, pts[n - 1]),
                },
            ]
        } else {
            Seq::empty()
        }
    }
}

/// The unconnected-node findings among the first `n` points, in index
/// order.
pub open spec fn spec_unconn_findings(
    pg: PathGrid,
    pts: Seq<PathGridPoint>,
    conns: Seq<u32>,
    n: int,
) -> Seq<FindingS>
    decreases n,
{
    if n <= 0 {
        Seq::empty()
    } else {
        spec_unconn_findings(pg, pts, conns, n - 1) + if !spec_connected(pts, conns, n - 1) {
            seq![
                FindingS::UnconnectedNode {
                    grid: spec_pg_name(pg),
                    index: n - 1,
                    coords: spec_point_coords(pg, pts[n - 1]),
                },
            ]
        } else {
            Seq::empty()
        }
    }
}

/// Every finding the cell rule yields for one path grid: nothing for an
/// empty grid; else the duplicate findings, then, when the points
/// outnumber the connected set, an unconnected finding per point absent
/// from it.
pub open spec fn spec_pathgrid_findings(pg: PathGrid) -> Seq<FindingS> {
    match pg.points {
        None => Seq::empty(),
        Some(pts) => {
            let conns = match pg.connections {
                Some(c) => c@,
                None => Seq::empty(),
            };
            if pts@.len() == 0 {
                Seq::empty()
            } else {
                spec_dup_findings(pg, pts@, pts@.len() as int) + if pts@.len() as int
                    > spec_conn_card(pts@, conns, pts@.len() as int) + spec_stray_card(
                    pts@,
                    conns,
                    conns.len() as int,
                ) {
                    spec_unconn_findings(pg, pts@, conns, pts@.len() as int)
                } else {
                    Seq::empty()
                }
            }
        },
    }
}

/// The zero-fog findings of one cell: an interior cell with explicit
/// atmosphere data and fog density exactly zero, outside every
/// allow-listed project, is reported.
pub open spec fn spec_fog_findings(ctx: Context, cell: Cell) -> Seq<FindingS> {
    if cell.interior && cell.fog_density == Some(0i64) && !ctx.spec_allows(cell.id@) {
        seq![FindingS::ZeroFogDensity { cell: spec_cell_name(cell) }]
    } else {
        Seq::empty()
    }
}

/// Every finding the cell rule yields for one record.
pub open spec fn spec_cell_record_findings(ctx: Context, record: Record) -> Seq<FindingS> {
    match record {
        Record::Cell(c) => spec_fog_findings(ctx, c),
        Record::PathGrid(pg) => spec_pathgrid_findings(pg),
        _ => Seq::empty(),
    }
}

/// The ghost images of the de-duplication set.
pub open spec fn seen_views(s: Seq<Vec<u8>>) -> Seq<Seq<u8>> {
    s.map_values(|v: Vec<u8>| v@)
}

/// The cell/placement rule. Its table maps a lowercased id that is known
/// broken to its replacement, or to an empty value when none exists; the
/// seen set de-duplicates above-water findings across the whole run.
pub struct CellValidator {
    pub seen: Vec<Vec<u8>>,
    pub broken: LookupTable,
}

/// Whether a coordinate is unusable for bounds checking.
fn coord_unsafe(c: Coord) -> (r: bool)
    ensures
        r == spec_coord_unsafe(c),
{
    match c {
        Coord::NonFinite => true,
        Coord::Milli(m) => m > MAX_SAFE_MILLI || m < -MAX_SAFE_MILLI,
    }
}

/// The finite value of a usable coordinate.
fn milli_val(c: Coord) -> (m: i64)
    requires
        !spec_coord_unsafe(c),
    ensures
        m as int == spec_milli(c),
        -MAX_SAFE_MILLI <= m <= MAX_SAFE_MILLI,
{
    match c {
        Coord::Milli(m) => m,
        Coord::NonFinite => {
            proof {
                assert(false);
            }
            0
        },
    }
}

/// Names a path grid for a report.
fn get_grid_name(pg: &PathGrid) -> (r: GridName)
    ensures
        r@ == spec_pg_name(*pg),
{
    let name = match &pg.cell {
        Some(c) => Some(copy_bytes(c)),
        None => None,
    };
    let grid = match pg.grid {
        Some(g) => if g.0 != 0 || g.1 != 0 {
            Some(g)
        } else {
            None
        },
        None => None,
    };
    GridName { name, grid }
}

/// Locates a path-grid point for a report.
fn get_point_coords(pg: &PathGrid, pt: &PathGridPoint) -> (r: PointCoords)
    ensures
        r == spec_point_coords(*pg, *pt),
{
    let world = match pg.grid {
        Some(g) => if g.0 != 0 || g.1 != 0 {
            Some(
                (
                    pt.location.0 as i64 + g.0 as i64 * CELL_SIZE as i64,
                    pt.location.1 as i64 + g.1 as i64 * CELL_SIZE as i64,
                ),
            )
        } else {
            None
        },
        None => None,
    };
    PointCoords { local: (pt.location.0, pt.location.1), world }
}

/// Whether some later point shares point `i`'s location.
fn point_later_dup(pts: &Vec<PathGridPoint>, i: usize) -> (r: bool)
    requires
        i < pts@.len(),
    ensures
        r == spec_later_dup(pts@, i as int),
{
    let n = pts.len();
    let mut j: usize = i + 1;
    while j < n
        invariant
            n == pts@.len(),
            i < j <= pts@.len(),
            forall|k: int| i < k < j ==> pts@[k].location != pts@[i as int].location,
        decreases pts@.len() - j,
    {
        let a = pts[i].location;
        let b = pts[j].location;
        if a.0 == b.0 && a.1 == b.1 && a.2 == b.2 {
            proof {
                assert(pts@[j as int].location =~= pts@[i as int].location);
            }
            return true;
        }
        proof {
            assert(pts@[j as int].location != pts@[i as int].location) by {
                if pts@[j as int].location == pts@[i as int].location {
                    assert(b.0 == a.0 && b.1 == a.1 && b.2 == a.2);
                }
            }
        }
        j = j + 1;
    }
    false
}

/// Whether connection entry `k` repeats an earlier entry.
fn appears_before(conns: &Vec<u32>, k: usize) -> (r: bool)
    requires
        k < conns@.len(),
    ensures
        r == exists|k2: int| 0 <= k2 < k && #[trigger] conns@[k2] == conns@[k as int],
{
    let mut k2: usize = 0;
    while k2 < k
        invariant
            k2 <= k,
            k < conns@.len(),
            forall|m: int| 0 <= m < k2 ==> conns@[m] != conns@[k as int],
        decreases k - k2,
    {
        if conns[k2] == conns[k] {
            return true;
        }
        k2 = k2 + 1;
    }
    false
}

/// Runs the duplicate-node and connectivity analysis of one path grid.
#[verifier::loop_isolation(false)]
fn check_pathgrid(pg: &PathGrid) -> (out: Vec<Finding>)
    ensures
        finding_views(out@) == spec_pathgrid_findings(*pg),
{
    let mut out: Vec<Finding> = Vec::new();
    let pts = match &pg.points {
        Some(p) => p,
        None => {
            return out;
        },
    };
    if pts.len() == 0 {
        return out;
    }
    let n = pts.len();
    let empty_conns: Vec<u32> = Vec::new();
    let conns = match &pg.connections {
        Some(c) => c,
        None => &empty_conns,
    };
    let ghost conns_seq = match &pg.connections {
        Some(c) => c@,
        None => Seq::<u32>::empty(),
    };
    proof {
        assert(conns@ =~= conns_seq);
    }
    // Mark every point the explicit connection set names.
    let mut marks: Vec<bool> = Vec::new();
    let mut i: usize = 0;
    while i < n
        invariant
            i <= n,
            marks@.len() == i,
            forall|p: int| 0 <= p < i ==> marks@[p] == false,
        decreases n - i,
    {
        marks.push(false);
        i = i + 1;
    }
    let mut k: usize = 0;
    while k < conns.len()
        invariant
            k <= conns@.len(),
            marks@.len() == n,
            forall|p: int|
                0 <= p < n ==> marks@[p] == exists|k2: int|
                    0 <= k2 < k && conns_seq[k2] as int == p,
        decreases conns@.len() - k,
    {
        let c = conns[k];
        if (c as usize) < n {
            marks[c as usize] = true;
        }
        proof {
            assert forall|p: int|
                0 <= p < n implies marks@[p] == exists|k2: int|
                    0 <= k2 < k + 1 && conns_seq[k2] as int == p by {
                if p == c as int {
                    assert(conns_seq[k as int] as int == p);
                } else {
                    assert(forall|k2: int|
                        0 <= k2 < k + 1 && conns_seq[k2] as int == p ==> k2 < k);
                }
            }
        }
        k = k + 1;
    }
    // Add every point whose own connection count is positive.
    let mut i2: usize = 0;
    while i2 < n
        invariant
            i2 <= n,
            marks@.len() == n,
            forall|p: int| 0 <= p < i2 ==> marks@[p] == spec_connected(pts@, conns_seq, p),
            forall|p: int|
                i2 <= p < n ==> marks@[p] == exists|k2: int|
                    0 <= k2 < conns_seq.len() && conns_seq[k2] as int == p,
        decreases n - i2,
    {
        if pts[i2].connection_count > 0 {
            marks[i2] = true;
        }
        i2 = i2 + 1;
    }
    // Count the connected points.
    let mut cnt: usize = 0;
    let mut i3: usize = 0;
    while i3 < n
        invariant
            i3 <= n,
            cnt <= i3,
            marks@.len() == n,
            forall|p: int| 0 <= p < n ==> marks@[p] == spec_connected(pts@, conns_seq, p),
            cnt as int == spec_conn_card(pts@, conns_seq, i3 as int),
        decreases n - i3,
    {
        if marks[i3] {
            cnt = cnt + 1;
        }
        i3 = i3 + 1;
    }
    // Count the distinct stray connection entries: they enlarge the
    // connected set without marking any index.
    let mut stray: usize = 0;
    let mut k3: usize = 0;
    while k3 < conns.len()
        invariant
            k3 <= conns@.len(),
            stray <= k3,
            stray as int == spec_stray_card(pts@, conns_seq, k3 as int),
        decreases conns@.len() - k3,
    {
        if (conns[k3] as usize) >= n && !appears_before(conns, k3) {
            stray = stray + 1;
        }
        k3 = k3 + 1;
    }
    // Report each point a later point duplicates, in index order.
    let mut i4: usize = 0;
    while i4 < n
        invariant
            i4 <= n,
            finding_views(out@) == spec_dup_findings(*pg, pts@, i4 as int),
        decreases n - i4,
    {
        if point_later_dup(pts, i4) {
            out.push(
                Finding::DuplicateNode {
                    grid: get_grid_name(pg),
                    index: i4,
                    coords: get_point_coords(pg, &pts[i4]),
                },
            );
        }
        proof {
            assert(finding_views(out@) =~= spec_dup_findings(*pg, pts@, i4 + 1));
        }
        i4 = i4 + 1;
    }
    // When the points outnumber the connected set, report each point
    // absent from it.
    if n > cnt && n - cnt > stray {
        let ghost dup_all = spec_dup_findings(*pg, pts@, n as int);
        let mut i5: usize = 0;
        while i5 < n
            invariant
                i5 <= n,
                marks@.len() == n,
                forall|p: int| 0 <= p < n ==> marks@[p] == spec_connected(pts@, conns_seq, p),
                finding_views(out@) == dup_all + spec_unconn_findings(
                    *pg,
                    pts@,
                    conns_seq,
                    i5 as int,
                ),
            decreases n - i5,
        {
            let ghost pre_views = finding_views(out@);
            let ghost u_pre = spec_unconn_findings(*pg, pts@, conns_seq, i5 as int);
            if !marks[i5] {
                let grid = get_grid_name(pg);
                let coords = get_point_coords(pg, &pts[i5]);
                let f = Finding::UnconnectedNode { grid, index: i5, coords };
                proof {
                    assert(f@ == FindingS::UnconnectedNode {
                        grid: spec_pg_name(*pg),
                        index: i5 as int,
                        coords: spec_point_coords(*pg, pts@[i5 as int]),
                    });
                }
                out.push(f);
                proof {
                    assert(finding_views(out@) =~= pre_views.push(f@));
                }
            }
            proof {
                let e = FindingS::UnconnectedNode {
                    grid: spec_pg_name(*pg),
                    index: i5 as int,
                    coords: spec_point_coords(*pg, pts@[i5 as int]),
                };
                if !spec_connected(pts@, conns_seq, i5 as int) {
                    assert(spec_unconn_findings(*pg, pts@, conns_seq, i5 + 1) =~= u_pre.push(e));
                    assert(finding_views(out@) == pre_views.push(e));
                    assert(pre_views.push(e) =~= (dup_all + u_pre).push(e));
                    assert((dup_all + u_pre).push(e) =~= dup_all + u_pre.push(e));
                } else {
                    assert(spec_unconn_findings(*pg, pts@, conns_seq, i5 + 1) =~= u_pre);
                }
                assert(finding_views(out@) =~= dup_all + spec_unconn_findings(
                    *pg,
                    pts@,
                    conns_seq,
                    i5 + 1,
                ));
            }
            i5 = i5 + 1;
        }
    }
    proof {
        assert(finding_views(out@) =~= spec_pathgrid_findings(*pg));
    }
    out
}

impl CellValidator {
    /// A rule instance over the given broken-reference table, with an
    /// empty de-duplication set.
    pub fn new(broken: LookupTable) -> (r: CellValidator)
        ensures
            r.broken == broken,
            r.seen@ == Seq::<Vec<u8>>::empty(),
    {
        CellValidator { seen: Vec::new(), broken }
    }

    /// The record-seen hook: checks fog density of interior cells and
    /// analyses path grids.
    pub fn on_record(&self, ctx: &Context, record: &Record) -> (out: Vec<Finding>)
        ensures
            finding_views(out@) == spec_cell_record_findings(*ctx, *record),
    {
        match record {
            Record::Cell(cell) => {
                let mut out: Vec<Finding> = Vec::new();
                if cell.interior {
                    let fog_zero = match cell.fog_density {
                        Some(d) => d == 0,
                        None => false,
                    };
                    if fog_zero && !ctx.allows(&cell.id) {
                        out.push(Finding::ZeroFogDensity { cell: get_cell_name(cell) });
                    }
                }
                proof {
                    assert(finding_views(out@) =~= spec_cell_record_findings(*ctx, *record));
                }
                out
            },
            Record::PathGrid(pg) => check_pathgrid(pg),
            _ => {
                let out: Vec<Finding> = Vec::new();
                proof {
                    assert(finding_views(out@) =~= Seq::<FindingS>::empty());
                }
                out
            },
        }
    }

    /// Whether the de-duplication set holds a key.
    fn seen_contains(&self, key: &Vec<u8>) -> (r: bool)
        ensures
            r == spec_seen_has(seen_views(self.seen@), key@),
    {
        let mut i: usize = 0;
        while i < self.seen.len()
            invariant
                i <= self.seen@.len(),
                forall|j: int| 0 <= j < i ==> seen_views(self.seen@)[j] != key@,
            decreases self.seen@.len() - i,
        {
            if bytes_eq(&self.seen[i], key) {
                proof {
                    assert(seen_views(self.seen@)[i as int] == key@);
                }
                return true;
            }
            i = i + 1;
        }
        false
    }

    /// The cell-placement-seen hook. `id` is the placement's id already
    /// normalized to lower case by the traversal driver. Reports, in
    /// order: bounds defects, broken references, above-water decals.
    pub fn on_cellref(&mut self, cell: &Cell, reference: &Placement, id: &Vec<u8>) -> (out: Vec<
        Finding,
    >)
        requires
            id@ == lower(reference.id@),
        ensures
            ({
                let spec = spec_cellref_findings(
                    old(self).broken.entries@,
                    seen_views(old(self).seen@),
                    *cell,
                    *reference,
                );
                finding_views(out@) == spec.0 && seen_views(final(self).seen@) == spec.1
                    && final(self).broken == old(self).broken
            }),
    {
        let mut out: Vec<Finding> = Vec::new();
        // Bounds: exterior cells, non-deleted placements only.
        let deleted = match reference.deleted {
            Some(d) => d,
            None => false,
        };
        if !deleted && !cell.interior {
            if coord_unsafe(reference.translation.x) || coord_unsafe(reference.translation.y)
                || coord_unsafe(reference.translation.z) || {
                let zm = milli_val(reference.translation.z);
                zm < MIN_Z_MILLI || zm > MAX_Z_MILLI
            } {
                out.push(
                    Finding::FarOutReference {
                        cell: get_cell_name(cell),
                        id: copy_bytes(&reference.id),
                        pos: reference.translation,
                    },
                );
            } else {
                let xm = milli_val(reference.translation.x);
                let ym = milli_val(reference.translation.y);
                let xb = cell.grid.0 as i64 * CELL_SIZE_MILLI;
                let yb = cell.grid.1 as i64 * CELL_SIZE_MILLI;
                if xm < xb || ym < yb || xm >= xb + CELL_SIZE_MILLI || ym >= yb + CELL_SIZE_MILLI {
                    let expected = get_cell_grid(xm, ym);
                    out.push(
                        Finding::OutOfBoundsReference {
                            cell: get_cell_name(cell),
                            id: copy_bytes(&reference.id),
                            pos: reference.translation,
                            expected,
                        },
                    );
                }
            }
        }
        proof {
            assert(finding_views(out@) =~= spec_bounds_findings(*cell, *reference));
        }
        // Broken reference: look the lowercased id up in the rename table.
        match self.broken.get(id) {
            Some(rep) => {
                let replacement = if rep.len() == 0 {
                    None
                } else {
                    Some(copy_bytes(rep))
                };
                out.push(
                    Finding::BrokenReference {
                        cell: get_cell_name(cell),
                        id: copy_bytes(&reference.id),
                        replacement,
                    },
                );
            },
            None => {},
        }
        proof {
            assert(finding_views(out@) =~= spec_bounds_findings(*cell, *reference)
                + spec_broken_findings(self.broken.entries@, *cell, *reference));
        }
        // Above-water decal, once per (cell, id) pair.
        let height = if !cell.interior {
            Some(-1000i64)
        } else if cell.has_water {
            cell.water_height
        } else {
            None
        };
        match height {
            None => {},
            Some(h) => {
                let z_ok = match reference.translation.z {
                    Coord::Milli(m) => m >= h,
                    Coord::NonFinite => false,
                };
                if cell.interior && z_ok && reference.rotation.x == 0 && reference.rotation.y == 0
                    && is_black_square(id) {
                    let key = make_seen_key(&cell.id, id);
                    proof {
                        assert(key@ =~= spec_seen_key(*cell, *reference));
                    }
                    if !self.seen_contains(&key) {
                        self.seen.push(key);
                        out.push(
                            Finding::AboveWaterBlackSquare {
                                cell: get_cell_name(cell),
                                id: copy_bytes(&reference.id),
                            },
                        );
                        proof {
                            assert(seen_views(self.seen@) =~= seen_views(old(self).seen@).push(
                                spec_seen_key(*cell, *reference),
                            ));
                        }
                    }
                }
            },
        }
        proof {
            let spec = spec_cellref_findings(
                old(self).broken.entries@,
                seen_views(old(self).seen@),
                *cell,
                *reference,
            );
            assert(finding_views(out@) =~= spec.0);
            assert(seen_views(self.seen@) =~= spec.1);
        }
        out
    }
}

/// Whether a lowercased id names one of the known black-square decals.
fn is_black_square(id: &Vec<u8>) -> (r: bool)
    ensures
        r == (id@ == black_square_1() || id@ == black_square_2() || id@ == black_square_3() || id@
            == black_square_4()),
{
    let b1: Vec<u8> = vec![
        0x69u8, 0x6eu8, 0x5fu8, 0x6cu8, 0x61u8, 0x76u8, 0x61u8, 0x5fu8, 0x62u8, 0x6cu8, 0x61u8,
        0x63u8, 0x6bu8, 0x73u8, 0x71u8, 0x75u8, 0x61u8, 0x72u8, 0x65u8,
    ];
    let b2: Vec<u8> = vec![
        0x74u8, 0x5fu8, 0x61u8, 0x69u8, 0x64u8, 0x5fu8, 0x62u8, 0x6cu8, 0x61u8, 0x63u8, 0x6bu8,
        0x63u8, 0x69u8, 0x72u8, 0x63u8, 0x6cu8, 0x65u8, 0x5fu8, 0x30u8, 0x31u8,
    ];
    let b3: Vec<u8> = vec![
        0x74u8, 0x5fu8, 0x61u8, 0x69u8, 0x64u8, 0x5fu8, 0x62u8, 0x6cu8, 0x61u8, 0x63u8, 0x6bu8,
        0x63u8, 0x69u8, 0x72u8, 0x63u8, 0x6cu8, 0x65u8, 0x5fu8, 0x30u8, 0x32u8,
    ];
    let b4: Vec<u8> = vec![
        0x74u8, 0x5fu8, 0x61u8, 0x69u8, 0x64u8, 0x5fu8, 0x62u8, 0x6cu8, 0x61u8, 0x63u8, 0x6bu8,
        0x74u8, 0x72u8, 0x69u8, 0x61u8, 0x6eu8, 0x67u8, 0x6cu8, 0x65u8, 0x5fu8, 0x30u8, 0x31u8,
    ];
    proof {
        assert(b1@ =~= black_square_1());
        assert(b2@ =~= black_square_2());
        assert(b3@ =~= black_square_3());
        assert(b4@ =~= black_square_4());
    }
    bytes_eq(id, &b1) || bytes_eq(id, &b2) || bytes_eq(id, &b3) || bytes_eq(id, &b4)
}

/// Builds the de-duplication key: cell id, underscore, lowercased id.
fn make_seen_key(cell_id: &Vec<u8>, id: &Vec<u8>) -> (r: Vec<u8>)
    ensures
        r@ == cell_id@ + seq![0x5fu8] + id@,
{
    let mut out = copy_bytes(cell_id);
    out.push(0x5f);
    proof {
        assert(out@ =~= cell_id@ + seq![0x5fu8] + id@.take(0));
    }
    let mut i: usize = 0;
    while i < id.len()
        invariant
            i <= id@.len(),
            out@ == cell_id@ + seq![0x5fu8] + id@.take(i as int),
        decreases id@.len() - i,
    {
        out.push(id[i]);
        proof {
            assert(out@ =~= cell_id@ + seq![0x5fu8] + id@.take(i + 1));
        }
        i = i + 1;
    }
    proof {
        assert(out@ =~= cell_id@ + seq![0x5fu8] + id@);
    }
    out
}

} // verus!
