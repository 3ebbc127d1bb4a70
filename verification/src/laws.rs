//! Laws of the cell rule, stated and proved over the same spec
//! functions its contracts use.

use vstd::prelude::*;

use crate::findings::FindingS;
use crate::model::{Cell, PathGrid, PathGridPoint, Placement};
use crate::validators::cells::{spec_bounds_findings, spec_broken_findings, spec_cellref_findings,
    spec_conn_card, spec_connected, spec_coord_unsafe, spec_dup_findings, spec_far_out,
    spec_later_dup, spec_milli, spec_pathgrid_findings, spec_stray_card, spec_unconn_findings,
    spec_water_findings, MAX_Z_MILLI, MIN_Z_MILLI};
use crate::util::{spec_cell_name, CELL_SIZE_MILLI};

verus! {

/// How many findings of `fs` satisfy `pred`.
pub open spec fn count_matching(fs: Seq<FindingS>, pred: spec_fn(FindingS) -> bool) -> int
    decreases fs.len(),
{
    if fs.len() == 0 {
        0
    } else {
        count_matching(fs.drop_last(), pred) + if pred(fs.last()) {
            1int
        } else {
            0int
        }
    }
}

/// Whether a finding is a far-out-placement finding.
pub open spec fn is_far_out_finding(f: FindingS) -> bool {
    f matches FindingS::FarOutReference { .. }
}

/// Whether a finding is an out-of-bounds-placement finding.
pub open spec fn is_oob_finding(f: FindingS) -> bool {
    f matches FindingS::OutOfBoundsReference { .. }
}

/// Whether a finding is an unconnected-node finding for point `i`.
pub open spec fn is_unconn_at(f: FindingS, i: int) -> bool {
    f matches FindingS::UnconnectedNode { index, .. } && index == i
}

/// Whether a finding is a duplicate-node finding for point `i`.
pub open spec fn is_dup_at(f: FindingS, i: int) -> bool {
    f matches FindingS::DuplicateNode { index, .. } && index == i
}

pub proof fn lemma_count_empty(pred: spec_fn(FindingS) -> bool)
    ensures
        count_matching(Seq::empty(), pred) == 0,
{
}

pub proof fn lemma_count_single(e: FindingS, pred: spec_fn(FindingS) -> bool)
    ensures
        count_matching(seq![e], pred) == if pred(e) {
            1int
        } else {
            0int
        },
{
    assert(seq![e].drop_last() =~= Seq::<FindingS>::empty());
    assert(count_matching(seq![e].drop_last(), pred) == 0);
}

pub proof fn lemma_count_concat(a: Seq<FindingS>, b: Seq<FindingS>, pred: spec_fn(FindingS) -> bool)
    ensures
        count_matching(a + b, pred) == count_matching(a, pred) + count_matching(b, pred),
    decreases b.len(),
{
    if b.len() == 0 {
        assert(a + b =~= a);
    } else {
        lemma_count_concat(a, b.drop_last(), pred);
        assert((a + b).drop_last() =~= a + b.drop_last());
        assert((a + b).last() == b.last());
        assert((a + b).len() > 0);
    }
}

/// The broken-reference part of the placement check never yields a
/// finding that `pred` accepts, when `pred` rejects every
/// broken-reference finding.
proof fn lemma_broken_count(
    broken: Seq<(Vec<u8>, Vec<u8>)>,
    cell: Cell,
    p: Placement,
    pred: spec_fn(FindingS) -> bool,
)
    requires
        forall|f: FindingS| #[trigger] pred(f) ==> !(f matches FindingS::BrokenReference { .. }),
    ensures
        count_matching(spec_broken_findings(broken, cell, p), pred) == 0,
{
    let b = spec_broken_findings(broken, cell, p);
    if b.len() == 0 {
        assert(b =~= Seq::<FindingS>::empty());
    } else {
        lemma_count_single(b[0], pred);
        assert(b =~= seq![b[0]]);
        assert(b[0] matches FindingS::BrokenReference { .. });
    }
}

/// The above-water part of the placement check never yields a finding
/// that `pred` accepts, when `pred` rejects every above-water finding.
proof fn lemma_water_count(
    seen: Seq<Seq<u8>>,
    cell: Cell,
    p: Placement,
    pred: spec_fn(FindingS) -> bool,
)
    requires
        forall|f: FindingS| #[trigger] pred(f) ==> !(f matches FindingS::AboveWaterBlackSquare { .. }),
    ensures
        count_matching(spec_water_findings(seen, cell, p).0, pred) == 0,
{
    let w = spec_water_findings(seen, cell, p).0;
    if w.len() == 0 {
        assert(w =~= Seq::<FindingS>::empty());
    } else {
        lemma_count_single(w[0], pred);
        assert(w =~= seq![w[0]]);
        assert(w[0] matches FindingS::AboveWaterBlackSquare { .. });
    }
}

/// A placement whose coordinates are finite and within the safe range,
/// whose height is in the accepted band, and whose X and Y lie strictly
/// within its cell's bounding box, draws no bounds finding at all from
/// the cell-placement check.
pub proof fn lemma_in_bounds_quiet(
    broken: Seq<(Vec<u8>, Vec<u8>)>,
    seen: Seq<Seq<u8>>,
    cell: Cell,
    p: Placement,
)
    requires
        !spec_coord_unsafe(p.translation.x),
        !spec_coord_unsafe(p.translation.y),
        !spec_coord_unsafe(p.translation.z),
        MIN_Z_MILLI <= spec_milli(p.translation.z) <= MAX_Z_MILLI,
        cell.grid.0 as int * CELL_SIZE_MILLI as int <= spec_milli(p.translation.x) < cell.grid.0
            as int * CELL_SIZE_MILLI as int + CELL_SIZE_MILLI,
        cell.grid.1 as int * CELL_SIZE_MILLI as int <= spec_milli(p.translation.y) < cell.grid.1
            as int * CELL_SIZE_MILLI as int + CELL_SIZE_MILLI,
    ensures
        spec_bounds_findings(cell, p) == Seq::<FindingS>::empty(),
        count_matching(spec_cellref_findings(broken, seen, cell, p).0, |f: FindingS| is_far_out_finding(f))
            == 0,
        count_matching(spec_cellref_findings(broken, seen, cell, p).0, |f: FindingS| is_oob_finding(f))
            == 0,
{
    let b = spec_bounds_findings(cell, p);
    assert(b =~= Seq::<FindingS>::empty());
    let far = |f: FindingS| is_far_out_finding(f);
    let oob = |f: FindingS| is_oob_finding(f);
    lemma_count_concat(b + spec_broken_findings(broken, cell, p),
        spec_water_findings(seen, cell, p).0, far);
    lemma_count_concat(b, spec_broken_findings(broken, cell, p), far);
    lemma_count_empty(far);
    lemma_broken_count(broken, cell, p, far);
    lemma_water_count(seen, cell, p, far);
    lemma_count_concat(b + spec_broken_findings(broken, cell, p),
        spec_water_findings(seen, cell, p).0, oob);
    lemma_count_concat(b, spec_broken_findings(broken, cell, p), oob);
    lemma_count_empty(oob);
    lemma_broken_count(broken, cell, p, oob);
    lemma_water_count(seen, cell, p, oob);
}

/// A non-deleted placement of an exterior cell with a non-finite or
/// out-of-safe-range coordinate, or a height outside the accepted band,
/// always draws exactly one far-out finding and never an out-of-bounds
/// finding, even when it also lies outside the cell's bounding box.
pub proof fn lemma_far_out_wins(
    broken: Seq<(Vec<u8>, Vec<u8>)>,
    seen: Seq<Seq<u8>>,
    cell: Cell,
    p: Placement,
)
    requires
        !cell.interior,
        p.deleted != Some(true),
        spec_far_out(p),
    ensures
        spec_bounds_findings(cell, p) == seq![
            FindingS::FarOutReference {
                cell: spec_cell_name(cell),
                id: p.id@,
                pos: p.translation,
            },
        ],
        count_matching(spec_cellref_findings(broken, seen, cell, p).0, |f: FindingS| is_far_out_finding(f))
            == 1,
        count_matching(spec_cellref_findings(broken, seen, cell, p).0, |f: FindingS| is_oob_finding(f))
            == 0,
{
    let b = spec_bounds_findings(cell, p);
    let e = FindingS::FarOutReference { cell: spec_cell_name(cell), id: p.id@, pos: p.translation };
    assert(b == seq![e]);
    let far = |f: FindingS| is_far_out_finding(f);
    let oob = |f: FindingS| is_oob_finding(f);
    lemma_count_concat(b + spec_broken_findings(broken, cell, p),
        spec_water_findings(seen, cell, p).0, far);
    lemma_count_concat(b, spec_broken_findings(broken, cell, p), far);
    lemma_count_single(e, far);
    lemma_broken_count(broken, cell, p, far);
    lemma_water_count(seen, cell, p, far);
    lemma_count_concat(b + spec_broken_findings(broken, cell, p),
        spec_water_findings(seen, cell, p).0, oob);
    lemma_count_concat(b, spec_broken_findings(broken, cell, p), oob);
    lemma_count_single(e, oob);
    lemma_broken_count(broken, cell, p, oob);
    lemma_water_count(seen, cell, p, oob);
}

/// A path grid with no points yields no findings.
pub proof fn lemma_empty_path_grid_quiet(pg: PathGrid)
    requires
        match pg.points {
            Some(pts) => pts@.len() == 0,
            None => true,
        },
    ensures
        spec_pathgrid_findings(pg) == Seq::<FindingS>::empty(),
{
}

/// The points of a path grid, empty when it carries none.
pub open spec fn pg_points(pg: PathGrid) -> Seq<PathGridPoint> {
    match pg.points {
        Some(pts) => pts@,
        None => Seq::empty(),
    }
}

/// The explicit connection set of a path grid, empty when it carries
/// none.
pub open spec fn pg_conns(pg: PathGrid) -> Seq<u32> {
    match pg.connections {
        Some(c) => c@,
        None => Seq::empty(),
    }
}

/// A connection list whose entries all name existing points holds no
/// stray entry.
proof fn lemma_stray_card_zero(pts: Seq<PathGridPoint>, conns: Seq<u32>, k: int)
    requires
        0 <= k <= conns.len(),
        forall|k2: int| #![trigger conns[k2]] 0 <= k2 < conns.len() ==> (conns[k2] as int)
            < pts.len(),
    ensures
        spec_stray_card(pts, conns, k) == 0,
    decreases k,
{
    if k > 0 {
        lemma_stray_card_zero(pts, conns, k - 1);
    }
}

proof fn lemma_conn_card_diff(pts: Seq<PathGridPoint>, conns: Seq<u32>, a: int, b: int)
    requires
        0 <= a <= b,
    ensures
        spec_conn_card(pts, conns, b) - spec_conn_card(pts, conns, a) <= b - a,
        spec_conn_card(pts, conns, b) >= spec_conn_card(pts, conns, a),
    decreases b,
{
    if b > a {
        lemma_conn_card_diff(pts, conns, a, b - 1);
    }
}

proof fn lemma_unconn_count(pg: PathGrid, pts: Seq<PathGridPoint>, conns: Seq<u32>, n: int, i: int)
    requires
        n >= 0,
    ensures
        count_matching(spec_unconn_findings(pg, pts, conns, n), |f: FindingS| is_unconn_at(f, i))
            == if 0 <= i < n && !spec_connected(pts, conns, i) {
            1int
        } else {
            0int
        },
        count_matching(spec_unconn_findings(pg, pts, conns, n), |f: FindingS| is_dup_at(f, i)) == 0,
    decreases n,
{
    let up = |f: FindingS| is_unconn_at(f, i);
    let dp = |f: FindingS| is_dup_at(f, i);
    if n == 0 {
        lemma_count_empty(up);
        lemma_count_empty(dp);
    } else {
        lemma_unconn_count(pg, pts, conns, n - 1, i);
        let prev = spec_unconn_findings(pg, pts, conns, n - 1);
        if !spec_connected(pts, conns, n - 1) {
            let e = FindingS::UnconnectedNode {
                grid: crate::validators::cells::spec_pg_name(pg),
                index: n - 1,
                coords: crate::validators::cells::spec_point_coords(pg, pts[n - 1]),
            };
            assert(spec_unconn_findings(pg, pts, conns, n) == prev + seq![e]);
            lemma_count_concat(prev, seq![e], up);
            lemma_count_concat(prev, seq![e], dp);
            lemma_count_single(e, up);
            lemma_count_single(e, dp);
        } else {
            assert(spec_unconn_findings(pg, pts, conns, n) =~= prev);
        }
    }
}

proof fn lemma_dup_count(pg: PathGrid, pts: Seq<PathGridPoint>, n: int, i: int)
    requires
        n >= 0,
    ensures
        count_matching(spec_dup_findings(pg, pts, n), |f: FindingS| is_dup_at(f, i)) == if 0 <= i
            < n && spec_later_dup(pts, i) {
            1int
        } else {
            0int
        },
        count_matching(spec_dup_findings(pg, pts, n), |f: FindingS| is_unconn_at(f, i)) == 0,
    decreases n,
{
    let up = |f: FindingS| is_unconn_at(f, i);
    let dp = |f: FindingS| is_dup_at(f, i);
    if n == 0 {
        lemma_count_empty(up);
        lemma_count_empty(dp);
    } else {
        lemma_dup_count(pg, pts, n - 1, i);
        let prev = spec_dup_findings(pg, pts, n - 1);
        if spec_later_dup(pts, n - 1) {
            let e = FindingS::DuplicateNode {
                grid: crate::validators::cells::spec_pg_name(pg),
                index: n - 1,
                coords: crate::validators::cells::spec_point_coords(pg, pts[n - 1]),
            };
            assert(spec_dup_findings(pg, pts, n) == prev + seq![e]);
            lemma_count_concat(prev, seq![e], up);
            lemma_count_concat(prev, seq![e], dp);
            lemma_count_single(e, up);
            lemma_count_single(e, dp);
        } else {
            assert(spec_dup_findings(pg, pts, n) =~= prev);
        }
    }
}

/// A point with connection count zero, absent from the explicit
/// connection set, whose location is unique within the grid, yields
/// exactly one unconnected-node finding for its index, and no
/// duplicate-node finding. The connection entries must all name
/// existing points: a stray entry enlarges the connected set, and the
/// unconnected scan runs only when the points outnumber that set.
pub proof fn lemma_unconnected_reported_once(pg: PathGrid, i: int)
    requires
        pg.points is Some,
        0 <= i < pg_points(pg).len(),
        pg_points(pg)[i].connection_count == 0,
        forall|k: int| 0 <= k < pg_conns(pg).len() ==> pg_conns(pg)[k] as int != i,
        forall|k: int| #![trigger pg_conns(pg)[k]]
            0 <= k < pg_conns(pg).len() ==> (pg_conns(pg)[k] as int) < pg_points(pg).len(),
        forall|j: int|
            0 <= j < pg_points(pg).len() && j != i ==> pg_points(pg)[j].location != pg_points(
                pg,
            )[i].location,
    ensures
        count_matching(spec_pathgrid_findings(pg), |f: FindingS| is_unconn_at(f, i)) == 1,
        count_matching(spec_pathgrid_findings(pg), |f: FindingS| is_dup_at(f, i)) == 0,
{
    let pts = pg_points(pg);
    let conns = pg_conns(pg);
    let n = pts.len() as int;
    let up = |f: FindingS| is_unconn_at(f, i);
    let dp = |f: FindingS| is_dup_at(f, i);
    assert(!spec_connected(pts, conns, i));
    // The connected set is smaller than the point count, so the
    // unconnected scan runs: no entry is stray, and index `i` is
    // missing from the connected indices.
    lemma_stray_card_zero(pts, conns, conns.len() as int);
    lemma_conn_card_diff(pts, conns, 0, i);
    lemma_conn_card_diff(pts, conns, i + 1, n);
    assert(spec_conn_card(pts, conns, i + 1) == spec_conn_card(pts, conns, i));
    assert(spec_conn_card(pts, conns, n) + spec_stray_card(pts, conns, conns.len() as int) < n);
    let dups = spec_dup_findings(pg, pts, n);
    let uns = spec_unconn_findings(pg, pts, conns, n);
    assert(spec_pathgrid_findings(pg) == dups + uns);
    lemma_count_concat(dups, uns, up);
    lemma_count_concat(dups, uns, dp);
    lemma_dup_count(pg, pts, n, i);
    lemma_unconn_count(pg, pts, conns, n, i);
    assert(!spec_later_dup(pts, i));
}

/// Two points sharing one location, no other point sharing it, yield
/// exactly one duplicate-node finding, attributed to the earlier index,
/// whatever the points' connection status.
pub proof fn lemma_duplicate_reported_once(pg: PathGrid, i: int, j: int)
    requires
        pg.points is Some,
        0 <= i < j < pg_points(pg).len(),
        pg_points(pg)[i].location == pg_points(pg)[j].location,
        forall|m: int|
            0 <= m < pg_points(pg).len() && m != i && m != j ==> pg_points(pg)[m].location
                != pg_points(pg)[i].location,
    ensures
        count_matching(spec_pathgrid_findings(pg), |f: FindingS| is_dup_at(f, i)) == 1,
        count_matching(spec_pathgrid_findings(pg), |f: FindingS| is_dup_at(f, j)) == 0,
{
    let pts = pg_points(pg);
    let conns = pg_conns(pg);
    let n = pts.len() as int;
    let dpi = |f: FindingS| is_dup_at(f, i);
    let dpj = |f: FindingS| is_dup_at(f, j);
    assert(spec_later_dup(pts, i));
    assert(!spec_later_dup(pts, j)) by {
        if spec_later_dup(pts, j) {
            let m = choose|m: int| j < m < pts.len() && pts[m].location == pts[j].location;
            assert(pts[m].location == pts[i].location);
        }
    }
    let dups = spec_dup_findings(pg, pts, n);
    lemma_dup_count(pg, pts, n, i);
    lemma_dup_count(pg, pts, n, j);
    if n > spec_conn_card(pts, conns, n) + spec_stray_card(pts, conns, conns.len() as int) {
        let uns = spec_unconn_findings(pg, pts, conns, n);
        assert(spec_pathgrid_findings(pg) == dups + uns);
        lemma_count_concat(dups, uns, dpi);
        lemma_count_concat(dups, uns, dpj);
        lemma_unconn_count(pg, pts, conns, n, i);
        lemma_unconn_count(pg, pts, conns, n, j);
    } else {
        assert(spec_pathgrid_findings(pg) == dups + Seq::<FindingS>::empty());
        lemma_count_concat(dups, Seq::empty(), dpi);
        lemma_count_concat(dups, Seq::empty(), dpj);
        lemma_count_empty(dpi);
        lemma_count_empty(dpj);
    }
}

} // verus!
