use plugin_validator::context::Context;
use plugin_validator::findings::{FieldKind, Finding};
use plugin_validator::handlers::{Handlers, Rule};
use plugin_validator::model::{
    Cell, Coord, PathGrid, PathGridPoint, Placement, Record, RecordKind, Rotation, Translation,
};
use plugin_validator::tables::{parse_table, LookupTable};
use plugin_validator::util::{ci_starts_with, get_cell_grid, is_dead, is_marker, is_persistent};
use plugin_validator::validators::cells::CellValidator;
use plugin_validator::validators::missing::FieldValidator;
use plugin_validator::validators::supplies::SupplyChestValidator;
use plugin_validator::validators::todo::ToDoValidator;
use plugin_validator::validators::Validator;

fn b(s: &str) -> Vec<u8> {
    s.as_bytes().to_vec()
}

fn table(entries: &[(&str, &str)]) -> LookupTable {
    LookupTable::new(entries.iter().map(|(k, v)| (b(k), b(v))).collect())
}

fn placement(id: &str, x: i64, y: i64, z: i64) -> Placement {
    Placement {
        id: b(id),
        translation: Translation { x: Coord::Milli(x), y: Coord::Milli(y), z: Coord::Milli(z) },
        rotation: Rotation { x: 0, y: 0, z: 0 },
        deleted: None,
        owner_faction: None,
        owner_faction_rank: None,
    }
}

fn exterior_cell(grid: (i32, i32), references: Vec<Placement>) -> Cell {
    Cell {
        id: b(""),
        region: None,
        interior: false,
        grid,
        has_water: false,
        water_height: None,
        fog_density: None,
        references,
    }
}

fn interior_cell(id: &str, references: Vec<Placement>) -> Cell {
    Cell {
        id: b(id),
        region: None,
        interior: true,
        grid: (0, 0),
        has_water: false,
        water_height: None,
        fog_density: None,
        references,
    }
}

fn point(x: i32, y: i32, z: i32, count: u32) -> PathGridPoint {
    PathGridPoint { location: (x, y, z), connection_count: count }
}

fn cell_rule() -> CellValidator {
    CellValidator::new(table(&[]))
}

// Bounds checking.

#[test]
fn in_bounds_placement_yields_nothing() {
    let mut rule = cell_rule();
    let cell = exterior_cell((0, 0), vec![]);
    let p = placement("rock", 100_000, 8_191_999, 0);
    let out = rule.on_cellref(&cell, &p, &b("rock"));
    assert!(out.is_empty());
}

#[test]
fn non_finite_coordinate_is_far_out_not_out_of_bounds() {
    let mut rule = cell_rule();
    let cell = exterior_cell((0, 0), vec![]);
    let mut p = placement("rock", 9_000_000, 100, 0);
    p.translation.x = Coord::NonFinite;
    let out = rule.on_cellref(&cell, &p, &b("rock"));
    assert_eq!(out.len(), 1);
    assert!(matches!(out[0], Finding::FarOutReference { .. }));
}

#[test]
fn out_of_safe_range_coordinate_is_far_out() {
    let mut rule = cell_rule();
    let cell = exterior_cell((0, 0), vec![]);
    let p = placement("rock", 9_007_199_254_740_991_500, 100_000, 0);
    let out = rule.on_cellref(&cell, &p, &b("rock"));
    assert_eq!(out.len(), 1);
    assert!(matches!(out[0], Finding::FarOutReference { .. }));
}

#[test]
fn height_below_band_is_far_out() {
    let mut rule = cell_rule();
    let cell = exterior_cell((0, 0), vec![]);
    let p = placement("rock", 100_000, 100_000, -32_000_001);
    let out = rule.on_cellref(&cell, &p, &b("rock"));
    assert_eq!(out.len(), 1);
    assert!(matches!(out[0], Finding::FarOutReference { .. }));
}

#[test]
fn out_of_bounds_reports_expected_grid() {
    let mut rule = cell_rule();
    let cell = exterior_cell((0, 0), vec![]);
    let p = placement("rock", 8_192_500, 100_000, 0);
    let out = rule.on_cellref(&cell, &p, &b("rock"));
    assert_eq!(out.len(), 1);
    match &out[0] {
        Finding::OutOfBoundsReference { expected, .. } => assert_eq!(*expected, (1, 0)),
        other => panic!("unexpected finding {:?}", other),
    }
}

#[test]
fn out_of_bounds_negative_coordinates_floor_toward_minus() {
    let mut rule = cell_rule();
    let cell = exterior_cell((0, 0), vec![]);
    let p = placement("rock", -1_000, -8_193_000, 0);
    let out = rule.on_cellref(&cell, &p, &b("rock"));
    assert_eq!(out.len(), 1);
    match &out[0] {
        Finding::OutOfBoundsReference { expected, .. } => assert_eq!(*expected, (-1, -2)),
        other => panic!("unexpected finding {:?}", other),
    }
}

#[test]
fn deleted_placement_is_not_bounds_checked() {
    let mut rule = cell_rule();
    let cell = exterior_cell((0, 0), vec![]);
    let mut p = placement("rock", 8_192_500, 100, 0);
    p.deleted = Some(true);
    let out = rule.on_cellref(&cell, &p, &b("rock"));
    assert!(out.is_empty());
}

// Broken references.

#[test]
fn broken_reference_with_replacement() {
    let mut rule = CellValidator::new(table(&[("old_rock", "new_rock")]));
    let cell = interior_cell("room", vec![]);
    let p = placement("Old_Rock", 0, 0, 0);
    let out = rule.on_cellref(&cell, &p, &b("old_rock"));
    assert_eq!(out.len(), 1);
    match &out[0] {
        Finding::BrokenReference { id, replacement, .. } => {
            assert_eq!(id, &b("Old_Rock"));
            assert_eq!(replacement.as_deref(), Some(b("new_rock").as_slice()));
        }
        other => panic!("unexpected finding {:?}", other),
    }
}

#[test]
fn broken_reference_without_replacement() {
    let mut rule = CellValidator::new(table(&[("dead_rock", "")]));
    let cell = interior_cell("room", vec![]);
    let p = placement("dead_rock", 0, 0, 0);
    let out = rule.on_cellref(&cell, &p, &b("dead_rock"));
    assert_eq!(out.len(), 1);
    match &out[0] {
        Finding::BrokenReference { replacement, .. } => assert!(replacement.is_none()),
        other => panic!("unexpected finding {:?}", other),
    }
}

// Above-water black squares.

fn watery_cell(id: &str) -> Cell {
    let mut cell = interior_cell(id, vec![]);
    cell.has_water = true;
    cell.water_height = Some(0);
    cell
}

#[test]
fn above_water_black_square_reported_once_per_cell_and_id() {
    let mut rule = cell_rule();
    let cell = watery_cell("flooded");
    let p = placement("In_Lava_BlackSquare", 0, 0, 100_000);
    let first = rule.on_cellref(&cell, &p, &b("in_lava_blacksquare"));
    assert_eq!(first.len(), 1);
    assert!(matches!(first[0], Finding::AboveWaterBlackSquare { .. }));
    let second = rule.on_cellref(&cell, &p, &b("in_lava_blacksquare"));
    assert!(second.is_empty());
}

#[test]
fn black_square_below_water_is_fine() {
    let mut rule = cell_rule();
    let cell = watery_cell("flooded");
    let p = placement("t_aid_blackcircle_01", 0, 0, -1_000);
    let out = rule.on_cellref(&cell, &p, &b("t_aid_blackcircle_01"));
    assert!(out.is_empty());
}

#[test]
fn rotated_black_square_is_fine() {
    let mut rule = cell_rule();
    let cell = watery_cell("flooded");
    let mut p = placement("t_aid_blacktriangle_01", 0, 0, 100_000);
    p.rotation.x = 1_000;
    let out = rule.on_cellref(&cell, &p, &b("t_aid_blacktriangle_01"));
    assert!(out.is_empty());
}

// Fog density.

#[test]
fn zero_fog_density_reported_for_interior_cell() {
    let rule = cell_rule();
    let ctx = Context::new(vec![]);
    let mut cell = interior_cell("murky room", vec![]);
    cell.fog_density = Some(0);
    let out = rule.on_record(&ctx, &Record::Cell(cell));
    assert_eq!(out.len(), 1);
    assert!(matches!(out[0], Finding::ZeroFogDensity { .. }));
}

#[test]
fn zero_fog_density_suppressed_for_allow_listed_project() {
    let rule = cell_rule();
    let ctx = Context::new(vec![b"MY_"].iter().map(|p| p.to_vec()).collect());
    let mut cell = interior_cell("my_room", vec![]);
    cell.fog_density = Some(0);
    let out = rule.on_record(&ctx, &Record::Cell(cell));
    assert!(out.is_empty());
}

#[test]
fn absent_fog_density_is_fine() {
    let rule = cell_rule();
    let ctx = Context::new(vec![]);
    let cell = interior_cell("room", vec![]);
    let out = rule.on_record(&ctx, &Record::Cell(cell));
    assert!(out.is_empty());
}

// Path grids.

fn path_grid(points: Vec<PathGridPoint>, connections: Vec<u32>) -> PathGrid {
    PathGrid {
        cell: Some(b("town")),
        grid: Some((0, 0)),
        points: Some(points),
        connections: Some(connections),
    }
}

#[test]
fn empty_path_grid_yields_nothing() {
    let rule = cell_rule();
    let ctx = Context::new(vec![]);
    let out = rule.on_record(&ctx, &Record::PathGrid(path_grid(vec![], vec![])));
    assert!(out.is_empty());
}

#[test]
fn unconnected_point_reported_once() {
    let rule = cell_rule();
    let ctx = Context::new(vec![]);
    let pg = path_grid(vec![point(0, 0, 0, 1), point(5, 5, 5, 0)], vec![0]);
    let out = rule.on_record(&ctx, &Record::PathGrid(pg));
    assert_eq!(out.len(), 1);
    match &out[0] {
        Finding::UnconnectedNode { index, coords, .. } => {
            assert_eq!(*index, 1);
            assert_eq!(coords.local, (5, 5));
            assert_eq!(coords.world, None);
        }
        other => panic!("unexpected finding {:?}", other),
    }
}

#[test]
fn duplicate_points_reported_once_at_earlier_index() {
    let rule = cell_rule();
    let ctx = Context::new(vec![]);
    let pg = path_grid(vec![point(3, 4, 5, 1), point(3, 4, 5, 1)], vec![0, 1]);
    let out = rule.on_record(&ctx, &Record::PathGrid(pg));
    assert_eq!(out.len(), 1);
    match &out[0] {
        Finding::DuplicateNode { index, .. } => assert_eq!(*index, 0),
        other => panic!("unexpected finding {:?}", other),
    }
}

#[test]
fn offset_grid_reports_world_coordinates() {
    let rule = cell_rule();
    let ctx = Context::new(vec![]);
    let mut pg = path_grid(vec![point(10, 20, 0, 0)], vec![]);
    pg.grid = Some((2, 3));
    let out = rule.on_record(&ctx, &Record::PathGrid(pg));
    assert_eq!(out.len(), 1);
    match &out[0] {
        Finding::UnconnectedNode { coords, .. } => {
            assert_eq!(coords.local, (10, 20));
            assert_eq!(coords.world, Some((10 + 2 * 8192, 20 + 3 * 8192)));
        }
        other => panic!("unexpected finding {:?}", other),
    }
}

// Required fields.

#[test]
fn npc_with_empty_name_is_missing_name() {
    let rule = FieldValidator::new();
    let npc = Record::Npc {
        id: b("guard"),
        persistent: false,
        name: b(""),
        inventory: None,
        health: None,
    };
    let out = rule.on_record(&npc);
    assert_eq!(out.len(), 1);
    match &out[0] {
        Finding::MissingField { kind, field, .. } => {
            assert_eq!(*kind, RecordKind::Npc);
            assert_eq!(*field, FieldKind::Name);
        }
        other => panic!("unexpected finding {:?}", other),
    }
}

#[test]
fn mesh_without_extension_is_invalid() {
    let rule = FieldValidator::new();
    let activator = Record::Activator { id: b("door"), persistent: false, mesh: b("foo") };
    let out = rule.on_record(&activator);
    assert_eq!(out.len(), 1);
    match &out[0] {
        Finding::InvalidFieldValue { field, value, .. } => {
            assert_eq!(*field, FieldKind::Mesh);
            assert_eq!(value, &b("foo"));
        }
        other => panic!("unexpected finding {:?}", other),
    }
}

#[test]
fn mesh_with_extension_is_fine() {
    let rule = FieldValidator::new();
    let activator = Record::Activator { id: b("door"), persistent: false, mesh: b("foo.nif") };
    let out = rule.on_record(&activator);
    assert!(out.is_empty());
}

#[test]
fn whitespace_only_name_is_missing() {
    let rule = FieldValidator::new();
    let npc = Record::Npc {
        id: b("guard"),
        persistent: false,
        name: b("  \t "),
        inventory: None,
        health: None,
    };
    let out = rule.on_record(&npc);
    assert_eq!(out.len(), 1);
    assert!(matches!(out[0], Finding::MissingField { .. }));
}

#[test]
fn marker_book_is_skipped() {
    let rule = FieldValidator::new();
    let book = Record::Book {
        id: b("marker"),
        persistent: false,
        icon: b(""),
        mesh: b(""),
        name: b(""),
        marker: true,
    };
    assert!(rule.on_record(&book).is_empty());
}

#[test]
fn light_checked_only_when_carryable() {
    let rule = FieldValidator::new();
    let fixed = Record::Light {
        id: b("lamp"),
        persistent: false,
        icon: b(""),
        mesh: b(""),
        name: b(""),
        carryable: false,
    };
    assert!(rule.on_record(&fixed).is_empty());
    let carried = Record::Light {
        id: b("torch"),
        persistent: false,
        icon: b(""),
        mesh: b(""),
        name: b(""),
        carryable: true,
    };
    assert_eq!(rule.on_record(&carried).len(), 3);
}

// Supply chests.

fn chest(id: &str, faction: Option<&str>, rank: Option<u32>) -> Placement {
    let mut p = placement(id, 0, 0, 0);
    p.owner_faction = faction.map(b);
    p.owner_faction_rank = rank;
    p
}

#[test]
fn supply_chest_open_to_all_ranks_is_fine() {
    let rule = SupplyChestValidator::new(table(&[("guild_chest", "Mages Guild")]));
    let cell = interior_cell("hall", vec![]);
    let p = chest("Guild_Chest", Some("mages guild"), Some(4294967295));
    let out = rule.on_cellref(&cell, &p, &b("guild_chest"));
    assert!(out.is_empty());
}

#[test]
fn supply_chest_with_limited_rank_is_reported() {
    let rule = SupplyChestValidator::new(table(&[("guild_chest", "Mages Guild")]));
    let cell = interior_cell("hall", vec![]);
    let p = chest("guild_chest", Some("MAGES GUILD"), Some(2));
    let out = rule.on_cellref(&cell, &p, &b("guild_chest"));
    assert_eq!(out.len(), 1);
    assert!(matches!(out[0], Finding::NotAvailableToAllRanks { .. }));
}

#[test]
fn supply_chest_with_wrong_owner_is_reported() {
    let rule = SupplyChestValidator::new(table(&[("guild_chest", "Mages Guild")]));
    let cell = interior_cell("hall", vec![]);
    let p = chest("guild_chest", Some("Thieves Guild"), Some(0));
    let out = rule.on_cellref(&cell, &p, &b("guild_chest"));
    assert_eq!(out.len(), 1);
    match &out[0] {
        Finding::NotOwnedByFaction { faction, .. } => assert_eq!(faction, &b("Mages Guild")),
        other => panic!("unexpected finding {:?}", other),
    }
}

#[test]
fn unowned_supply_chest_is_reported() {
    let rule = SupplyChestValidator::new(table(&[("guild_chest", "Mages Guild")]));
    let cell = interior_cell("hall", vec![]);
    let p = chest("guild_chest", None, None);
    let out = rule.on_cellref(&cell, &p, &b("guild_chest"));
    assert_eq!(out.len(), 1);
    assert!(matches!(out[0], Finding::NotOwnedByFaction { .. }));
}

#[test]
fn unknown_container_is_ignored() {
    let rule = SupplyChestValidator::new(table(&[("guild_chest", "Mages Guild")]));
    let cell = interior_cell("hall", vec![]);
    let p = chest("barrel", None, None);
    assert!(rule.on_cellref(&cell, &p, &b("barrel")).is_empty());
}

// Development comments.

#[test]
fn todo_patterns_match_at_comment_start() {
    assert!(ToDoValidator::matches(&b("TODO: fix")));
    assert!(ToDoValidator::matches(&b("fixme later")));
    assert!(ToDoValidator::matches(&b("To Do tomorrow")));
    assert!(ToDoValidator::matches(&b("FIX ME")));
}

#[test]
fn merge_matches_after_whitespace_or_start() {
    assert!(ToDoValidator::matches(&b("Merge conflict here")));
    assert!(ToDoValidator::matches(&b("unresolved merge marker")));
}

#[test]
fn anchored_patterns_do_not_match_inside_words() {
    assert!(!ToDoValidator::matches(&b("undertodo")));
    assert!(!ToDoValidator::matches(&b("Amerge")));
    assert!(!ToDoValidator::matches(&b("no marker at all")));
}

#[test]
fn script_comment_attributed_to_script() {
    let rule = ToDoValidator::new();
    let script = Record::Script { id: b("scr"), script_text: None };
    let out = rule.on_scriptline(&script, &b("TODO: fix"), &b(""));
    assert_eq!(out.len(), 1);
    match &out[0] {
        Finding::TodoScript { script, comment } => {
            assert_eq!(script, &b("scr"));
            assert_eq!(comment, &b("TODO: fix"));
        }
        other => panic!("unexpected finding {:?}", other),
    }
}

// The traversal driver, end to end.

fn cells_only_validator() -> Validator {
    Validator::new(
        Context::new(vec![]),
        Handlers::new(vec![Rule::Cells(CellValidator::new(table(&[])))]),
    )
}

#[test]
fn end_to_end_out_of_bounds_placement() {
    let mut validator = cells_only_validator();
    let cell = exterior_cell((0, 0), vec![placement("rock", 8_192_500, 100_000, 0)]);
    let records = vec![Record::Cell(cell)];
    let out = validator.validate(&records);
    assert_eq!(out.len(), 1);
    match &out[0] {
        Finding::OutOfBoundsReference { id, expected, .. } => {
            assert_eq!(id, &b("rock"));
            assert_eq!(*expected, (1, 0));
        }
        other => panic!("unexpected finding {:?}", other),
    }
}

#[test]
fn driver_lowercases_placement_ids_for_lookup() {
    let mut validator = Validator::new(
        Context::new(vec![]),
        Handlers::new(vec![Rule::Cells(CellValidator::new(table(&[("old_rock", "new_rock")])))]),
    );
    let cell = interior_cell("room", vec![placement("OLD_ROCK", 0, 0, 0)]);
    let out = validator.validate(&vec![Record::Cell(cell)]);
    assert_eq!(out.len(), 1);
    assert!(matches!(out[0], Finding::BrokenReference { .. }));
}

#[test]
fn driver_threads_dialogue_topic_into_info_scripts() {
    let mut validator = Validator::new(
        Context::new(vec![]),
        Handlers::new(vec![Rule::ToDo(ToDoValidator::new())]),
    );
    let records = vec![
        Record::Dialogue { id: b("greeting") },
        Record::Info { id: b("info1"), script_text: Some(b("ShowMap ;TODO: fix")) },
    ];
    let out = validator.validate(&records);
    assert_eq!(out.len(), 1);
    match &out[0] {
        Finding::TodoInfo { info, topic, comment } => {
            assert_eq!(info, &b("info1"));
            assert_eq!(topic, &b("greeting"));
            assert_eq!(comment, &b("TODO: fix"));
        }
        other => panic!("unexpected finding {:?}", other),
    }
}

#[test]
fn driver_splits_script_lines_and_skips_blank_ones() {
    let mut validator = Validator::new(
        Context::new(vec![]),
        Handlers::new(vec![Rule::ToDo(ToDoValidator::new())]),
    );
    let records = vec![
        Record::Script {
            id: b("scr"),
            script_text: Some(b("  begin foo\n\n;Merge conflict here\nend  ")),
        },
    ];
    let out = validator.validate(&records);
    assert_eq!(out.len(), 1);
    match &out[0] {
        Finding::TodoScript { script, comment } => {
            assert_eq!(script, &b("scr"));
            assert_eq!(comment, &b("Merge conflict here"));
        }
        other => panic!("unexpected finding {:?}", other),
    }
}

#[test]
fn rules_broadcast_in_registration_order() {
    let mut validator = Validator::new(
        Context::new(vec![]),
        Handlers::new(vec![
            Rule::Fields(FieldValidator::new()),
            Rule::Supplies(SupplyChestValidator::new(table(&[("crate_1", "Guild")]))),
        ]),
    );
    let mut p = chest("crate_1", None, None);
    p.translation = Translation { x: Coord::Milli(0), y: Coord::Milli(0), z: Coord::Milli(0) };
    let cell = interior_cell("hall", vec![p]);
    let records = vec![
        Record::Activator { id: b("door"), persistent: false, mesh: b("") },
        Record::Cell(cell),
    ];
    let out = validator.validate(&records);
    assert_eq!(out.len(), 2);
    assert!(matches!(out[0], Finding::MissingField { .. }));
    assert!(matches!(out[1], Finding::NotOwnedByFaction { .. }));
}

#[test]
fn inert_records_fire_no_hooks() {
    let mut validator = Validator::new(
        Context::new(vec![]),
        Handlers::new(vec![
            Rule::Cells(CellValidator::new(table(&[]))),
            Rule::Fields(FieldValidator::new()),
        ]),
    );
    let records = vec![Record::Header, Record::Landscape, Record::LandscapeTexture, Record::Skill];
    assert!(validator.validate(&records).is_empty());
}

// Shared helpers.

#[test]
fn cell_grid_floors_toward_minus_infinity() {
    assert_eq!(get_cell_grid(8_192_500, 100_000), (1, 0));
    assert_eq!(get_cell_grid(-1_000, -8_193_000), (-1, -2));
    assert_eq!(get_cell_grid(0, 8_192_000), (0, 1));
}

#[test]
fn ci_prefix_matching() {
    assert!(ci_starts_with(&b("Foobar"), &b("foo")));
    assert!(ci_starts_with(&b("foo"), &b("")));
    assert!(!ci_starts_with(&b("fo"), &b("foo")));
    assert!(!ci_starts_with(&b("barfoo"), &b("foo")));
}

#[test]
fn dead_and_persistent_predicates() {
    let dead = Record::Creature {
        id: b("rat"),
        persistent: false,
        mesh: b("r.nif"),
        inventory: None,
        health: Some(0),
    };
    assert!(is_dead(&dead));
    let alive = Record::Npc {
        id: b("guard"),
        persistent: true,
        name: b("Guard"),
        inventory: None,
        health: Some(50),
    };
    assert!(!is_dead(&alive));
    assert!(is_persistent(&alive));
    assert!(!is_persistent(&Record::Dialogue { id: b("hello") }));
}

#[test]
fn record_accessors_yield_kind_and_id() {
    let npc = Record::Npc {
        id: b("guard"),
        persistent: false,
        name: b("Guard"),
        inventory: None,
        health: None,
    };
    assert_eq!(npc.kind(), RecordKind::Npc);
    assert_eq!(npc.id_bytes(), b("guard"));
    let effect = Record::MagicEffect;
    assert_eq!(effect.kind(), RecordKind::MagicEffect);
    assert!(effect.id_bytes().is_empty());
    let grid = Record::PathGrid(PathGrid { cell: None, grid: None, points: None, connections: None });
    assert_eq!(grid.kind(), RecordKind::PathGrid);
    assert!(grid.id_bytes().is_empty());
}

#[test]
fn black_square_in_exterior_cell_is_not_reported() {
    let mut rule = cell_rule();
    let cell = exterior_cell((0, 0), vec![]);
    let p = placement("in_lava_blacksquare", 0, 0, 100_000);
    let out = rule.on_cellref(&cell, &p, &b("in_lava_blacksquare"));
    assert!(out.is_empty());
}

#[test]
fn lookup_table_first_entry_wins() {
    let t = table(&[("key", "first"), ("key", "second")]);
    assert_eq!(t.get(&b("key")), Some(&b("first")));
    assert_eq!(t.get(&b("other")), None);
}

#[test]
fn stray_connection_entries_enlarge_the_connected_set() {
    // One point with connection count zero, and a connection set whose
    // single entry names no point: the set's size is one, the point
    // count does not exceed it, so no unconnected finding is owed.
    let rule = cell_rule();
    let ctx = Context::new(vec![]);
    let pg = path_grid(vec![point(0, 0, 0, 0)], vec![5]);
    assert!(rule.on_record(&ctx, &Record::PathGrid(pg)).is_empty());
}

#[test]
fn repeated_stray_entries_count_once() {
    // Two unconnected points against the stray value 5 listed twice:
    // the connected set is {5}, of size one, so both points are
    // reported.
    let rule = cell_rule();
    let ctx = Context::new(vec![]);
    let pg = path_grid(vec![point(0, 0, 0, 0), point(1, 1, 1, 0)], vec![5, 5]);
    let out = rule.on_record(&ctx, &Record::PathGrid(pg));
    assert_eq!(out.len(), 2);
    assert!(matches!(out[0], Finding::UnconnectedNode { index: 0, .. }));
    assert!(matches!(out[1], Finding::UnconnectedNode { index: 1, .. }));
}

#[test]
fn marker_meshes_are_recognized() {
    assert!(is_marker(&b("Marker_Divine.NIF")));
    assert!(is_marker(&b("marker_temple.nif")));
    assert!(is_marker(&b("marker_travel.nif")));
    assert!(!is_marker(&b("book.nif")));
    assert!(!is_marker(&b("")));
}

#[test]
fn table_text_parses_to_entries() {
    let text = b("Old_Rock = new_rock\n\ndead_rock=\nno separator here\n  KEY2  =  Value 2  ");
    let t = parse_table(&text);
    assert_eq!(t.get(&b("old_rock")), Some(&b("new_rock")));
    assert_eq!(t.get(&b("dead_rock")), Some(&b("")));
    assert_eq!(t.get(&b("key2")), Some(&b("Value 2")));
    assert_eq!(t.get(&b("no separator here")), None);
}
