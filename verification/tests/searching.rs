use formation_search::formation::{build_rotation_set, BlockFace, Side};
use formation_search::search::{check_search_inputs, run_search, search, SearchBox, SearchHit};

fn face_at(x: i64, y: i64, z: i64, side: Side, rotation: i32) -> BlockFace {
    BlockFace { x, y, z, side, rotation }
}

fn boxed(xmin: i64, xmax: i64, zmin: i64, zmax: i64, ymin: i64, ymax: i64) -> SearchBox {
    SearchBox { xmin, xmax, zmin, zmax, ymin, ymax }
}

#[test]
fn empty_box_reports_no_match() {
    // A face that would match anywhere its class is 0 (rotation 3 is
    // admitted by class 0 on every side), so only the empty ranges keep
    // the search from reporting it.
    let formation = vec![face_at(0, 0, 0, Side::TOP, 3)];
    let rotations = build_rotation_set(formation, true);
    assert_eq!(search(&boxed(0, 0, 0, 1, 0, 1), &rotations), None);
    assert_eq!(search(&boxed(0, 1, 5, 5, 0, 1), &rotations), None);
    assert_eq!(search(&boxed(0, 1, 0, 1, 3, 2), &rotations), None);
    assert_eq!(search(&boxed(7, -7, 7, -7, 7, -7), &rotations), None);
}

#[test]
fn single_cell_box_reports_its_origin() {
    // The coordinate (0,0,0) hashes to class 0, which admits rotation 3
    // on any side.
    let formation = vec![face_at(0, 0, 0, Side::SOUTH, 3)];
    let rotations = build_rotation_set(formation, false);
    let hit = search(&boxed(0, 1, 0, 1, 0, 1), &rotations);
    assert_eq!(hit, Some(SearchHit { x: 0, y: 0, z: 0, variant: 0 }));
}

#[test]
fn search_reports_first_match_in_scan_order() {
    // Classes admitting WEST with rotation 1 are {2, 6, 10, 13, 14, 15}.
    // Scanning x, then z, then y over this box, the first origin whose
    // class is one of those is (x, z, y) = (0, 2, 1), of class 2.
    let formation = vec![face_at(0, 0, 0, Side::WEST, 1)];
    let rotations = build_rotation_set(formation, false);
    let hit = search(&boxed(0, 4, 0, 4, 0, 2), &rotations);
    assert_eq!(hit, Some(SearchHit { x: 0, y: 1, z: 2, variant: 0 }));
}

#[test]
fn search_tests_every_face_of_a_variant() {
    // Two faces, offsets (0,0,0) and (1,0,0), both WEST rotation 1: the
    // first origin where both absolute coordinates carry an admitting
    // class is (x, z, y) = (0, 3, 1), later than the single-face hit.
    let formation = vec![
        face_at(0, 0, 0, Side::WEST, 1),
        face_at(1, 0, 0, Side::WEST, 1),
    ];
    let rotations = build_rotation_set(formation, false);
    let hit = search(&boxed(0, 4, 0, 4, 0, 2), &rotations);
    assert_eq!(hit, Some(SearchHit { x: 0, y: 1, z: 3, variant: 0 }));
}

#[test]
fn rotated_variant_is_not_reported_without_the_flag() {
    // At (0,0,0) the class is 0, admitting only rotation 3. A TOP face
    // with rotation 0 does not match, but its quarter turn (TOP,
    // rotation 3) does.
    let formation = vec![face_at(0, 0, 0, Side::TOP, 0)];
    let single = build_rotation_set(formation.clone(), false);
    assert_eq!(search(&boxed(0, 1, 0, 1, 0, 1), &single), None);

    let all = build_rotation_set(formation, true);
    let hit = search(&boxed(0, 1, 0, 1, 0, 1), &all);
    assert_eq!(hit, Some(SearchHit { x: 0, y: 0, z: 0, variant: 1 }));
}

#[test]
fn run_search_composes_rotation_set_and_scan() {
    let formation = vec![face_at(0, 0, 0, Side::TOP, 0)];
    assert_eq!(run_search(formation.clone(), false, &boxed(0, 1, 0, 1, 0, 1)), None);
    assert_eq!(
        run_search(formation, true, &boxed(0, 1, 0, 1, 0, 1)),
        Some(SearchHit { x: 0, y: 0, z: 0, variant: 1 })
    );
}

#[test]
fn input_check_accepts_bounded_inputs_only() {
    let good = vec![face_at(4194304, -4194304, 0, Side::TOP, 3)];
    let sb = boxed(-4194304, 4194304, -10, 10, 0, 1);
    assert!(check_search_inputs(&good, &sb));

    let far = vec![face_at(4194305, 0, 0, Side::TOP, 3)];
    assert!(!check_search_inputs(&far, &sb));

    let bad_rotation = vec![face_at(0, 0, 0, Side::TOP, 4)];
    assert!(!check_search_inputs(&bad_rotation, &sb));

    let wide = boxed(-4194305, 0, 0, 1, 0, 1);
    assert!(!check_search_inputs(&good, &wide));
}
