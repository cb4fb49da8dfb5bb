use formation_search::formation::{build_rotation_set, rotate90deg, BlockFace, Side};
use formation_search::hash::{get_coordinate_random, get_texture_type};
use formation_search::matcher::compatible_rotation;

const ALL_SIDES: [Side; 6] = [
    Side::TOP,
    Side::BOTTOM,
    Side::WEST,
    Side::EAST,
    Side::SOUTH,
    Side::NORTH,
];

fn face(side: Side, rotation: i32) -> BlockFace {
    BlockFace { x: 0, y: 0, z: 0, side, rotation }
}

#[test]
fn coordinate_random_exact_values() {
    assert_eq!(get_coordinate_random(0, 0, 0), 0);
    assert_eq!(get_coordinate_random(1, 2, 3), 5214394280679898191778266i128);
    assert_eq!(get_coordinate_random(-5, 7, -11), 70259338805275827453923766i128);
}

#[test]
fn texture_type_exact_values() {
    assert_eq!(get_texture_type(0, 0, 0), 0);
    assert_eq!(get_texture_type(-1, -2, -3), 11);
    assert_eq!(get_texture_type(123456, -654321, 42), 15);
    assert_eq!(get_texture_type(8388608, 8388608, 8388608), 0);
    assert_eq!(get_texture_type(-8388608, -8388608, -8388608), 0);
}

#[test]
fn texture_type_pure_and_in_range() {
    let coords: [(i128, i128, i128); 8] = [
        (0, 0, 0),
        (1, 2, 3),
        (-1, -2, -3),
        (8388608, 0, -8388608),
        (-8388608, 8388608, 0),
        (123456, -654321, 42),
        (-7, 0, 7),
        (1000000, 1000000, -1000000),
    ];
    for &(x, y, z) in coords.iter() {
        let a = get_texture_type(x, y, z);
        let b = get_texture_type(x, y, z);
        assert_eq!(a, b);
        assert!(0 <= a && a < 16);
    }
}

/// The allowed (rotation, side) pairs of each class, written out
/// independently of the matcher, clause by clause.
fn allowed(class: i128, side: Side, rotation: i32) -> bool {
    let lateral = side != Side::TOP && side != Side::BOTTOM;
    let clauses: Vec<(i32, Vec<Side>)> = match class {
        0 => vec![(3, ALL_SIDES.to_vec())],
        1 => vec![
            (3, vec![Side::TOP, Side::SOUTH]),
            (2, vec![Side::WEST]),
            (1, vec![Side::BOTTOM, Side::NORTH]),
            (0, vec![Side::EAST]),
        ],
        2 => {
            return (rotation == 3 && (side == Side::TOP || side == Side::BOTTOM))
                || (rotation == 1 && lateral);
        }
        3 => vec![
            (3, vec![Side::BOTTOM, Side::SOUTH]),
            (2, vec![Side::EAST]),
            (1, vec![Side::TOP, Side::NORTH]),
            (0, vec![Side::WEST]),
        ],
        4 => {
            return (rotation == 3 && lateral)
                || (rotation == 2 && side == Side::BOTTOM)
                || (rotation == 0 && side == Side::TOP);
        }
        5 => vec![
            (3, vec![Side::WEST]),
            (2, vec![Side::NORTH]),
            (1, vec![Side::EAST]),
            (0, vec![Side::TOP, Side::BOTTOM, Side::SOUTH]),
        ],
        6 => {
            return (rotation == 1 && lateral)
                || (rotation == 2 && side == Side::BOTTOM)
                || (rotation == 0 && side == Side::TOP);
        }
        7 => vec![
            (3, vec![Side::WEST]),
            (2, vec![Side::SOUTH, Side::TOP, Side::BOTTOM]),
            (1, vec![Side::EAST]),
            (0, vec![Side::NORTH]),
        ],
        8 => {
            return (rotation == 1 && (side == Side::TOP || side == Side::BOTTOM))
                || (rotation == 3 && lateral);
        }
        9 => vec![
            (3, vec![Side::BOTTOM, Side::NORTH]),
            (2, vec![Side::EAST]),
            (1, vec![Side::TOP, Side::SOUTH]),
            (0, vec![Side::WEST]),
        ],
        10 => vec![(1, ALL_SIDES.to_vec())],
        11 => vec![
            (3, vec![Side::TOP, Side::NORTH]),
            (2, vec![Side::WEST]),
            (1, vec![Side::BOTTOM, Side::SOUTH]),
            (0, vec![Side::EAST]),
        ],
        12 => {
            return (rotation == 3 && lateral)
                || (rotation == 2 && side == Side::TOP)
                || (rotation == 0 && side == Side::BOTTOM);
        }
        13 => vec![
            (3, vec![Side::EAST]),
            (2, vec![Side::TOP, Side::BOTTOM, Side::SOUTH]),
            (1, vec![Side::WEST]),
            (0, vec![Side::NORTH]),
        ],
        14 => {
            return (rotation == 1 && lateral)
                || (rotation == 2 && side == Side::TOP)
                || (rotation == 0 && side == Side::BOTTOM);
        }
        15 => vec![
            (3, vec![Side::EAST]),
            (2, vec![Side::NORTH]),
            (1, vec![Side::WEST]),
            (0, vec![Side::SOUTH, Side::TOP, Side::BOTTOM]),
        ],
        _ => vec![],
    };
    clauses
        .iter()
        .any(|(r, sides)| *r == rotation && sides.contains(&side))
}

#[test]
fn matcher_agrees_with_rule_table_exhaustively() {
    for class in 0..16i128 {
        for &side in ALL_SIDES.iter() {
            for rotation in 0..4i32 {
                let expected = allowed(class, side, rotation);
                let got = compatible_rotation(class, &face(side, rotation));
                assert_eq!(got, expected, "class {} side {:?} rotation {}", class, side, rotation);
            }
        }
    }
}

#[test]
fn matcher_rejects_classes_outside_range() {
    for &side in ALL_SIDES.iter() {
        for rotation in 0..4i32 {
            assert!(!compatible_rotation(16, &face(side, rotation)));
            assert!(!compatible_rotation(-1, &face(side, rotation)));
            assert!(!compatible_rotation(100, &face(side, rotation)));
        }
    }
}

#[test]
fn rotation_remaps_sides_and_rotations() {
    let input = vec![
        BlockFace { x: 1, y: 2, z: 3, side: Side::WEST, rotation: 2 },
        BlockFace { x: 0, y: 0, z: 0, side: Side::TOP, rotation: 0 },
        BlockFace { x: 0, y: 0, z: 0, side: Side::BOTTOM, rotation: 3 },
        BlockFace { x: 0, y: 0, z: 0, side: Side::EAST, rotation: 1 },
        BlockFace { x: 0, y: 0, z: 0, side: Side::SOUTH, rotation: 0 },
        BlockFace { x: 0, y: 0, z: 0, side: Side::NORTH, rotation: 3 },
    ];
    let out = rotate90deg(Some(&input));
    assert_eq!(out.len(), 6);
    assert_eq!(out[0].side, Side::SOUTH);
    assert_eq!(out[0].rotation, 2);
    assert_eq!(out[1].side, Side::TOP);
    assert_eq!(out[1].rotation, 3);
    assert_eq!(out[2].side, Side::BOTTOM);
    assert_eq!(out[2].rotation, 0);
    assert_eq!(out[3].side, Side::NORTH);
    assert_eq!(out[3].rotation, 1);
    assert_eq!(out[4].side, Side::EAST);
    assert_eq!(out[4].rotation, 0);
    assert_eq!(out[5].side, Side::WEST);
    assert_eq!(out[5].rotation, 3);
}

/// Both horizontal offsets of a rotated face are deliberately drawn from
/// the original `z` offset; the original `x` does not carry over.
#[test]
fn rotation_takes_both_horizontal_offsets_from_z() {
    let input = vec![BlockFace { x: 5, y: -2, z: 7, side: Side::NORTH, rotation: 1 }];
    let out = rotate90deg(Some(&input));
    assert_eq!(out[0].x, 7);
    assert_eq!(out[0].y, -2);
    assert_eq!(out[0].z, 7);
}

#[test]
fn four_rotations_restore_every_orientation() {
    let mut formation = Vec::new();
    for &side in ALL_SIDES.iter() {
        for rotation in 0..4i32 {
            formation.push(BlockFace { x: 9, y: -4, z: 2, side, rotation });
        }
    }
    let once = rotate90deg(Some(&formation));
    let twice = rotate90deg(Some(&once));
    let thrice = rotate90deg(Some(&twice));
    let quad = rotate90deg(Some(&thrice));
    assert_eq!(quad.len(), formation.len());
    for (orig, back) in formation.iter().zip(quad.iter()) {
        assert_eq!(orig.side, back.side);
        assert_eq!(orig.rotation, back.rotation);
    }
}

#[test]
fn rotation_set_has_one_or_four_variants() {
    let formation = vec![BlockFace { x: 1, y: 0, z: 2, side: Side::EAST, rotation: 2 }];
    let single = build_rotation_set(formation.clone(), false);
    assert_eq!(single.len(), 1);
    assert_eq!(single[0], formation);

    let all = build_rotation_set(formation.clone(), true);
    assert_eq!(all.len(), 4);
    assert_eq!(all[0], formation);
    assert_eq!(all[1], rotate90deg(Some(&all[0])));
    assert_eq!(all[2], rotate90deg(Some(&all[1])));
    assert_eq!(all[3], rotate90deg(Some(&all[2])));
}
