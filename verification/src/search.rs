//! The exhaustive search engine: scans a bounding box of candidate origins
//! and reports the first one, in a fixed iteration order, at which some
//! rotation variant of the formation is fully compatible with the
//! per-voxel hash classes.

use vstd::prelude::*;
use crate::formation::{face_wf, rotate_formation, views_of, BlockFace};
use crate::hash::{coord_ok, hash_class};
use crate::matcher::compatible_rule;

verus! {

/// The half-open coordinate ranges a search scans, one pair per axis.
#[derive(PartialEq, Eq, Structural, Clone, Copy, Debug)]
pub struct SearchBox {
    pub xmin: i64,
    pub xmax: i64,
    pub zmin: i64,
    pub zmax: i64,
    pub ymin: i64,
    pub ymax: i64,
}

/// A successful search result: the matching origin and which rotation
/// variant matched there.
#[derive(PartialEq, Eq, Structural, Clone, Copy, Debug)]
pub struct SearchHit {
    pub x: i64,
    pub y: i64,
    pub z: i64,
    pub variant: usize,
}

/// Face offsets and box bounds a search accepts. Together with the equal
/// bound on the box this keeps every absolute coordinate the scan visits
/// inside the exact domain of the hash.
pub open spec fn offset_ok(c: int) -> bool {
    -4194304 <= c <= 4194304
}

/// A face the search can test: a valid rotation and bounded offsets.
pub open spec fn face_ok(f: BlockFace) -> bool {
    face_wf(f) && offset_ok(f.x as int) && offset_ok(f.y as int) && offset_ok(f.z as int)
}

/// A formation the search can test.
pub open spec fn formation_ok(s: Seq<BlockFace>) -> bool {
    forall|i: int| 0 <= i < s.len() ==> face_ok(#[trigger] s[i])
}

/// A box the search can scan.
pub open spec fn box_ok(sb: SearchBox) -> bool {
    offset_ok(sb.xmin as int) && offset_ok(sb.xmax as int) && offset_ok(sb.zmin as int)
        && offset_ok(sb.zmax as int) && offset_ok(sb.ymin as int) && offset_ok(sb.ymax as int)
}

/// Whether an origin lies inside the box's half-open ranges.
pub open spec fn in_box(sb: SearchBox, x: int, z: int, y: int) -> bool {
    sb.xmin <= x < sb.xmax && sb.zmin <= z < sb.zmax && sb.ymin <= y < sb.ymax
}

/// A box is empty when some axis has an empty range.
pub open spec fn box_empty(sb: SearchBox) -> bool {
    sb.xmin >= sb.xmax || sb.zmin >= sb.zmax || sb.ymin >= sb.ymax
}

/// An empty box contains no candidate origin at all, so a search over it
/// owes a "no match" outcome.
pub proof fn lemma_empty_box_has_no_candidates(sb: SearchBox)
    requires
        box_empty(sb),
    ensures
        forall|x: int, z: int, y: int| !in_box(sb, x, z, y),
{
}

/// Whether one face, placed at the given origin, is compatible with the
/// hash class of its absolute coordinate.
pub open spec fn face_matches_at(f: BlockFace, x: int, y: int, z: int) -> bool {
    compatible_rule(
        hash_class(((x + f.x) as i128), ((y + f.y) as i128), ((z + f.z) as i128)),
        f.side,
        f.rotation as int,
    )
}

/// Whether every face of a formation is compatible at the given origin.
pub open spec fn formation_matches_at(s: Seq<BlockFace>, x: int, y: int, z: int) -> bool {
    forall|i: int| 0 <= i < s.len() ==> face_matches_at(#[trigger] s[i], x, y, z)
}

/// Whether rotation variant `v` of the set matches at the given origin.
pub open spec fn variant_matches(rots: Seq<Seq<BlockFace>>, v: int, x: int, y: int, z: int) -> bool {
    formation_matches_at(rots[v], x, y, z)
}

/// The scan order: `x` outermost, then `z`, then `y`, then the variant
/// index. One candidate comes before another when it is visited earlier.
pub open spec fn candidate_before(
    x1: int,
    z1: int,
    y1: int,
    v1: int,
    x2: int,
    z2: int,
    y2: int,
    v2: int,
) -> bool {
    x1 < x2 || (x1 == x2 && (z1 < z2 || (z1 == z2 && (y1 < y2 || (y1 == y2 && v1 < v2)))))
}

/// What an exhaustive scan owes: a reported hit is a real match inside the
/// box, and nothing visited earlier matches; a "no match" outcome means no
/// candidate in the box matches any variant.
pub open spec fn search_outcome_ok(
    sb: SearchBox,
    rots: Seq<Seq<BlockFace>>,
    found: Option<SearchHit>,
) -> bool {
    match found {
        Some(hit) => {
            &&& in_box(sb, hit.x as int, hit.z as int, hit.y as int)
            &&& 0 <= hit.variant < rots.len()
            &&& variant_matches(rots, hit.variant as int, hit.x as int, hit.y as int, hit.z as int)
            &&& forall|x: int, z: int, y: int, v: int|
                in_box(sb, x, z, y) && 0 <= v < rots.len() && candidate_before(
                    x,
                    z,
                    y,
                    v,
                    hit.x as int,
                    hit.z as int,
                    hit.y as int,
                    hit.variant as int,
                ) ==> !(#[trigger] variant_matches(rots, v, x, y, z))
        },
        None => forall|x: int, z: int, y: int, v: int|
            in_box(sb, x, z, y) && 0 <= v < rots.len() ==> !(#[trigger] variant_matches(
                rots,
                v,
                x,
                y,
                z,
            )),
    }
}

/// Tests every face of one formation at one origin, abandoning the
/// formation at its first incompatible face.
fn formation_matches(faces: &Vec<BlockFace>, x: i64, z: i64, y: i64) -> (r: bool)
    requires
        formation_ok(faces@),
        offset_ok(x as int),
        offset_ok(z as int),
        offset_ok(y as int),
    ensures
        r == formation_matches_at(faces@, x as int, y as int, z as int),
{
    let n = faces.len();
    let mut j: usize = 0;
    while j < n
        invariant
            0 <= j <= n,
            n == faces@.len(),
            formation_ok(faces@),
            offset_ok(x as int),
            offset_ok(z as int),
            offset_ok(y as int),
            forall|k: int|
                0 <= k < j ==> face_matches_at(#[trigger] faces@[k], x as int, y as int, z as int),
        decreases n - j,
    {
        let b = &faces[j];
        let ax: i64 = x + b.x;
        let ay: i64 = y + b.y;
        let az: i64 = z + b.z;
        let texture = crate::hash::get_texture_type(ax as i128, ay as i128, az as i128);
        if !crate::matcher::compatible_rotation(texture, b) {
            assert(!face_matches_at(faces@[j as int], x as int, y as int, z as int));
            return false;
        }
        j = j + 1;
    }
    true
}

/// Scans the box in the fixed order and reports the first candidate at
/// which some variant of the set fully matches, or nothing when the box is
/// exhausted.
pub fn search(sb: &SearchBox, rotations: &Vec<Vec<BlockFace>>) -> (found: Option<SearchHit>)
    requires
        box_ok(*sb),
        forall|v: int|
            0 <= v < rotations@.len() ==> formation_ok(#[trigger] views_of(rotations@)[v]),
    ensures
        search_outcome_ok(*sb, views_of(rotations@), found),
{
    let ghost rots = views_of(rotations@);
    let nv = rotations.len();
    let mut x = sb.xmin;
    while x < sb.xmax
        invariant
            box_ok(*sb),
            rots == views_of(rotations@),
            nv == rotations@.len(),
            forall|v: int| 0 <= v < nv ==> formation_ok(#[trigger] rots[v]),
            sb.xmin <= x,
            x <= sb.xmax || x == sb.xmin,
            forall|xp: int, zp: int, yp: int, vp: int|
                in_box(*sb, xp, zp, yp) && 0 <= vp < nv && xp < x ==> !(#[trigger] variant_matches(
                    rots,
                    vp,
                    xp,
                    yp,
                    zp,
                )),
        decreases sb.xmax - x,
    {
        let mut z = sb.zmin;
        while z < sb.zmax
            invariant
                box_ok(*sb),
                rots == views_of(rotations@),
                nv == rotations@.len(),
                forall|v: int| 0 <= v < nv ==> formation_ok(#[trigger] rots[v]),
                sb.xmin <= x < sb.xmax,
                sb.zmin <= z,
                z <= sb.zmax || z == sb.zmin,
                forall|xp: int, zp: int, yp: int, vp: int|
                    in_box(*sb, xp, zp, yp) && 0 <= vp < nv && xp < x ==> !(
                    #[trigger] variant_matches(rots, vp, xp, yp, zp)),
                forall|zp: int, yp: int, vp: int|
                    in_box(*sb, x as int, zp, yp) && 0 <= vp < nv && zp < z ==> !(
                    #[trigger] variant_matches(rots, vp, x as int, yp, zp)),
            decreases sb.zmax - z,
        {
            let mut y = sb.ymin;
            while y < sb.ymax
                invariant
                    box_ok(*sb),
                    rots == views_of(rotations@),
                    nv == rotations@.len(),
                    forall|v: int| 0 <= v < nv ==> formation_ok(#[trigger] rots[v]),
                    sb.xmin <= x < sb.xmax,
                    sb.zmin <= z < sb.zmax,
                    sb.ymin <= y,
                    y <= sb.ymax || y == sb.ymin,
                    forall|xp: int, zp: int, yp: int, vp: int|
                        in_box(*sb, xp, zp, yp) && 0 <= vp < nv && xp < x ==> !(
                        #[trigger] variant_matches(rots, vp, xp, yp, zp)),
                    forall|zp: int, yp: int, vp: int|
                        in_box(*sb, x as int, zp, yp) && 0 <= vp < nv && zp < z ==> !(
                        #[trigger] variant_matches(rots, vp, x as int, yp, zp)),
                    forall|yp: int, vp: int|
                        in_box(*sb, x as int, z as int, yp) && 0 <= vp < nv && yp < y ==> !(
                        #[trigger] variant_matches(rots, vp, x as int, yp, z as int)),
                decreases sb.ymax - y,
            {
                let mut v: usize = 0;
                while v < nv
                    invariant
                        box_ok(*sb),
                        rots == views_of(rotations@),
                        nv == rotations@.len(),
                        forall|vq: int| 0 <= vq < nv ==> formation_ok(#[trigger] rots[vq]),
                        sb.xmin <= x < sb.xmax,
                        sb.zmin <= z < sb.zmax,
                        sb.ymin <= y < sb.ymax,
                        0 <= v <= nv,
                        forall|xp: int, zp: int, yp: int, vp: int|
                            in_box(*sb, xp, zp, yp) && 0 <= vp < nv && xp < x ==> !(
                            #[trigger] variant_matches(rots, vp, xp, yp, zp)),
                        forall|zp: int, yp: int, vp: int|
                            in_box(*sb, x as int, zp, yp) && 0 <= vp < nv && zp < z ==> !(
                            #[trigger] variant_matches(rots, vp, x as int, yp, zp)),
                        forall|yp: int, vp: int|
                            in_box(*sb, x as int, z as int, yp) && 0 <= vp < nv && yp < y ==> !(
                            #[trigger] variant_matches(rots, vp, x as int, yp, z as int)),
                        forall|vp: int|
                            0 <= vp < v ==> !(#[trigger] variant_matches(
                                rots,
                                vp,
                                x as int,
                                y as int,
                                z as int,
                            )),
                    decreases nv - v,
                {
                    assert(rots[v as int] == rotations@[v as int]@);
                    if formation_matches(&rotations[v], x, z, y) {
                        return Some(SearchHit { x, y, z, variant: v });
                    }
                    v = v + 1;
                }
                y = y + 1;
            }
            z = z + 1;
        }
        x = x + 1;
    }
    None
}

/// Whether a loaded formation and a requested box are within what the
/// search accepts; callers outside the library test this before searching.
pub fn check_search_inputs(formation: &Vec<BlockFace>, sb: &SearchBox) -> (ok: bool)
    ensures
        ok == (formation_ok(formation@) && box_ok(*sb)),
{
    if !(-4194304 <= sb.xmin && sb.xmin <= 4194304 && -4194304 <= sb.xmax && sb.xmax <= 4194304
        && -4194304 <= sb.zmin && sb.zmin <= 4194304 && -4194304 <= sb.zmax && sb.zmax <= 4194304
        && -4194304 <= sb.ymin && sb.ymin <= 4194304 && -4194304 <= sb.ymax && sb.ymax
        <= 4194304) {
        return false;
    }
    let n = formation.len();
    let mut i: usize = 0;
    while i < n
        invariant
            0 <= i <= n,
            n == formation@.len(),
            box_ok(*sb),
            forall|k: int| 0 <= k < i ==> face_ok(#[trigger] formation@[k]),
        decreases n - i,
    {
        let f = &formation[i];
        if !(0 <= f.rotation && f.rotation <= 3 && -4194304 <= f.x && f.x <= 4194304 && -4194304
            <= f.y && f.y <= 4194304 && -4194304 <= f.z && f.z <= 4194304) {
            return false;
        }
        i = i + 1;
    }
    true
}

/// A quarter turn keeps a face inside the search's accepted ranges, since
/// the image's offsets are drawn from the original `y` and `z`.
pub proof fn lemma_rotate_formation_ok(s: Seq<BlockFace>)
    requires
        formation_ok(s),
    ensures
        formation_ok(rotate_formation(s)),
{
    assert forall|i: int| 0 <= i < rotate_formation(s).len() implies face_ok(
        #[trigger] rotate_formation(s)[i],
    ) by {
        assert(face_ok(s[i]));
    }
}

/// Builds the rotation set for the formation and scans the box: the whole
/// search as one function of its inputs.
pub fn run_search(formation: Vec<BlockFace>, use_all_rotations: bool, sb: &SearchBox) -> (found:
    Option<SearchHit>)
    requires
        formation_ok(formation@),
        box_ok(*sb),
    ensures
        search_outcome_ok(*sb, crate::formation::rotation_set_spec(formation@, use_all_rotations), found),
{
    let ghost original = formation@;
    let rotations = crate::formation::build_rotation_set(formation, use_all_rotations);
    proof {
        lemma_rotate_formation_ok(original);
        lemma_rotate_formation_ok(rotate_formation(original));
        lemma_rotate_formation_ok(rotate_formation(rotate_formation(original)));
        let vs = views_of(rotations@);
        assert forall|v: int| 0 <= v < rotations@.len() implies formation_ok(
            #[trigger] views_of(rotations@)[v],
        ) by {
            if use_all_rotations {
                assert(vs.len() == 4);
                if v == 0 {
                    assert(vs[0] == original);
                } else if v == 1 {
                    assert(vs[1] == rotate_formation(original));
                } else if v == 2 {
                    assert(vs[2] == rotate_formation(rotate_formation(original)));
                } else {
                    assert(vs[3] == rotate_formation(rotate_formation(rotate_formation(original))));
                }
            } else {
                assert(vs.len() == 1);
                assert(vs[0] == original);
            }
        }
    }
    search(sb, &rotations)
}

} // verus!
