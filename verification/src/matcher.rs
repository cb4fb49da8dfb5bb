//! The per-class compatibility rule: which (side, rotation) observations a
//! hash class admits. The rule table is the whole specification; each
//! class's rule is a disjunction of (rotation, allowed-side-set) clauses.

use vstd::prelude::*;
use crate::formation::{BlockFace, Side};

verus! {

/// Any side except the two horizontal ones.
pub open spec fn lateral(s: Side) -> bool {
    s != Side::TOP && s != Side::BOTTOM
}

/// The rule table: whether a face observed with the given side and texture
/// rotation is admitted by the given hash class. Classes outside `[0, 16)`
/// admit nothing; the hash never produces them.
pub open spec fn compatible_rule(class: int, side: Side, rotation: int) -> bool {
    if class == 0 {
        rotation == 3
    } else if class == 1 {
        (rotation == 3 && (side == Side::TOP || side == Side::SOUTH)) || (rotation == 2 && side
            == Side::WEST) || (rotation == 1 && (side == Side::BOTTOM || side == Side::NORTH)) || (
        rotation == 0 && side == Side::EAST)
    } else if class == 2 {
        (rotation == 3 && (side == Side::TOP || side == Side::BOTTOM)) || (rotation == 1 && lateral(
            side,
        ))
    } else if class == 3 {
        (rotation == 3 && (side == Side::BOTTOM || side == Side::SOUTH)) || (rotation == 2 && side
            == Side::EAST) || (rotation == 1 && (side == Side::TOP || side == Side::NORTH)) || (
        rotation == 0 && side == Side::WEST)
    } else if class == 4 {
        (rotation == 3 && lateral(side)) || (rotation == 2 && side == Side::BOTTOM) || (rotation
            == 0 && side == Side::TOP)
    } else if class == 5 {
        (rotation == 3 && side == Side::WEST) || (rotation == 2 && side == Side::NORTH) || (rotation
            == 1 && side == Side::EAST) || (rotation == 0 && (side == Side::TOP || side
            == Side::BOTTOM || side == Side::SOUTH))
    } else if class == 6 {
        (rotation == 1 && lateral(side)) || (rotation == 2 && side == Side::BOTTOM) || (rotation
            == 0 && side == Side::TOP)
    } else if class == 7 {
        (rotation == 3 && side == Side::WEST) || (rotation == 2 && (side == Side::SOUTH || side
            == Side::TOP || side == Side::BOTTOM)) || (rotation == 1 && side == Side::EAST) || (
        rotation == 0 && side == Side::NORTH)
    } else if class == 8 {
        (rotation == 1 && (side == Side::TOP || side == Side::BOTTOM)) || (rotation == 3 && lateral(
            side,
        ))
    } else if class == 9 {
        (rotation == 3 && (side == Side::BOTTOM || side == Side::NORTH)) || (rotation == 2 && side
            == Side::EAST) || (rotation == 1 && (side == Side::TOP || side == Side::SOUTH)) || (
        rotation == 0 && side == Side::WEST)
    } else if class == 10 {
        rotation == 1
    } else if class == 11 {
        (rotation == 3 && (side == Side::TOP || side == Side::NORTH)) || (rotation == 2 && side
            == Side::WEST) || (rotation == 1 && (side == Side::BOTTOM || side == Side::SOUTH)) || (
        rotation == 0 && side == Side::EAST)
    } else if class == 12 {
        (rotation == 3 && lateral(side)) || (rotation == 2 && side == Side::TOP) || (rotation == 0
            && side == Side::BOTTOM)
    } else if class == 13 {
        (rotation == 3 && side == Side::EAST) || (rotation == 2 && (side == Side::TOP || side
            == Side::BOTTOM || side == Side::SOUTH)) || (rotation == 1 && side == Side::WEST) || (
        rotation == 0 && side == Side::NORTH)
    } else if class == 14 {
        (rotation == 1 && lateral(side)) || (rotation == 2 && side == Side::TOP) || (rotation == 0
            && side == Side::BOTTOM)
    } else if class == 15 {
        (rotation == 3 && side == Side::EAST) || (rotation == 2 && side == Side::NORTH) || (rotation
            == 1 && side == Side::WEST) || (rotation == 0 && (side == Side::SOUTH || side
            == Side::TOP || side == Side::BOTTOM))
    } else {
        false
    }
}

/// Every clause of every class pins the rotation to one of the four
/// quarter turns, so nothing outside `{0, 1, 2, 3}` is ever admitted.
pub proof fn lemma_compatible_needs_valid_rotation(class: int, side: Side, rotation: int)
    ensures
        compatible_rule(class, side, rotation) ==> 0 <= rotation <= 3,
{
}

/// Whether the given hash class admits the observed face, exactly as the
/// rule table says.
pub fn compatible_rotation(generated_type: i128, bface: &BlockFace) -> (r: bool)
    ensures
        r == compatible_rule(generated_type as int, bface.side, bface.rotation as int),
{
    if generated_type == 0 {
        return bface.rotation == 3;
    }
    if generated_type == 1 {
        return (bface.rotation == 3 && (bface.side == Side::TOP || bface.side == Side::SOUTH)) || (
        bface.rotation == 2 && bface.side == Side::WEST) || (bface.rotation == 1 && (bface.side
            == Side::BOTTOM || bface.side == Side::NORTH)) || (bface.rotation == 0 && bface.side
            == Side::EAST);
    }
    if generated_type == 2 {
        return (bface.rotation == 3 && (bface.side == Side::TOP || bface.side == Side::BOTTOM)) || (
        bface.rotation == 1 && bface.side != Side::TOP && bface.side != Side::BOTTOM);
    }
    if generated_type == 3 {
        return (bface.rotation == 3 && (bface.side == Side::BOTTOM || bface.side == Side::SOUTH))
            || (bface.rotation == 2 && bface.side == Side::EAST) || (bface.rotation == 1 && (
        bface.side == Side::TOP || bface.side == Side::NORTH)) || (bface.rotation == 0 && bface.side
            == Side::WEST);
    }
    if generated_type == 4 {
        return (bface.rotation == 3 && bface.side != Side::TOP && bface.side != Side::BOTTOM) || (
        bface.rotation == 2 && bface.side == Side::BOTTOM) || (bface.rotation == 0 && bface.side
            == Side::TOP);
    }
    if generated_type == 5 {
        return (bface.rotation == 3 && bface.side == Side::WEST) || (bface.rotation == 2
            && bface.side == Side::NORTH) || (bface.rotation == 1 && bface.side == Side::EAST) || (
        bface.rotation == 0 && (bface.side == Side::TOP || bface.side == Side::BOTTOM || bface.side
            == Side::SOUTH));
    }
    if generated_type == 6 {
        return (bface.rotation == 1 && bface.side != Side::TOP && bface.side != Side::BOTTOM) || (
        bface.rotation == 2 && bface.side == Side::BOTTOM) || (bface.rotation == 0 && bface.side
            == Side::TOP);
    }
    if generated_type == 7 {
        return (bface.rotation == 3 && bface.side == Side::WEST) || (bface.rotation == 2 && (
        bface.side == Side::SOUTH || bface.side == Side::TOP || bface.side == Side::BOTTOM)) || (
        bface.rotation == 1 && bface.side == Side::EAST) || (bface.rotation == 0 && bface.side
            == Side::NORTH);
    }
    if generated_type == 8 {
        return (bface.rotation == 1 && (bface.side == Side::TOP || bface.side == Side::BOTTOM)) || (
        bface.rotation == 3 && bface.side != Side::TOP && bface.side != Side::BOTTOM);
    }
    if generated_type == 9 {
        return (bface.rotation == 3 && (bface.side == Side::BOTTOM || bface.side == Side::NORTH))
            || (bface.rotation == 2 && bface.side == Side::EAST) || (bface.rotation == 1 && (
        bface.side == Side::TOP || bface.side == Side::SOUTH)) || (bface.rotation == 0 && bface.side
            == Side::WEST);
    }
    if generated_type == 10 {
        return bface.rotation == 1;
    }
    if generated_type == 11 {
        return (bface.rotation == 3 && (bface.side == Side::TOP || bface.side == Side::NORTH)) || (
        bface.rotation == 2 && bface.side == Side::WEST) || (bface.rotation == 1 && (bface.side
            == Side::BOTTOM || bface.side == Side::SOUTH)) || (bface.rotation == 0 && bface.side
            == Side::EAST);
    }
    if generated_type == 12 {
        return (bface.rotation == 3 && bface.side != Side::TOP && bface.side != Side::BOTTOM) || (
        bface.rotation == 2 && bface.side == Side::TOP) || (bface.rotation == 0 && bface.side
            == Side::BOTTOM);
    }
    if generated_type == 13 {
        return (bface.rotation == 3 && bface.side == Side::EAST) || (bface.rotation == 2 && (
        bface.side == Side::TOP || bface.side == Side::BOTTOM || bface.side == Side::SOUTH)) || (
        bface.rotation == 1 && bface.side == Side::WEST) || (bface.rotation == 0 && bface.side
            == Side::NORTH);
    }
    if generated_type == 14 {
        return (bface.rotation == 1 && bface.side != Side::TOP && bface.side != Side::BOTTOM) || (
        bface.rotation == 2 && bface.side == Side::TOP) || (bface.rotation == 0 && bface.side
            == Side::BOTTOM);
    }
    if generated_type == 15 {
        return (bface.rotation == 3 && bface.side == Side::EAST) || (bface.rotation == 2
            && bface.side == Side::NORTH) || (bface.rotation == 1 && bface.side == Side::WEST) || (
        bface.rotation == 0 && (bface.side == Side::SOUTH || bface.side == Side::TOP || bface.side
            == Side::BOTTOM));
    }
    false
}

} // verus!
