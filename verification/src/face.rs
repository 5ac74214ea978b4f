//! The six faces of a cell: their order, their outward normals, and where
//! their four corners lie on the unit cube.

use vstd::prelude::*;

verus! {

/// A face of a cell, named by the direction it looks in: `Right` is `+x`,
/// `Left` is `-x`, `Top` is `+y`, `Bottom` is `-y`, `Front` is `+z` and
/// `Back` is `-z`. Per-face tables are laid out in this order.
#[derive(Copy, Clone, Debug, PartialEq, Eq, Structural, Hash)]
pub enum Face {
    Right,
    Left,
    Top,
    Bottom,
    Front,
    Back,
}

/// The face that stands at position `i` of a per-face table.
pub open spec fn face_at(i: int) -> Face {
    if i == 0 {
        Face::Right
    } else if i == 1 {
        Face::Left
    } else if i == 2 {
        Face::Top
    } else if i == 3 {
        Face::Bottom
    } else if i == 4 {
        Face::Front
    } else {
        Face::Back
    }
}

impl Face {
    /// Position of the face in a per-face table.
    pub open spec fn ordinal(&self) -> usize {
        match self {
            Face::Right => 0,
            Face::Left => 1,
            Face::Top => 2,
            Face::Bottom => 3,
            Face::Front => 4,
            Face::Back => 5,
        }
    }

    /// Position of the face in a per-face table.
    #[verifier::when_used_as_spec(ordinal)]
    pub fn index(&self) -> (i: usize)
        ensures
            i == self.ordinal(),
            i < 6,
            face_at(i as int) == *self,
    {
        match self {
            Face::Right => 0,
            Face::Left => 1,
            Face::Top => 2,
            Face::Bottom => 3,
            Face::Front => 4,
            Face::Back => 5,
        }
    }

    /// The face at position `i` of a per-face table.
    pub fn from_index(i: usize) -> (face: Face)
        requires
            i < 6,
        ensures
            face == face_at(i as int),
            face.ordinal() == i,
    {
        if i == 0 {
            Face::Right
        } else if i == 1 {
            Face::Left
        } else if i == 2 {
            Face::Top
        } else if i == 3 {
            Face::Bottom
        } else if i == 4 {
            Face::Front
        } else {
            Face::Back
        }
    }

    /// The unit step from a cell to the cell that the face looks at.
    pub open spec fn normal(&self) -> (int, int, int) {
        match self {
            Face::Right => (1, 0, 0),
            Face::Left => (-1, 0, 0),
            Face::Top => (0, 1, 0),
            Face::Bottom => (0, -1, 0),
            Face::Front => (0, 0, 1),
            Face::Back => (0, 0, -1),
        }
    }

    /// The unit step from a cell to the cell that the face looks at.
    pub fn offset(&self) -> (n: (i8, i8, i8))
        ensures
            (n.0 as int, n.1 as int, n.2 as int) == self.normal(),
    {
        match self {
            Face::Right => (1, 0, 0),
            Face::Left => (-1, 0, 0),
            Face::Top => (0, 1, 0),
            Face::Bottom => (0, -1, 0),
            Face::Front => (0, 0, 1),
            Face::Back => (0, 0, -1),
        }
    }

    /// The face that looks the other way.
    pub open spec fn opposite(&self) -> Face {
        match self {
            Face::Right => Face::Left,
            Face::Left => Face::Right,
            Face::Top => Face::Bottom,
            Face::Bottom => Face::Top,
            Face::Front => Face::Back,
            Face::Back => Face::Front,
        }
    }
}

/// Where corner `corner` of `face` lies on the unit cube. The four corners
/// of a face run counter-clockwise as seen from outside, starting at the
/// corner that carries texture coordinate `(0, 0)`.
pub open spec fn corner_position(face: Face, corner: int) -> (int, int, int) {
    match face {
        Face::Right => if corner == 0 {
            (1, 0, 1)
        } else if corner == 1 {
            (1, 0, 0)
        } else if corner == 2 {
            (1, 1, 0)
        } else {
            (1, 1, 1)
        },
        Face::Left => if corner == 0 {
            (0, 0, 0)
        } else if corner == 1 {
            (0, 0, 1)
        } else if corner == 2 {
            (0, 1, 1)
        } else {
            (0, 1, 0)
        },
        Face::Top => if corner == 0 {
            (0, 1, 1)
        } else if corner == 1 {
            (1, 1, 1)
        } else if corner == 2 {
            (1, 1, 0)
        } else {
            (0, 1, 0)
        },
        Face::Bottom => if corner == 0 {
            (0, 0, 0)
        } else if corner == 1 {
            (1, 0, 0)
        } else if corner == 2 {
            (1, 0, 1)
        } else {
            (0, 0, 1)
        },
        Face::Front => if corner == 0 {
            (0, 0, 1)
        } else if corner == 1 {
            (1, 0, 1)
        } else if corner == 2 {
            (1, 1, 1)
        } else {
            (0, 1, 1)
        },
        Face::Back => if corner == 0 {
            (1, 0, 0)
        } else if corner == 1 {
            (0, 0, 0)
        } else if corner == 2 {
            (0, 1, 0)
        } else {
            (1, 1, 0)
        },
    }
}

/// Where corner `corner` of `face` lies on the unit cube.
pub fn corner_offset(face: Face, corner: usize) -> (p: (i8, i8, i8))
    requires
        corner < 4,
    ensures
        (p.0 as int, p.1 as int, p.2 as int) == corner_position(face, corner as int),
        0 <= p.0 <= 1,
        0 <= p.1 <= 1,
        0 <= p.2 <= 1,
{
    match face {
        Face::Right => if corner == 0 {
            (1, 0, 1)
        } else if corner == 1 {
            (1, 0, 0)
        } else if corner == 2 {
            (1, 1, 0)
        } else {
            (1, 1, 1)
        },
        Face::Left => if corner == 0 {
            (0, 0, 0)
        } else if corner == 1 {
            (0, 0, 1)
        } else if corner == 2 {
            (0, 1, 1)
        } else {
            (0, 1, 0)
        },
        Face::Top => if corner == 0 {
            (0, 1, 1)
        } else if corner == 1 {
            (1, 1, 1)
        } else if corner == 2 {
            (1, 1, 0)
        } else {
            (0, 1, 0)
        },
        Face::Bottom => if corner == 0 {
            (0, 0, 0)
        } else if corner == 1 {
            (1, 0, 0)
        } else if corner == 2 {
            (1, 0, 1)
        } else {
            (0, 0, 1)
        },
        Face::Front => if corner == 0 {
            (0, 0, 1)
        } else if corner == 1 {
            (1, 0, 1)
        } else if corner == 2 {
            (1, 1, 1)
        } else {
            (0, 1, 1)
        },
        Face::Back => if corner == 0 {
            (1, 0, 0)
        } else if corner == 1 {
            (0, 0, 0)
        } else if corner == 2 {
            (0, 1, 0)
        } else {
            (1, 1, 0)
        },
    }
}

/// Every corner of a face lies in the plane that the face's normal points
/// to: at 1 along the normal's axis for a positive normal, at 0 for a
/// negative one.
pub proof fn lemma_corner_on_face(face: Face, corner: int)
    requires
        0 <= corner < 4,
    ensures
        face.normal().0 != 0 ==> 2 * corner_position(face, corner).0 - 1 == face.normal().0,
        face.normal().1 != 0 ==> 2 * corner_position(face, corner).1 - 1 == face.normal().1,
        face.normal().2 != 0 ==> 2 * corner_position(face, corner).2 - 1 == face.normal().2,
{
}

} // verus!
