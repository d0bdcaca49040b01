use vstd::prelude::*;

verus! {

/// A corner of the body's box, as the sign (-1 or +1) of each coordinate;
/// the vertex stage scales it by the half extents.
#[derive(Clone, Copy, Debug, PartialEq, Eq, Structural)]
pub struct Corner {
    pub x: i8,
    pub y: i8,
    pub z: i8,
}

/// The base colour of one face of the body.
#[derive(Clone, Copy, Debug, PartialEq, Eq, Structural)]
pub enum FaceColour {
    /// The neutral grey of every face but the heading face, with alpha 0.
    Neutral,
    /// The warning red of the face that looks along +x, the heading.
    Heading,
}

/// The sign of corner `c` along `axis` (0 = x, 1 = y, 2 = z): bit 2 of the
/// corner index selects +x, bit 1 selects +y and bit 0 selects +z.
pub open spec fn corner_sign(c: int, axis: int) -> int {
    let bit = if axis == 0 {
        c / 4 % 2
    } else if axis == 1 {
        c / 2 % 2
    } else {
        c % 2
    };
    if bit == 1 {
        1
    } else {
        -1
    }
}

pub open spec fn corner_of(c: int) -> Corner {
    Corner { x: corner_sign(c, 0) as i8, y: corner_sign(c, 1) as i8, z: corner_sign(c, 2) as i8 }
}

/// The axis that face `f` is normal to; the faces are ordered
/// -x, +x, -y, +y, -z, +z.
pub open spec fn face_axis(f: int) -> int {
    f / 2
}

/// The direction (-1 or +1) of face `f` along its axis.
pub open spec fn face_direction(f: int) -> int {
    if f % 2 == 0 {
        -1
    } else {
        1
    }
}

/// Component `q x r` of the cross product `(b - a) x (c - a)` of three
/// corners, for the axes `p`, `q`, `r` in cyclic order.
pub open spec fn cross_part(a: int, b: int, c: int, q: int, r: int) -> int {
    (corner_sign(b, q) - corner_sign(a, q)) * (corner_sign(c, r) - corner_sign(a, r)) - (
    corner_sign(b, r) - corner_sign(a, r)) * (corner_sign(c, q) - corner_sign(a, q))
}

/// Component `axis` of the cross product `(b - a) x (c - a)` of three corners.
pub open spec fn cross_component(a: int, b: int, c: int, axis: int) -> int {
    if axis == 0 {
        cross_part(a, b, c, 1, 2)
    } else if axis == 1 {
        cross_part(a, b, c, 2, 0)
    } else {
        cross_part(a, b, c, 0, 1)
    }
}

/// The triangle `a, b, c` winds counter-clockwise seen from outside face `f`:
/// its normal points out of the box through that face.
pub open spec fn winds_outward(a: int, b: int, c: int, f: int) -> bool {
    face_direction(f) * cross_component(a, b, c, face_axis(f)) > 0
}

/// Triangle `t` of a face table (entries `3t` to `3t + 2`) winds outward
/// through face `t / 2`.
pub open spec fn triangle_winds_outward(table: Seq<(usize, FaceColour)>, t: int) -> bool {
    winds_outward(table[3 * t].0 as int, table[3 * t + 1].0 as int, table[3 * t + 2].0 as int, t / 2)
}

/// The colour of face `f`: the +x face shows the heading.
pub open spec fn face_colour(f: int) -> FaceColour {
    if f == 1 {
        FaceColour::Heading
    } else {
        FaceColour::Neutral
    }
}

/// The body drawn for the vehicle: the 8 corners of a box centred at the
/// origin, in the fixed order of `corner_sign`.
pub struct RoverBody {
    pub corners: Vec<Corner>,
}

impl RoverBody {
    /// The body's corners, corner `c` having the signs `corner_of(c)`.
    pub fn new() -> (r: RoverBody)
        ensures
            r.corners@.len() == 8,
            forall|c: int| 0 <= c < 8 ==> r.corners@[c] == corner_of(c),
    {
        let corners = vec![
            Corner { x: -1, y: -1, z: -1 },
            Corner { x: -1, y: -1, z: 1 },
            Corner { x: -1, y: 1, z: -1 },
            Corner { x: -1, y: 1, z: 1 },
            Corner { x: 1, y: -1, z: -1 },
            Corner { x: 1, y: -1, z: 1 },
            Corner { x: 1, y: 1, z: -1 },
            Corner { x: 1, y: 1, z: 1 },
        ];
        assert(forall|c: int| 0 <= c < 8 ==> corners@[c] == corner_of(c)) by {
            assert forall|c: int| 0 <= c < 8 implies corners@[c] == corner_of(c) by {
                assert(c == 0 || c == 1 || c == 2 || c == 3 || c == 4 || c == 5 || c == 6 || c == 7);
            }
        }
        RoverBody { corners }
    }

    /// The face colour table: 12 triangles of 3 (corner, colour) entries,
    /// two triangles for each face in the order -x, +x, -y, +y, -z, +z.
    /// Every triangle lies on its face and winds counter-clockwise seen from
    /// outside the box, and each face has one colour, the heading colour on +x.
    pub fn face_colours() -> (r: Vec<(usize, FaceColour)>)
        ensures
            r@.len() == 36,
            forall|k: int|
                0 <= k < 36 ==> r@[k].0 < 8 && corner_sign(r@[k].0 as int, face_axis(k / 6))
                    == face_direction(k / 6) && r@[k].1 == face_colour(k / 6),
            forall|t: int| 0 <= t < 12 ==> #[trigger] triangle_winds_outward(r@, t),
    {
        let neutral = FaceColour::Neutral;
        let heading = FaceColour::Heading;
        let r: Vec<(usize, FaceColour)> = vec![
            // -x
            (0, neutral), (3, neutral), (2, neutral),
            (0, neutral), (1, neutral), (3, neutral),
            // +x
            (7, heading), (4, heading), (6, heading),
            (5, heading), (4, heading), (7, heading),
            // -y
            (5, neutral), (0, neutral), (4, neutral),
            (1, neutral), (0, neutral), (5, neutral),
            // +y
            (2, neutral), (7, neutral), (6, neutral),
            (2, neutral), (3, neutral), (7, neutral),
            // -z
            (0, neutral), (6, neutral), (4, neutral),
            (0, neutral), (2, neutral), (6, neutral),
            // +z
            (7, neutral), (1, neutral), (5, neutral),
            (3, neutral), (1, neutral), (7, neutral),
        ];
        assert forall|k: int| 0 <= k < 36 implies r@[k].0 < 8 && corner_sign(r@[k].0 as int, face_axis(k / 6))
            == face_direction(k / 6) && r@[k].1 == face_colour(k / 6) by {
            assert(k == 0 || k == 1 || k == 2 || k == 3 || k == 4 || k == 5 || k == 6 || k == 7 || k == 8 || k == 9 || k == 10 || k == 11 || k == 12 || k == 13 || k == 14 || k == 15 || k == 16 || k == 17 || k == 18 || k == 19 || k == 20 || k == 21 || k == 22 || k == 23 || k == 24 || k == 25 || k == 26 || k == 27 || k == 28 || k == 29 || k == 30 || k == 31 || k == 32 || k == 33 || k == 34 || k == 35);
        }
        assert(winds_outward(0, 3, 2, 0));
        assert(winds_outward(0, 1, 3, 0));
        assert(winds_outward(7, 4, 6, 1));
        assert(winds_outward(5, 4, 7, 1));
        assert(winds_outward(5, 0, 4, 2));
        assert(winds_outward(1, 0, 5, 2));
        assert(winds_outward(2, 7, 6, 3));
        assert(winds_outward(2, 3, 7, 3));
        assert(winds_outward(0, 6, 4, 4));
        assert(winds_outward(0, 2, 6, 4));
        assert(winds_outward(7, 1, 5, 5));
        assert(winds_outward(3, 1, 7, 5));
        assert forall|t: int| 0 <= t < 12 implies #[trigger] triangle_winds_outward(r@, t) by {
            assert(t == 0 || t == 1 || t == 2 || t == 3 || t == 4 || t == 5 || t == 6 || t == 7 || t == 8 || t == 9 || t == 10 || t == 11);
        }
        r
    }
}

} // verus!
