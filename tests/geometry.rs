use autonomy_control::body::{Corner, FaceColour, RoverBody};
use autonomy_control::grid::{GridPoint, WorldGrid};
use autonomy_control::pixel::rgba_to_bgra_u32;

fn distinct(v: &[u32]) -> Vec<u32> {
    let mut d = v.to_vec();
    d.sort();
    d.dedup();
    d
}

#[test]
fn packs_opaque_red() {
    assert_eq!(rgba_to_bgra_u32(255, 0, 0, 255), 0xFFFF0000);
}

#[test]
fn packs_channels_in_bgra_order() {
    assert_eq!(rgba_to_bgra_u32(0x11, 0x22, 0x33, 0x44), 0x44112233);
    assert_eq!(rgba_to_bgra_u32(0, 0, 0, 255), 0xFF000000);
    assert_eq!(rgba_to_bgra_u32(0, 0, 0, 0), 0);
}

#[test]
fn three_by_three_grid() {
    let (points, lines, zero) = WorldGrid::build((0, 2), (0, 2));
    assert_eq!(points.len(), 9);
    let mut k = 0;
    for y in 0..3 {
        for x in 0..3 {
            assert_eq!(points[k], GridPoint { x, y });
            k += 1;
        }
    }
    assert_eq!(lines.len(), 24);
    assert_eq!(
        lines,
        vec![0, 1, 0, 3, 1, 2, 1, 4, 2, 5, 3, 4, 3, 6, 4, 5, 4, 7, 5, 8, 6, 7, 7, 8]
    );
    assert_eq!(distinct(&zero), vec![0, 1, 2, 3, 6]);
}

#[test]
fn grid_indices_stay_in_range() {
    let (points, lines, zero) = WorldGrid::build((-1, 30), (-1, 15));
    assert_eq!(points.len(), 32 * 17);
    assert_eq!(lines.len(), 2 * (31 * 17 + 32 * 16));
    assert!(lines.iter().all(|&i| (i as usize) < points.len()));
    assert!(zero.iter().all(|&i| (i as usize) < points.len()));
    // the zero column is column 1, the zero row is row 1
    let expected: Vec<u32> = (0..points.len() as u32)
        .filter(|&v| v % 32 == 1 || v / 32 == 1)
        .collect();
    assert_eq!(distinct(&zero), expected);
}

#[test]
fn zero_line_not_found_at_maximum_bound() {
    let (points, _, zero) = WorldGrid::build((-2, 0), (-2, 0));
    assert_eq!(points.len(), 9);
    assert!(zero.is_empty());
    let (_, _, zero) = WorldGrid::build((-2, 0), (-1, 1));
    assert_eq!(distinct(&zero), vec![3, 4, 5]);
}

#[test]
fn inverted_range_gives_empty_grid() {
    let (points, lines, zero) = WorldGrid::build((3, 1), (0, 2));
    assert!(points.is_empty() && lines.is_empty() && zero.is_empty());
    let (points, lines, zero) = WorldGrid::build((0, 2), (5, -5));
    assert!(points.is_empty() && lines.is_empty() && zero.is_empty());
}

#[test]
fn single_point_grid_has_no_lines() {
    let (points, lines, zero) = WorldGrid::build((0, 0), (4, 4));
    assert_eq!(points, vec![GridPoint { x: 0, y: 4 }]);
    assert!(lines.is_empty());
    assert!(zero.is_empty());
}

#[test]
fn grid_vertex_and_fragment_stages() {
    let (positions, _, zero_line_indices) = WorldGrid::build((0, 2), (0, 2));
    let grid = WorldGrid { positions, zero_line_indices };
    assert_eq!(grid.vert(0), (GridPoint { x: 0, y: 0 }, true));
    assert_eq!(grid.vert(4), (GridPoint { x: 1, y: 1 }, false));
    assert_eq!(grid.vert(6), (GridPoint { x: 0, y: 2 }, true));
    assert_eq!(WorldGrid::frag(true), 0xFFFFFFFF);
    assert_eq!(WorldGrid::frag(false), 0xFF646464);
}

#[test]
fn body_corners_follow_bit_pattern() {
    let body = RoverBody::new();
    assert_eq!(body.corners.len(), 8);
    for (c, corner) in body.corners.iter().enumerate() {
        let sign = |bit: usize| if c & bit != 0 { 1 } else { -1 };
        assert_eq!(*corner, Corner { x: sign(4), y: sign(2), z: sign(1) });
    }
}

#[test]
fn face_table_marks_heading_face() {
    let table = RoverBody::face_colours();
    assert_eq!(table.len(), 36);
    for (k, (corner, colour)) in table.iter().enumerate() {
        assert!(*corner < 8);
        if k / 6 == 1 {
            assert_eq!(*colour, FaceColour::Heading);
            assert!(corner & 4 != 0);
        } else {
            assert_eq!(*colour, FaceColour::Neutral);
        }
    }
    let heading: Vec<usize> = table[6..12].iter().map(|e| e.0).collect();
    assert_eq!(heading, vec![7, 4, 6, 5, 4, 7]);
}

#[test]
fn face_table_triangles_wind_outward() {
    let body = RoverBody::new();
    let table = RoverBody::face_colours();
    let pos = |c: usize| {
        let k = body.corners[c];
        [k.x as i32, k.y as i32, k.z as i32]
    };
    for t in 0..12 {
        let (a, b, c) = (pos(table[3 * t].0), pos(table[3 * t + 1].0), pos(table[3 * t + 2].0));
        let u = [b[0] - a[0], b[1] - a[1], b[2] - a[2]];
        let v = [c[0] - a[0], c[1] - a[1], c[2] - a[2]];
        let n = [u[1] * v[2] - u[2] * v[1], u[2] * v[0] - u[0] * v[2], u[0] * v[1] - u[1] * v[0]];
        let face = t / 2;
        let dir = if face % 2 == 0 { -1 } else { 1 };
        assert!(dir * n[face / 2] > 0, "triangle {}", t);
    }
}
