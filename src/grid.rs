use vstd::prelude::*;
use vstd::arithmetic::div_mod::lemma_fundamental_div_mod_converse;
use crate::pixel::{bgra_word, rgba_to_bgra_u32};

verus! {

/// A lattice point of the reference grid, which lies in the plane z = 0.
#[derive(Clone, Copy, Debug, PartialEq, Eq, Structural)]
pub struct GridPoint {
    pub x: i32,
    pub y: i32,
}

/// Number of integers in the inclusive range `r`; an inverted range holds none.
pub open spec fn span(r: (i32, i32)) -> nat {
    if r.0 <= r.1 {
        (r.1 - r.0 + 1) as nat
    } else {
        0
    }
}

/// Position of the value 0 in the half-open range `[r.0, r.1)`, if it lies there.
pub open spec fn zero_offset(r: (i32, i32)) -> Option<nat> {
    if r.0 <= 0 && 0 < r.1 {
        Some((0 - r.0) as nat)
    } else {
        None
    }
}

/// The lattice point at row-major offset `v` of the grid over the two ranges.
pub open spec fn grid_point(x_range: (i32, i32), y_range: (i32, i32), v: nat) -> GridPoint {
    let w = span(x_range);
    GridPoint { x: (x_range.0 + v % w) as i32, y: (y_range.0 + v / w) as i32 }
}

/// The segments that vertex `v` of a `w` by `h` lattice starts, as index pairs:
/// first to its right neighbour, then to its neighbour in the next row.
pub open spec fn vertex_segments(w: nat, h: nat, v: nat) -> Seq<u32> {
    let right = if v % w + 1 < w {
        seq![v as u32, (v + 1) as u32]
    } else {
        Seq::empty()
    };
    let down = if v / w + 1 < h {
        seq![v as u32, (v + w) as u32]
    } else {
        Seq::empty()
    };
    right + down
}

/// The segment index list of the first `n` vertices, in vertex order.
pub open spec fn segments_upto(w: nat, h: nat, n: nat) -> Seq<u32>
    decreases n,
{
    if n == 0 {
        Seq::empty()
    } else {
        segments_upto(w, h, (n - 1) as nat) + vertex_segments(w, h, (n - 1) as nat)
    }
}

/// The zero-line marks that vertex `v` adds: once if its column is the zero
/// column, once more if its row is the zero row.
pub open spec fn vertex_marks(w: nat, zx: Option<nat>, zy: Option<nat>, v: nat) -> Seq<u32> {
    let by_column = if zx == Some(v % w) {
        seq![v as u32]
    } else {
        Seq::empty()
    };
    let by_row = if zy == Some(v / w) {
        seq![v as u32]
    } else {
        Seq::empty()
    };
    by_column + by_row
}

/// The zero-line marks of the first `n` vertices, in vertex order.
pub open spec fn marks_upto(w: nat, zx: Option<nat>, zy: Option<nat>, n: nat) -> Seq<u32>
    decreases n,
{
    if n == 0 {
        Seq::empty()
    } else {
        marks_upto(w, zx, zy, (n - 1) as nat) + vertex_marks(w, zx, zy, (n - 1) as nat)
    }
}

/// Number of segments in a `w` by `h` lattice: `w - 1` in each of the `h`
/// rows and `h - 1` in each of the `w` columns.
pub open spec fn segment_count(w: nat, h: nat) -> int {
    (w - 1) * h + w * (h - 1)
}

/// Whether vertex `v` lies on the zero column or the zero row.
pub open spec fn on_zero_line(w: nat, zx: Option<nat>, zy: Option<nat>, v: nat) -> bool {
    zx == Some(v % w) || zy == Some(v / w)
}

proof fn lemma_row_col(v: nat, w: nat, i: nat, j: nat)
    requires
        w > 0,
        j < w,
        v == i * w + j,
    ensures
        v / w == i,
        v % w == j,
{
    lemma_fundamental_div_mod_converse(v as int, w as int, i as int, j as int);
}

/// The ground-reference grid: its lattice points and the indices of the
/// points on the zero lines, which the line stage draws in a brighter colour.
pub struct WorldGrid {
    pub positions: Vec<GridPoint>,
    pub zero_line_indices: Vec<u32>,
}

impl WorldGrid {
    /// Generates the grid over the inclusive ranges `x_range` and `y_range`:
    /// every lattice point in row-major order (rows along y, columns along x),
    /// the line list joining each point to its right neighbour and to its
    /// neighbour in the next row, and the zero-line marks. The zero column and
    /// row are searched in the half-open ranges `[min, max)`, so a range whose
    /// maximum is 0 marks none. An inverted range gives an empty grid.
    pub fn build(x_range: (i32, i32), y_range: (i32, i32)) -> (r: (Vec<GridPoint>, Vec<u32>, Vec<u32>))
        requires
            span(x_range) * span(y_range) <= u32::MAX,
        ensures
            r.0@.len() == span(x_range) * span(y_range),
            forall|v: int| 0 <= v < r.0@.len() ==> r.0@[v] == grid_point(x_range, y_range, v as nat),
            r.1@ == segments_upto(span(x_range), span(y_range), r.0@.len()),
            forall|k: int| 0 <= k < r.1@.len() ==> r.1@[k] < r.0@.len(),
            r.0@.len() > 0 ==> r.1@.len() == 2 * segment_count(span(x_range), span(y_range)),
            r.2@ == marks_upto(span(x_range), zero_offset(x_range), zero_offset(y_range), r.0@.len()),
            forall|u: u32|
                r.2@.contains(u) <==> u < r.0@.len() && on_zero_line(
                    span(x_range),
                    zero_offset(x_range),
                    zero_offset(y_range),
                    u as nat,
                ),
    {
        let w: u64 = if x_range.0 <= x_range.1 {
            (x_range.1 as i64 - x_range.0 as i64 + 1) as u64
        } else {
            0
        };
        let h: u64 = if y_range.0 <= y_range.1 {
            (y_range.1 as i64 - y_range.0 as i64 + 1) as u64
        } else {
            0
        };
        let zero_x: Option<u64> = if x_range.0 <= 0 && 0 < x_range.1 {
            Some((0 - x_range.0 as i64) as u64)
        } else {
            None
        };
        let zero_y: Option<u64> = if y_range.0 <= 0 && 0 < y_range.1 {
            Some((0 - y_range.0 as i64) as u64)
        } else {
            None
        };
        let ghost gw = span(x_range);
        let ghost gh = span(y_range);
        let ghost zx = zero_offset(x_range);
        let ghost zy = zero_offset(y_range);
        assert(zero_x matches Some(z) ==> zx == Some(z as nat));
        assert(zero_x is None ==> zx is None);
        assert(zero_y matches Some(z) ==> zy == Some(z as nat));
        assert(zero_y is None ==> zy is None);
        assert(w * h <= u32::MAX) by (nonlinear_arith)
            requires
                w == gw,
                h == gh,
                gw * gh <= u32::MAX,
        ;
        let n: u64 = w * h;

        let mut positions: Vec<GridPoint> = Vec::new();
        let mut lines: Vec<u32> = Vec::new();
        let mut marks: Vec<u32> = Vec::new();
        let mut v: u64 = 0;
        let mut i: u64 = 0;
        let mut j: u64 = 0;
        while v < n
            invariant
                gw == span(x_range),
                gh == span(y_range),
                zx == zero_offset(x_range),
                zy == zero_offset(y_range),
                w == gw,
                h == gh,
                n == w * h,
                n <= u32::MAX,
                zero_x matches Some(z) ==> zx == Some(z as nat),
                zero_x is None ==> zx is None,
                zero_y matches Some(z) ==> zy == Some(z as nat),
                zero_y is None ==> zy is None,
                v <= n,
                v == i * w + j,
                v < n ==> j < w && i < h,
                n > 0 ==> j < w,
                n > 0 ==> lines@.len() == 2 * (i * (w - 1) + j) + 2 * (if i + 1 < h {
                    i * w + j
                } else {
                    (h - 1) * w
                }),
                positions@.len() == v,
                forall|k: int| 0 <= k < v ==> positions@[k] == grid_point(x_range, y_range, k as nat),
                lines@ == segments_upto(gw, gh, v as nat),
                forall|k: int| 0 <= k < lines@.len() ==> lines@[k] < n,
                marks@ == marks_upto(gw, zx, zy, v as nat),
                forall|u: u32| marks@.contains(u) <==> u < v && on_zero_line(gw, zx, zy, u as nat),
            decreases n - v,
        {
            proof {
                lemma_row_col(v as nat, w as nat, i as nat, j as nat);
                assert(x_range.0 + j <= x_range.1);
                assert(y_range.0 + i <= y_range.1);
            }
            positions.push(GridPoint {
                x: (x_range.0 as i64 + j as i64) as i32,
                y: (y_range.0 as i64 + i as i64) as i32,
            });
            let ghost before = lines@;
            if j + 1 < w {
                proof {
                    assert(i * w + j + 1 < h * w) by (nonlinear_arith)
                        requires
                            j + 1 < w,
                            i < h,
                    ;
                }
                lines.push(v as u32);
                lines.push((v + 1) as u32);
            }
            if i + 1 < h {
                proof {
                    assert((i + 1) * w + j < h * w) by (nonlinear_arith)
                        requires
                            j < w,
                            i + 1 < h,
                    ;
                    assert((i + 1) * w + j == v + w) by (nonlinear_arith)
                        requires
                            v == i * w + j,
                    ;
                }
                lines.push(v as u32);
                lines.push((v + w) as u32);
            }
            assert(lines@ =~= before + vertex_segments(gw, gh, v as nat));
            assert forall|k: int| 0 <= k < lines@.len() implies lines@[k] < n by {
                if k >= before.len() {
                    let seg = vertex_segments(gw, gh, v as nat);
                    assert(lines@[k] == seg[k - before.len()]);
                    assert(forall|d: int| 0 <= d < seg.len() ==> seg[d] == v || seg[d] == v + 1 || seg[d] == v + w);
                    assert(j + 1 < w ==> v + 1 < n);
                    assert(i + 1 < h ==> v + w < n);
                }
            }
            let ghost marks_before = marks@;
            if let Some(z) = zero_x {
                if z == j {
                    marks.push(v as u32);
                }
            }
            if let Some(z) = zero_y {
                if z == i {
                    marks.push(v as u32);
                }
            }
            assert(marks@ =~= marks_before + vertex_marks(gw, zx, zy, v as nat));
            assert forall|u: u32| marks@.contains(u) <==> u < v + 1 && on_zero_line(gw, zx, zy, u as nat) by {
                if marks@.contains(u) {
                    let k = choose|k: int| 0 <= k < marks@.len() && marks@[k] == u;
                    if k >= marks_before.len() {
                        assert(u == v);
                    } else {
                        assert(marks_before.contains(u));
                    }
                }
                if u < v + 1 && on_zero_line(gw, zx, zy, u as nat) {
                    if u < v {
                        assert(marks_before.contains(u));
                        let k = choose|k: int| 0 <= k < marks_before.len() && marks_before[k] == u;
                        assert(marks@[k] == u);
                    } else {
                        assert(marks@[marks_before.len() as int] == u);
                    }
                }
            }
            v = v + 1;
            j = j + 1;
            if j == w {
                proof {
                    assert(v == (i + 1) * w) by (nonlinear_arith)
                        requires
                            v == i * w + j,
                            j == w,
                    ;
                    assert(i * (w - 1) + (w - 1) == (i + 1) * (w - 1)) by (nonlinear_arith);
                    assert(i * w + w == (i + 1) * w) by (nonlinear_arith);
                }
                j = 0;
                i = i + 1;
            }
            proof {
                if v < n {
                    assert(i < h) by (nonlinear_arith)
                        requires
                            v == i * w + j,
                            v < n,
                            n == w * h,
                    ;
                }
            }
        }
        proof {
            if n > 0 {
                lemma_row_col(n as nat, w as nat, i as nat, j as nat);
                assert(n == h * w + 0) by (nonlinear_arith)
                    requires
                        n == w * h,
                ;
                lemma_row_col(n as nat, w as nat, h as nat, 0);
                assert(h * (w - 1) + (h - 1) * w == segment_count(gw, gh)) by (nonlinear_arith)
                    requires
                        w == gw,
                        h == gh,
                ;
            }
        }
        (positions, lines, marks)
    }
    /// What the line stage reads of grid vertex `index`: its lattice point,
    /// and whether it is marked as lying on a zero line.
    pub fn vert(&self, index: u32) -> (r: (GridPoint, bool))
        requires
            index < self.positions@.len(),
        ensures
            r.0 == self.positions@[index as int],
            r.1 == self.zero_line_indices@.contains(index),
    {
        let mut on_zero_line = false;
        let mut k: usize = 0;
        while k < self.zero_line_indices.len()
            invariant
                k <= self.zero_line_indices@.len(),
                on_zero_line == self.zero_line_indices@.subrange(0, k as int).contains(index),
            decreases self.zero_line_indices@.len() - k,
        {
            let ghost seen = self.zero_line_indices@.subrange(0, k as int);
            assert(self.zero_line_indices@.subrange(0, k + 1) =~= seen.push(self.zero_line_indices@[k as int]));
            let ghost next = self.zero_line_indices@.subrange(0, k + 1);
            if self.zero_line_indices[k] == index {
                on_zero_line = true;
                assert(next[k as int] == index);
            } else {
                assert(next.contains(index) ==> seen.contains(index)) by {
                    if next.contains(index) {
                        let j = choose|j: int| 0 <= j < next.len() && next[j] == index;
                        assert(seen[j] == index);
                    }
                }
                assert(seen.contains(index) ==> next.contains(index)) by {
                    if seen.contains(index) {
                        let j = choose|j: int| 0 <= j < seen.len() && seen[j] == index;
                        assert(next[j] == index);
                    }
                }
            }
            k = k + 1;
        }
        assert(self.zero_line_indices@.subrange(0, k as int) =~= self.zero_line_indices@);
        (self.positions[index as usize], on_zero_line)
    }

    /// The colour of a grid pixel: white on a zero line, grey elsewhere.
    pub fn frag(on_zero_line: bool) -> (r: u32)
        ensures
            r == (if on_zero_line {
                bgra_word(255, 255, 255, 255)
            } else {
                bgra_word(100, 100, 100, 255)
            }),
    {
        if on_zero_line {
            rgba_to_bgra_u32(255, 255, 255, 255)
        } else {
            rgba_to_bgra_u32(100, 100, 100, 255)
        }
    }
}

} // verus!
