use vstd::prelude::*;

verus! {

/// A triangle given by three vertex indices.
pub type Triangle = (u32, u32, u32);

/// The lower-left triangle of grid cell `(i, j)` on a grid whose rows hold `ws`
/// vertices.
pub open spec fn dl_triangle(i: int, j: int, ws: int) -> (int, int, int) {
    ((i + 1) * ws + j, i * ws + j, (i + 1) * ws + j + 1)
}

/// The upper-right triangle of grid cell `(i, j)` on a grid whose rows hold `ws`
/// vertices.
pub open spec fn ur_triangle(i: int, j: int, ws: int) -> (int, int, int) {
    (i * ws + j, i * ws + (j + 1), (i + 1) * ws + j + 1)
}

/// Whether the triangle `t` has the indices `e`.
pub open spec fn triangle_is(t: Triangle, e: (int, int, int)) -> bool {
    t.0 == e.0 && t.1 == e.1 && t.2 == e.2
}

/// The number of vertices of a quad with the given subdivisions.
pub open spec fn quad_vertex_count(wsubdivs: int, hsubdivs: int) -> int {
    (wsubdivs + 1) * (hsubdivs + 1)
}

proof fn lemma_cell_bounds(i: int, j: int, w: int, h: int)
    by (nonlinear_arith)
    requires
        0 <= i < h,
        0 <= j < w,
    ensures
        (i + 1) * (w + 1) + j + 1 < (w + 1) * (h + 1),
        i * (w + 1) + j + 1 < (w + 1) * (h + 1),
        2 * (i * w + j) + 2 <= 2 * h * w,
        i * w + j < h * w,
        (i + 1) * (w + 1) == i * (w + 1) + w + 1,
{
}

/// Whether `t` lists, cell by cell and row by row, the lower-left then the
/// upper-right triangle of each of the `w` x `h` cells of a grid.
pub open spec fn is_quad_triangulation(t: Seq<Triangle>, w: int, h: int) -> bool {
    &&& t.len() == 2 * h * w
    &&& forall|i: int, j: int|
        0 <= i < h && 0 <= j < w ==> {
            &&& triangle_is(#[trigger] t[2 * (i * w + j)], dl_triangle(i, j, w + 1))
            &&& triangle_is(t[2 * (i * w + j) + 1], ur_triangle(i, j, w + 1))
        }
}

/// Whether vertex `v` is one of the four corners of cell `(i, j)` of a grid
/// whose rows hold `w + 1` vertices: the vertex at row `r` and column `c` has
/// index `r * (w + 1) + c`.
pub open spec fn is_corner_of_cell(v: int, i: int, j: int, w: int) -> bool {
    ||| v == i * (w + 1) + j
    ||| v == i * (w + 1) + j + 1
    ||| v == (i + 1) * (w + 1) + j
    ||| v == (i + 1) * (w + 1) + j + 1
}

/// Whether some triangle of `t` has the vertex `v`.
pub open spec fn uses_vertex(t: Seq<Triangle>, v: int) -> bool {
    exists|k: int| 0 <= k < t.len() && (t[k].0 == v || t[k].1 == v || t[k].2 == v)
}

/// The triangulation of a `w` x `h` quad covers its grid exactly: the two
/// triangles of cell `(i, j)` use only the corners of that cell (rows `i`,
/// `i + 1`, columns `j`, `j + 1`), each with three distinct corners and the two
/// together all four; and every vertex of the `(w + 1) * (h + 1)` grid is used
/// by some triangle.
pub proof fn lemma_quad_triangulation_covers_grid(t: Seq<Triangle>, w: int, h: int)
    requires
        w > 0,
        h > 0,
        is_quad_triangulation(t, w, h),
    ensures
        forall|i: int, j: int, k: int|
            0 <= i < h && 0 <= j < w && 0 <= k < 2 ==> {
                let tr = #[trigger] t[2 * (i * w + j) + k];
                &&& is_corner_of_cell(tr.0 as int, i, j, w)
                &&& is_corner_of_cell(tr.1 as int, i, j, w)
                &&& is_corner_of_cell(tr.2 as int, i, j, w)
                &&& tr.0 != tr.1 && tr.1 != tr.2 && tr.0 != tr.2
            },
        forall|v: int| 0 <= v < quad_vertex_count(w, h) ==> #[trigger] uses_vertex(t, v),
{
    assert forall|i: int, j: int, k: int|
        0 <= i < h && 0 <= j < w && 0 <= k < 2 implies {
            let tr = #[trigger] t[2 * (i * w + j) + k];
            &&& is_corner_of_cell(tr.0 as int, i, j, w)
            &&& is_corner_of_cell(tr.1 as int, i, j, w)
            &&& is_corner_of_cell(tr.2 as int, i, j, w)
            &&& tr.0 != tr.1 && tr.1 != tr.2 && tr.0 != tr.2
        } by {
        lemma_cell_bounds(i, j, w, h);
        assert(triangle_is(t[2 * (i * w + j)], dl_triangle(i, j, w + 1)));
        assert(triangle_is(t[2 * (i * w + j) + 1], ur_triangle(i, j, w + 1)));
    }
    assert forall|v: int| 0 <= v < quad_vertex_count(w, h) implies #[trigger] uses_vertex(t, v) by {
        let r = v / (w + 1);
        let c = v % (w + 1);
        assert(v == r * (w + 1) + c && 0 <= c <= w && 0 <= r <= h) by (nonlinear_arith)
            requires
                w > 0,
                h > 0,
                0 <= v < (w + 1) * (h + 1),
                r == v / (w + 1),
                c == v % (w + 1),
        {
            assert(r * (w + 1) <= v);
            if r > h {
                assert(r * (w + 1) >= (h + 1) * (w + 1));
            }
        }
        if r < h && c < w {
            lemma_cell_bounds(r, c, w, h);
            assert(t[2 * (r * w + c)].1 == v);
        } else if r < h {
            lemma_cell_bounds(r, w - 1, w, h);
            assert(triangle_is(t[2 * (r * w + (w - 1))], dl_triangle(r, w - 1, w + 1)));
            assert(t[2 * (r * w + (w - 1)) + 1].1 == v);
        } else if c < w {
            lemma_cell_bounds(h - 1, c, w, h);
            assert((h - 1 + 1) * (w + 1) == h * (w + 1));
            assert(t[2 * ((h - 1) * w + c)].0 == v);
        } else {
            lemma_cell_bounds(h - 1, w - 1, w, h);
            assert(t[2 * ((h - 1) * w + (w - 1))].2 == v);
        }
    }
}

/// The triangles of a double-sided quad subdivided into `wsubdivs` x `hsubdivs`
/// cells, two per cell, cell by cell and row by row: cell `(i, j)` (row `i`,
/// column `j`) gives its lower-left then its upper-right triangle, over a grid of
/// `(wsubdivs + 1) * (hsubdivs + 1)` vertices stored row by row.
pub fn quad_triangles(wsubdivs: u32, hsubdivs: u32) -> (triangles: Vec<Triangle>)
    requires
        wsubdivs > 0 && hsubdivs > 0,
        quad_vertex_count(wsubdivs as int, hsubdivs as int) <= u32::MAX,
    ensures
        is_quad_triangulation(triangles@, wsubdivs as int, hsubdivs as int),
{
    assert(wsubdivs + 1 <= (wsubdivs + 1) * (hsubdivs + 1)) by (nonlinear_arith)
        requires
            hsubdivs > 0,
    ;
    let ws: u32 = wsubdivs + 1;
    let mut triangles: Vec<Triangle> = Vec::new();
    let mut i: u32 = 0;
    while i < hsubdivs
        invariant
            wsubdivs > 0 && hsubdivs > 0,
            quad_vertex_count(wsubdivs as int, hsubdivs as int) <= u32::MAX,
            ws == wsubdivs + 1,
            i <= hsubdivs,
            triangles@.len() == 2 * (i * wsubdivs),
            forall|a: int, b: int|
                0 <= a < i && 0 <= b < wsubdivs ==> {
                    &&& triangle_is(
                        #[trigger] triangles@[2 * (a * wsubdivs + b)],
                        dl_triangle(a, b, wsubdivs + 1),
                    )
                    &&& triangle_is(
                        triangles@[2 * (a * wsubdivs + b) + 1],
                        ur_triangle(a, b, wsubdivs + 1),
                    )
                },
        decreases hsubdivs - i,
    {
        let mut j: u32 = 0;
        while j < wsubdivs
            invariant
                wsubdivs > 0 && hsubdivs > 0,
                quad_vertex_count(wsubdivs as int, hsubdivs as int) <= u32::MAX,
                ws == wsubdivs + 1,
                i < hsubdivs,
                j <= wsubdivs,
                triangles@.len() == 2 * (i * wsubdivs + j),
                forall|a: int, b: int|
                    (0 <= a < i && 0 <= b < wsubdivs) || (a == i && 0 <= b < j) ==> {
                        &&& triangle_is(
                            #[trigger] triangles@[2 * (a * wsubdivs + b)],
                            dl_triangle(a, b, wsubdivs + 1),
                        )
                        &&& triangle_is(
                            triangles@[2 * (a * wsubdivs + b) + 1],
                            ur_triangle(a, b, wsubdivs + 1),
                        )
                    },
            decreases wsubdivs - j,
        {
            proof {
                lemma_cell_bounds(i as int, j as int, wsubdivs as int, hsubdivs as int);
            }
            let row: u32 = i * ws;
            let next_row: u32 = row + ws;
            let ghost before = triangles@;
            triangles.push((next_row + j, row + j, next_row + j + 1));
            triangles.push((row + j, row + (j + 1), next_row + j + 1));
            assert forall|a: int, b: int|
                (0 <= a < i && 0 <= b < wsubdivs) || (a == i && 0 <= b < j + 1) implies {
                    &&& triangle_is(
                        #[trigger] triangles@[2 * (a * wsubdivs + b)],
                        dl_triangle(a, b, wsubdivs + 1),
                    )
                    &&& triangle_is(
                        triangles@[2 * (a * wsubdivs + b) + 1],
                        ur_triangle(a, b, wsubdivs + 1),
                    )
                } by {
                if a == i && b == j {
                } else {
                    if a < i {
                        lemma_cell_bounds(a, b, wsubdivs as int, i as int);
                    } else {
                        assert(a * wsubdivs + b < i * wsubdivs + j);
                    }
                    assert(triangles@[2 * (a * wsubdivs + b)] == before[2 * (a * wsubdivs + b)]);
                    assert(triangles@[2 * (a * wsubdivs + b) + 1] == before[2 * (a * wsubdivs + b) + 1]);
                }
            }
            j = j + 1;
        }
        assert((i + 1) * wsubdivs == i * wsubdivs + wsubdivs) by (nonlinear_arith);
        i = i + 1;
    }
    assert(2 * (hsubdivs * wsubdivs) == 2 * hsubdivs * wsubdivs) by (nonlinear_arith);
    triangles
}

} // verus!
