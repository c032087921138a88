//! UV sphere: the triangle list of a sphere that is cut into `stacks` bands
//! from pole to pole and `sectors` slices around the axis.
//!
//! The bands are bounded by the stack lines `0..=stacks`, the slices by the
//! sector lines `0..=sectors`. A vertex of the mesh is the crossing of one
//! stack line with one sector line. The layout names the crossings in the
//! order in which the triangle list holds them; it is the same for every
//! radius.
use vstd::prelude::*;
use vstd::arithmetic::div_mod::lemma_fundamental_div_mod;
use vstd::arithmetic::div_mod::lemma_fundamental_div_mod_converse;
use vstd::arithmetic::div_mod::lemma_mod_bound;
use vstd::arithmetic::mul::lemma_mul_inequality;

verus! {

/// The crossing of a stack line and a sector line.
#[derive(Clone, Copy, Debug, PartialEq, Eq, Structural)]
pub struct GridVertex {
    pub stack: i32,
    pub sector: i32,
}

/// The stack line of the `k`-th vertex of a cell in band `i`.
///
/// With the upper corners `v1`, `v2` and the lower corners `v3`, `v4` of the
/// cell, its six vertices are `v1 v3 v2` and `v2 v3 v4`.
pub open spec fn corner_stack(i: int, k: int) -> int {
    if k == 0 || k == 2 || k == 3 {
        i
    } else {
        i + 1
    }
}

/// The sector line of the `k`-th vertex of a cell in slice `j`.
pub open spec fn corner_sector(j: int, k: int) -> int {
    if k == 0 || k == 1 || k == 4 {
        j
    } else {
        j + 1
    }
}

/// The `n`-th vertex of the list of a sphere with `sectors` slices. The
/// cells come band by band, and within a band slice by slice.
pub open spec fn vertex_at(sectors: int, n: int) -> GridVertex {
    let cell = n / 6;
    GridVertex {
        stack: corner_stack(cell / sectors, n % 6) as i32,
        sector: corner_sector(cell % sectors, n % 6) as i32,
    }
}

/// How many vertices the list of the sphere holds: six for each cell, and
/// none where there is no band or no slice.
pub open spec fn sphere_len(sectors: int, stacks: int) -> nat {
    if sectors <= 0 || stacks <= 0 {
        0
    } else {
        (sectors * stacks * 6) as nat
    }
}

/// The triangle list of the sphere, three vertices to a triangle.
pub open spec fn sphere_vertices(sectors: int, stacks: int) -> Seq<GridVertex> {
    Seq::new(sphere_len(sectors, stacks), |n: int| vertex_at(sectors, n))
}

/// The `k`-th vertex of the cell in band `i` and slice `j` stands at place
/// `(i * sectors + j) * 6 + k` of the list and lies on the lines that
/// `corner_stack` and `corner_sector` give.
pub proof fn lemma_cell_vertex(sectors: int, stacks: int, i: int, j: int, k: int)
    requires
        0 <= i < stacks <= i32::MAX,
        0 <= j < sectors <= i32::MAX,
        0 <= k < 6,
    ensures
        0 <= (i * sectors + j) * 6 + k < sphere_len(sectors, stacks),
        sphere_vertices(sectors, stacks)[(i * sectors + j) * 6 + k] == (GridVertex {
            stack: corner_stack(i, k) as i32,
            sector: corner_sector(j, k) as i32,
        }),
        0 <= corner_stack(i, k) <= stacks,
        0 <= corner_sector(j, k) <= sectors,
{
    let cell = i * sectors + j;
    let n = cell * 6 + k;
    assert(0 <= cell < sectors * stacks) by {
        lemma_mul_inequality(i + 1, stacks, sectors);
        assert(i * sectors >= 0) by (nonlinear_arith)
            requires
                i >= 0,
                sectors > 0,
        ;
        assert((i + 1) * sectors == i * sectors + sectors) by (nonlinear_arith);
        assert(stacks * sectors == sectors * stacks) by (nonlinear_arith);
    }
    lemma_fundamental_div_mod_converse(n, 6, cell, k);
    lemma_fundamental_div_mod_converse(cell, sectors, i, j);
}

/// Every place `n` of the list belongs to one cell: it is the `n % 6`-th
/// vertex of the cell in band `n / 6 / sectors` and slice `n / 6 % sectors`,
/// and it lies on lines of the grid.
pub proof fn lemma_vertex_cell(sectors: int, stacks: int, n: int)
    requires
        0 < sectors <= i32::MAX,
        0 < stacks <= i32::MAX,
        0 <= n < sphere_len(sectors, stacks),
    ensures
        0 <= n / 6 / sectors < stacks,
        0 <= n / 6 % sectors < sectors,
        n == (n / 6 / sectors * sectors + n / 6 % sectors) * 6 + n % 6,
        0 <= sphere_vertices(sectors, stacks)[n].stack <= stacks,
        0 <= sphere_vertices(sectors, stacks)[n].sector <= sectors,
{
    let cell = n / 6;
    let i = cell / sectors;
    let j = cell % sectors;
    lemma_fundamental_div_mod(cell, sectors);
    lemma_mod_bound(cell, sectors);
    assert(cell < sectors * stacks);
    assert(0 <= i < stacks) by (nonlinear_arith)
        requires
            cell == sectors * i + j,
            0 <= j < sectors,
            0 <= cell < sectors * stacks,
    ;
    assert(sectors * i == i * sectors) by (nonlinear_arith);
    lemma_cell_vertex(sectors, stacks, i, j, n % 6);
}

/// The two triangles of a cell: the first runs over the corners `v1 v3 v2`,
/// the second over `v2 v3 v4`, so they meet in the edge from `v2` to `v3`,
/// and the three corners of each are three different crossings.
pub proof fn lemma_cell_triangles(sectors: int, stacks: int, i: int, j: int)
    requires
        0 <= i < stacks <= i32::MAX,
        0 <= j < sectors <= i32::MAX,
    ensures
        ({
            let s = sphere_vertices(sectors, stacks);
            let b = (i * sectors + j) * 6;
            let v1 = GridVertex { stack: i as i32, sector: j as i32 };
            let v2 = GridVertex { stack: i as i32, sector: (j + 1) as i32 };
            let v3 = GridVertex { stack: (i + 1) as i32, sector: j as i32 };
            let v4 = GridVertex { stack: (i + 1) as i32, sector: (j + 1) as i32 };
            &&& 0 <= b
            &&& b + 6 <= s.len()
            &&& s.subrange(b, b + 6) == seq![v1, v3, v2, v2, v3, v4]
            &&& v1 != v2 && v1 != v3 && v2 != v3 && v2 != v4 && v3 != v4
        }),
{
    let s = sphere_vertices(sectors, stacks);
    let b = (i * sectors + j) * 6;
    lemma_cell_vertex(sectors, stacks, i, j, 0);
    lemma_cell_vertex(sectors, stacks, i, j, 1);
    lemma_cell_vertex(sectors, stacks, i, j, 2);
    lemma_cell_vertex(sectors, stacks, i, j, 3);
    lemma_cell_vertex(sectors, stacks, i, j, 4);
    lemma_cell_vertex(sectors, stacks, i, j, 5);
    let v1 = GridVertex { stack: i as i32, sector: j as i32 };
    let v2 = GridVertex { stack: i as i32, sector: (j + 1) as i32 };
    let v3 = GridVertex { stack: (i + 1) as i32, sector: j as i32 };
    let v4 = GridVertex { stack: (i + 1) as i32, sector: (j + 1) as i32 };
    assert(s.subrange(b, b + 6) =~= seq![v1, v3, v2, v2, v3, v4]);
}

/// The list leaves no crossing of the grid out: each stack line from `0` to
/// `stacks` meets each sector line from `0` to `sectors` in a vertex of it.
pub proof fn lemma_every_crossing_occurs(sectors: int, stacks: int, stack: int, sector: int)
    requires
        0 < sectors <= i32::MAX,
        0 < stacks <= i32::MAX,
        0 <= stack <= stacks,
        0 <= sector <= sectors,
    ensures
        sphere_vertices(sectors, stacks).contains(
            GridVertex { stack: stack as i32, sector: sector as i32 },
        ),
{
    let i = if stack < stacks { stack } else { stack - 1 };
    let j = if sector < sectors { sector } else { sector - 1 };
    let k: int = if stack == i {
        if sector == j { 0 } else { 2 }
    } else {
        if sector == j { 1 } else { 5 }
    };
    lemma_cell_vertex(sectors, stacks, i, j, k);
}

/// A sphere with at least one slice and one band has `sectors * stacks * 6`
/// vertices. With three scalars to a vertex its positions fill
/// `sectors * stacks * 18` scalars, a whole number of triangles of nine.
pub proof fn lemma_sphere_size(sectors: int, stacks: int)
    requires
        sectors > 0,
        stacks > 0,
    ensures
        sphere_vertices(sectors, stacks).len() == sectors * stacks * 6,
        sphere_vertices(sectors, stacks).len() % 3 == 0,
        3 * sphere_vertices(sectors, stacks).len() == sectors * stacks * 18,
        (3 * sphere_vertices(sectors, stacks).len()) % 9 == 0,
{
    assert(sectors * stacks > 0) by (nonlinear_arith)
        requires
            sectors > 0,
            stacks > 0,
    ;
}

/// Lays out the triangle list of a sphere with `sectors` slices and `stacks`
/// bands. Without a slice or without a band the sphere has no cell, and the
/// list is empty.
pub fn generate_sphere(sectors: i32, stacks: i32) -> (vertices: Vec<GridVertex>)
    ensures
        vertices@ == sphere_vertices(sectors as int, stacks as int),
        sectors > 0 && stacks > 0 ==> vertices@.len() == sectors * stacks * 6,
        sectors <= 0 || stacks <= 0 ==> vertices@.len() == 0,
{
    let mut vertices: Vec<GridVertex> = Vec::new();
    if sectors <= 0 || stacks <= 0 {
        return vertices;
    }
    let mut i: i32 = 0;
    while i < stacks
        invariant
            0 <= i <= stacks,
            0 < sectors,
            vertices@.len() == i * sectors * 6,
            forall|n: int|
                0 <= n < vertices@.len() ==> #[trigger] vertices@[n] == vertex_at(
                    sectors as int,
                    n,
                ),
        decreases stacks - i,
    {
        let mut j: i32 = 0;
        while j < sectors
            invariant
                0 <= i < stacks,
                0 <= j <= sectors,
                vertices@.len() == (i * sectors + j) * 6,
                forall|n: int|
                    0 <= n < vertices@.len() ==> #[trigger] vertices@[n] == vertex_at(
                        sectors as int,
                        n,
                    ),
            decreases sectors - j,
        {
            proof {
                lemma_cell_vertex(sectors as int, stacks as int, i as int, j as int, 0);
                lemma_cell_vertex(sectors as int, stacks as int, i as int, j as int, 1);
                lemma_cell_vertex(sectors as int, stacks as int, i as int, j as int, 2);
                lemma_cell_vertex(sectors as int, stacks as int, i as int, j as int, 3);
                lemma_cell_vertex(sectors as int, stacks as int, i as int, j as int, 4);
                lemma_cell_vertex(sectors as int, stacks as int, i as int, j as int, 5);
            }
            let v1 = GridVertex { stack: i, sector: j };
            let v2 = GridVertex { stack: i, sector: j + 1 };
            let v3 = GridVertex { stack: i + 1, sector: j };
            let v4 = GridVertex { stack: i + 1, sector: j + 1 };

            vertices.push(v1);
            vertices.push(v3);
            vertices.push(v2);

            vertices.push(v2);
            vertices.push(v3);
            vertices.push(v4);

            j = j + 1;
            assert(vertices@.len() == (i * sectors + j) * 6) by (nonlinear_arith)
                requires
                    vertices@.len() == (i * sectors + (j - 1)) * 6 + 6,
            ;
        }
        i = i + 1;
        assert(vertices@.len() == i * sectors * 6) by (nonlinear_arith)
            requires
                vertices@.len() == ((i - 1) * sectors + sectors) * 6,
        ;
    }
    assert(vertices@.len() == sectors * stacks * 6) by (nonlinear_arith)
        requires
            vertices@.len() == stacks * sectors * 6,
    ;
    assert(vertices@ =~= sphere_vertices(sectors as int, stacks as int));
    vertices
}

} // verus!
