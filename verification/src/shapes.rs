//! Index buffers of the built-in primitive shapes.
//!
//! A mesh is a list of vertices and a list of indices into it, three per
//! triangle. The vertex positions are floating-point data and are produced by
//! the renderer; which vertex each triangle uses is pure integer logic and is
//! fixed here.
use vstd::prelude::*;

verus! {

/// The integer type of one entry of an index buffer.
pub type MeshIndex = u32;

/// Factory of the built-in primitive meshes.
pub struct Shapes;

/// The triangles of a box: two per face, six faces, each face made of four
/// vertices of its own (so 24 vertices in all).
pub open spec fn box_index_seq() -> Seq<MeshIndex> {
    seq![
        0, 1, 2, 2, 3, 0,
        4, 5, 6, 6, 7, 4,
        8, 9, 10, 10, 11, 8,
        12, 13, 14, 14, 15, 12,
        16, 17, 18, 18, 19, 16,
        20, 21, 22, 22, 23, 20,
    ]
}

/// The triangles of a pyramid: a square bottom of two triangles over the
/// vertices 0..4, then one triangle per side over the vertices 4..16.
pub open spec fn pyramid_index_seq() -> Seq<MeshIndex> {
    seq![0, 1, 2, 2, 3, 0, 4, 5, 6, 7, 8, 9, 10, 11, 12, 13, 14, 15]
}

/// Number of vertices of a box mesh.
pub open spec fn box_vertex_count() -> nat {
    24
}

/// Number of vertices of a pyramid mesh.
pub open spec fn pyramid_vertex_count() -> nat {
    16
}

/// Number of vertices of a UV sphere: a grid of `stacks + 1` rings of
/// `sectors + 1` vertices each, ring `i` starting at vertex `i * (sectors + 1)`.
pub open spec fn uv_sphere_vertex_count(sectors: nat, stacks: nat) -> nat {
    (stacks + 1) * (sectors + 1)
}

/// The indices contributed by the grid cell in stack `i`, sector `j` of a UV
/// sphere. With `k1` the cell's corner on ring `i` and `k2` the one below it on
/// ring `i + 1`, the cell holds the triangle `k1, k2, k1 + 1` unless it
/// touches the top pole (`i == 0`) and the triangle `k1 + 1, k2, k2 + 1` unless
/// it touches the bottom pole (`i == stacks - 1`). Every index is stored as a
/// `MeshIndex`, that is modulo 2^32.
pub open spec fn sphere_cell(sectors: int, stacks: int, i: int, j: int) -> Seq<MeshIndex> {
    let k1 = i * (sectors + 1) + j;
    let k2 = k1 + sectors + 1;
    (if i != 0 {
        seq![k1 as u32, k2 as u32, (k1 + 1) as u32]
    } else {
        Seq::<MeshIndex>::empty()
    }) + (if i != stacks - 1 {
        seq![(k1 + 1) as u32, k2 as u32, (k2 + 1) as u32]
    } else {
        Seq::<MeshIndex>::empty()
    })
}

/// The indices of the first `n` cells of stack `i`, sector by sector.
pub open spec fn sphere_row(sectors: int, stacks: int, i: int, n: nat) -> Seq<MeshIndex>
    decreases n,
{
    if n == 0 {
        Seq::<MeshIndex>::empty()
    } else {
        sphere_row(sectors, stacks, i, (n - 1) as nat) + sphere_cell(sectors, stacks, i, n - 1)
    }
}

/// The indices of the first `m` stacks, stack by stack.
pub open spec fn sphere_rows(sectors: int, stacks: int, m: nat) -> Seq<MeshIndex>
    decreases m,
{
    if m == 0 {
        Seq::<MeshIndex>::empty()
    } else {
        sphere_rows(sectors, stacks, (m - 1) as nat) + sphere_row(
            sectors,
            stacks,
            m - 1,
            sectors as nat,
        )
    }
}

/// The whole index buffer of a UV sphere with the given grid.
pub open spec fn uv_sphere_index_seq(sectors: nat, stacks: nat) -> Seq<MeshIndex> {
    sphere_rows(sectors as int, stacks as int, stacks)
}

/// Number of indices that one cell of stack `i` contributes.
pub open spec fn sphere_cell_len(stacks: int, i: int) -> int {
    (if i != 0 { 3int } else { 0int }) + (if i != stacks - 1 { 3int } else { 0int })
}

impl Shapes {
    /// The index buffer of a box (see `box_index_seq`).
    pub fn create_box_indices() -> (indices: Vec<MeshIndex>)
        ensures
            indices@ == box_index_seq(),
    {
        let indices: Vec<MeshIndex> = vec![
            0, 1, 2, 2, 3, 0,
            4, 5, 6, 6, 7, 4,
            8, 9, 10, 10, 11, 8,
            12, 13, 14, 14, 15, 12,
            16, 17, 18, 18, 19, 16,
            20, 21, 22, 22, 23, 20,
        ];
        indices
    }

    /// The index buffer of a pyramid (see `pyramid_index_seq`).
    pub fn create_pyramid_indices() -> (indices: Vec<MeshIndex>)
        ensures
            indices@ == pyramid_index_seq(),
    {
        let indices: Vec<MeshIndex> = vec![0, 1, 2, 2, 3, 0, 4, 5, 6, 7, 8, 9, 10, 11, 12, 13, 14, 15];
        indices
    }

    /// The index buffer of a UV sphere of `sectors` longitudinal sectors and
    /// `stacks` latitudinal stacks, in the order in which the renderer lays
    /// out the triangles (see `uv_sphere_index_seq`). The vertex grid must be
    /// addressable and the size of the index buffer, `6 * stacks * sectors`
    /// at most, must be computable without overflow.
    pub fn create_uv_sphere_indices(sectors: usize, stacks: usize) -> (indices: Vec<MeshIndex>)
        requires
            (stacks + 1) * (sectors + 1) <= usize::MAX,
            stacks * sectors * 6 <= usize::MAX,
        ensures
            indices@ == uv_sphere_index_seq(sectors as nat, stacks as nat),
    {
        let mut indices: Vec<MeshIndex> = Vec::new();
        let mut i: usize = 0;
        while i < stacks
            invariant
                i <= stacks,
                (stacks + 1) * (sectors + 1) <= usize::MAX,
                indices@ == sphere_rows(sectors as int, stacks as int, i as nat),
            decreases stacks - i,
        {
            assert((i + 1) * (sectors + 1) <= (stacks + 1) * (sectors + 1)) by (nonlinear_arith)
                requires
                    i < stacks,
            ;
            assert((i + 1) * (sectors + 1) == i * (sectors + 1) + sectors + 1) by (nonlinear_arith);
            assert((i + 2) * (sectors + 1) == (i + 1) * (sectors + 1) + sectors + 1) by (nonlinear_arith);
            assert((i + 2) * (sectors + 1) <= (stacks + 1) * (sectors + 1)) by (nonlinear_arith)
                requires
                    i < stacks,
            ;
            let mut k1: usize = i * (sectors + 1);
            let mut k2: usize = k1 + sectors + 1;
            let ghost row_start = indices@;
            let mut j: usize = 0;
            while j < sectors
                invariant
                    i < stacks,
                    j <= sectors,
                    (i + 2) * (sectors + 1) == (i + 1) * (sectors + 1) + sectors + 1,
                    (i + 2) * (sectors + 1) <= (stacks + 1) * (sectors + 1),
                    (stacks + 1) * (sectors + 1) <= usize::MAX,
                    k1 == i * (sectors + 1) + j,
                    k2 == k1 + sectors + 1,
                    (i + 1) * (sectors + 1) == i * (sectors + 1) + sectors + 1,
                    (i + 1) * (sectors + 1) <= (stacks + 1) * (sectors + 1),
                    indices@ == row_start + sphere_row(sectors as int, stacks as int, i as int, j as nat),
                decreases sectors - j,
            {
                let ghost before = indices@;
                if i != 0 {
                    indices.push(k1 as MeshIndex);
                    indices.push(k2 as MeshIndex);
                    indices.push((k1 + 1) as MeshIndex);
                }
                if i != stacks - 1 {
                    indices.push((k1 + 1) as MeshIndex);
                    indices.push(k2 as MeshIndex);
                    indices.push((k2 + 1) as MeshIndex);
                }
                assert(indices@ == before + sphere_cell(
                    sectors as int,
                    stacks as int,
                    i as int,
                    j as int,
                ));
                k1 += 1;
                k2 += 1;
                j += 1;
            }
            i += 1;
        }
        indices
    }
}


/// Every row of `n` cells holds `n` times the indices of one of its cells.
proof fn lemma_sphere_row_len(sectors: int, stacks: int, i: int, n: nat)
    ensures
        sphere_row(sectors, stacks, i, n).len() == n * sphere_cell_len(stacks, i),
    decreases n,
{
    let c = sphere_cell_len(stacks, i);
    if n > 0 {
        lemma_sphere_row_len(sectors, stacks, i, (n - 1) as nat);
        assert(sphere_cell(sectors, stacks, i, n - 1).len() == c);
        assert(sphere_row(sectors, stacks, i, n).len() == sphere_row(
            sectors,
            stacks,
            i,
            (n - 1) as nat,
        ).len() + c);
        assert(n * c == (n - 1) * c + c) by (nonlinear_arith);
    } else {
        assert(n * c == 0) by (nonlinear_arith)
            requires
                n == 0,
        ;
    }
}

/// The first `m` stacks hold `sectors` cells each; the top stack and the
/// bottom stack hold one triangle per cell, the others two.
proof fn lemma_sphere_rows_len(sectors: nat, stacks: nat, m: nat)
    requires
        m <= stacks,
    ensures
        sphere_rows(sectors as int, stacks as int, m).len() == sectors * (6 * m
            - (if m >= 1 { 3int } else { 0int }) - (if m == stacks && m >= 1 {
            3int
        } else {
            0int
        })),
    decreases m,
{
    if m > 0 {
        lemma_sphere_rows_len(sectors, stacks, (m - 1) as nat);
        lemma_sphere_row_len(sectors as int, stacks as int, m - 1, sectors);
        assert(sphere_rows(sectors as int, stacks as int, m).len() == sphere_rows(
            sectors as int,
            stacks as int,
            (m - 1) as nat,
        ).len() + sphere_row(sectors as int, stacks as int, m - 1, sectors).len());
        let a = 6 * (m - 1) - (if m - 1 >= 1 { 3int } else { 0int }) - (if m - 1 == stacks && m - 1
            >= 1 {
            3int
        } else {
            0int
        });
        let b = sphere_cell_len(stacks as int, m - 1);
        let c = 6 * m - (if m >= 1 { 3int } else { 0int }) - (if m == stacks && m >= 1 {
            3int
        } else {
            0int
        });
        assert(c == a + b);
        assert(sectors * c == sectors * a + sectors * b) by (nonlinear_arith)
            requires
                c == a + b,
        ;
    } else {
        assert(sectors * (6 * m - 0int - 0int) == 0) by (nonlinear_arith)
            requires
                m == 0,
        ;
    }
}

/// Every index that cell `(i, j)` holds, for `i < stacks` and `j < sectors`,
/// lies below `bound` when the vertex count fits under `bound`.
proof fn lemma_sphere_cell_in_range(sectors: nat, stacks: nat, i: nat, j: nat)
    requires
        i < stacks,
        j < sectors,
        uv_sphere_vertex_count(sectors, stacks) <= 0x1_0000_0000,
    ensures
        forall|k: int|
            0 <= k < sphere_cell(sectors as int, stacks as int, i as int, j as int).len() ==> (
            #[trigger] sphere_cell(sectors as int, stacks as int, i as int, j as int)[k] as nat)
                < uv_sphere_vertex_count(sectors, stacks),
{
    let k1 = i * (sectors + 1) + j;
    let k2 = k1 + sectors + 1;
    assert((i + 2) * (sectors + 1) <= (stacks + 1) * (sectors + 1)) by (nonlinear_arith)
        requires
            i < stacks,
    ;
    assert((i + 2) * (sectors + 1) == i * (sectors + 1) + 2 * sectors + 2) by (nonlinear_arith);
    assert(k2 + 1 < uv_sphere_vertex_count(sectors, stacks));
    assert(0 <= k1 < 0x1_0000_0000);
    assert(k1 as u32 == k1);
    assert((k1 + 1) as u32 == k1 + 1);
    assert(k2 as u32 == k2);
    assert((k2 + 1) as u32 == k2 + 1);
}

/// Every index of the first `n` cells of stack `i` lies below the vertex count.
proof fn lemma_sphere_row_in_range(sectors: nat, stacks: nat, i: nat, n: nat)
    requires
        i < stacks,
        n <= sectors,
        uv_sphere_vertex_count(sectors, stacks) <= 0x1_0000_0000,
    ensures
        forall|k: int|
            0 <= k < sphere_row(sectors as int, stacks as int, i as int, n).len() ==> (
            #[trigger] sphere_row(sectors as int, stacks as int, i as int, n)[k] as nat)
                < uv_sphere_vertex_count(sectors, stacks),
    decreases n,
{
    if n > 0 {
        lemma_sphere_row_in_range(sectors, stacks, i, (n - 1) as nat);
        lemma_sphere_cell_in_range(sectors, stacks, i, (n - 1) as nat);
        let prev = sphere_row(sectors as int, stacks as int, i as int, (n - 1) as nat);
        let cell = sphere_cell(sectors as int, stacks as int, i as int, n - 1);
        assert forall|k: int|
            0 <= k < sphere_row(sectors as int, stacks as int, i as int, n).len() implies (
            #[trigger] sphere_row(sectors as int, stacks as int, i as int, n)[k] as nat)
                < uv_sphere_vertex_count(sectors, stacks) by {
            if k < prev.len() {
                assert(sphere_row(sectors as int, stacks as int, i as int, n)[k] == prev[k]);
            } else {
                assert(sphere_row(sectors as int, stacks as int, i as int, n)[k] == cell[k
                    - prev.len()]);
            }
        }
    }
}

/// Every index of the first `m` stacks lies below the vertex count.
proof fn lemma_sphere_rows_in_range(sectors: nat, stacks: nat, m: nat)
    requires
        m <= stacks,
        uv_sphere_vertex_count(sectors, stacks) <= 0x1_0000_0000,
    ensures
        forall|k: int|
            0 <= k < sphere_rows(sectors as int, stacks as int, m).len() ==> (
            #[trigger] sphere_rows(sectors as int, stacks as int, m)[k] as nat)
                < uv_sphere_vertex_count(sectors, stacks),
    decreases m,
{
    if m > 0 {
        lemma_sphere_rows_in_range(sectors, stacks, (m - 1) as nat);
        lemma_sphere_row_in_range(sectors, stacks, (m - 1) as nat, sectors);
        let prev = sphere_rows(sectors as int, stacks as int, (m - 1) as nat);
        let row = sphere_row(sectors as int, stacks as int, m - 1, sectors);
        assert forall|k: int|
            0 <= k < sphere_rows(sectors as int, stacks as int, m).len() implies (
            #[trigger] sphere_rows(sectors as int, stacks as int, m)[k] as nat)
                < uv_sphere_vertex_count(sectors, stacks) by {
            if k < prev.len() {
                assert(sphere_rows(sectors as int, stacks as int, m)[k] == prev[k]);
            } else {
                assert(sphere_rows(sectors as int, stacks as int, m)[k] == row[k - prev.len()]);
            }
        }
    }
}

/// A UV sphere has `6 * sectors * (stacks - 1)` indices, two triangles per
/// grid cell but one in each cell that touches a pole, and none at all
/// without stacks.
pub proof fn lemma_uv_sphere_index_count(sectors: nat, stacks: nat)
    ensures
        uv_sphere_index_seq(sectors, stacks).len() == if stacks == 0 {
            0
        } else {
            6 * sectors * (stacks - 1)
        },
        uv_sphere_index_seq(sectors, stacks).len() % 3 == 0,
{
    lemma_sphere_rows_len(sectors, stacks, stacks);
    if stacks > 0 {
        assert(sectors * (6 * stacks - 3 - 3) == 6 * sectors * (stacks - 1)) by (nonlinear_arith);
        let x = 2 * sectors * (stacks - 1);
        assert(6 * sectors * (stacks - 1) == x * 3) by (nonlinear_arith)
            requires
                x == 2 * sectors * (stacks - 1),
        ;
        vstd::arithmetic::div_mod::lemma_mod_multiples_basic(x, 3);
    }
}

/// Every index of a UV sphere names one of its vertices, as long as the
/// vertex count fits the index type (beyond it the indices wrap modulo 2^32).
pub proof fn lemma_uv_sphere_indices_in_range(sectors: nat, stacks: nat)
    requires
        uv_sphere_vertex_count(sectors, stacks) <= 0x1_0000_0000,
    ensures
        forall|k: int|
            0 <= k < uv_sphere_index_seq(sectors, stacks).len() ==> (
            #[trigger] uv_sphere_index_seq(sectors, stacks)[k] as nat) < uv_sphere_vertex_count(
                sectors,
                stacks,
            ),
{
    lemma_sphere_rows_in_range(sectors, stacks, stacks);
}

/// The box and the pyramid consist of whole triangles over their own vertices.
pub proof fn lemma_box_and_pyramid_indices_in_range()
    ensures
        box_index_seq().len() == 36,
        forall|k: int|
            0 <= k < box_index_seq().len() ==> (#[trigger] box_index_seq()[k] as nat)
                < box_vertex_count(),
        pyramid_index_seq().len() == 18,
        forall|k: int|
            0 <= k < pyramid_index_seq().len() ==> (#[trigger] pyramid_index_seq()[k] as nat)
                < pyramid_vertex_count(),
{
}

} // verus!
