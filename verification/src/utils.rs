//! CPU-side geometry and texture data for the terrain.
//!
//! The terrain is a square lattice of `GRID_SIZE` x `GRID_SIZE` vertices,
//! numbered row by row, triangulated with two triangles per cell. Vertex
//! components are IEEE-754 single-precision bit patterns.
//!
//! Buffers are laid out as little-endian bytes. The words are taken as the
//! machine holds them, through `bytemuck`, and kept if that order is
//! little-endian; on any other machine they are encoded byte by byte.

use vstd::prelude::*;

verus! {

/// Bytes per vertex: 16 bytes of position followed by 8 bytes of texture coordinate.
pub const VERTEX_SIZE: usize = 24;

/// Lattice points along each side of the terrain.
pub const GRID_SIZE: usize = 64;

/// Bit pattern of the single-precision float 1.0, the `w` of every position.
pub const ONE_BITS: u32 = 0x3F80_0000;

/// One terrain vertex: homogeneous position and texture coordinate, each
/// component held as the bit pattern of a single-precision float.
#[derive(Clone, Copy, Debug, PartialEq, Eq, Structural)]
pub struct Vertex {
    pub x: u32,
    pub y: u32,
    pub z: u32,
    pub w: u32,
    pub u: u32,
    pub v: u32,
}

/// Number of vertices of every terrain mesh.
pub open spec fn vertex_count() -> nat {
    (GRID_SIZE * GRID_SIZE) as nat
}

/// Number of indices of every terrain mesh: six per lattice cell.
pub open spec fn index_count() -> nat {
    (6 * (GRID_SIZE - 1) * (GRID_SIZE - 1)) as nat
}

/// The vertex number found at position `k` of the index buffer.
///
/// Cell `k / 6` has its near-left corner at `base`; its two triangles are
/// `(base, below, right)` and `(right, below, below-right)`.
pub open spec fn grid_index(k: int) -> int {
    let cell = k / 6;
    let row = cell / (GRID_SIZE - 1);
    let col = cell % (GRID_SIZE - 1);
    let base = row * GRID_SIZE + col;
    let corner = k % 6;
    if corner == 0 {
        base
    } else if corner == 1 || corner == 4 {
        base + GRID_SIZE
    } else if corner == 2 || corner == 3 {
        base + 1
    } else {
        base + GRID_SIZE + 1
    }
}

/// The index buffer shared by every terrain mesh.
pub open spec fn mesh_indices() -> Seq<u32> {
    Seq::new(index_count(), |k: int| #[verifier::truncate] (grid_index(k) as u32))
}

/// The vertex at lattice point `k` (row `k / GRID_SIZE`, column `k % GRID_SIZE`).
pub open spec fn lattice_vertex(axis: Seq<u32>, tex_axis: Seq<u32>, heights: Seq<u32>, k: int) -> Vertex {
    let row = k / (GRID_SIZE as int);
    let col = k % (GRID_SIZE as int);
    Vertex {
        x: axis[col],
        y: heights[k],
        z: axis[row],
        w: ONE_BITS,
        u: tex_axis[col],
        v: tex_axis[row],
    }
}

/// The vertex buffer for the given lattice coordinates and elevations.
pub open spec fn mesh_vertices(axis: Seq<u32>, tex_axis: Seq<u32>, heights: Seq<u32>) -> Seq<Vertex> {
    Seq::new(vertex_count(), |k: int| lattice_vertex(axis, tex_axis, heights, k))
}

/// Whether the three inputs describe one lattice: a coordinate and a texture
/// coordinate per row/column, and an elevation per lattice point.
pub open spec fn lattice_inputs_ok(axis: Seq<u32>, tex_axis: Seq<u32>, heights: Seq<u32>) -> bool {
    axis.len() == GRID_SIZE && tex_axis.len() == GRID_SIZE && heights.len() == vertex_count()
}

/// Builds the index buffer of the terrain lattice.
pub fn create_indices() -> (indices: Vec<u32>)
    ensures
        indices@ == mesh_indices(),
{
    let cells: usize = (GRID_SIZE - 1) * (GRID_SIZE - 1);
    let mut indices: Vec<u32> = Vec::new();
    let mut cell: usize = 0;
    while cell < cells
        invariant
            cells == (GRID_SIZE - 1) * (GRID_SIZE - 1),
            cell <= cells,
            indices@.len() == 6 * cell,
            mesh_indices().len() == 6 * cells,
            forall|k: int| 0 <= k < indices@.len() ==> indices@[k] == mesh_indices()[k],
        decreases cells - cell,
    {
        let row: usize = cell / (GRID_SIZE - 1);
        let col: usize = cell % (GRID_SIZE - 1);
        assert(row < GRID_SIZE - 1) by (nonlinear_arith)
            requires
                row == cell / ((GRID_SIZE - 1) as usize),
                cell < (GRID_SIZE - 1) * (GRID_SIZE - 1),
        ;
        let base: u32 = (row * GRID_SIZE + col) as u32;
        let below: u32 = base + GRID_SIZE as u32;
        let ghost start = indices@.len() as int;
        indices.push(base);
        indices.push(below);
        indices.push(base + 1);
        indices.push(base + 1);
        indices.push(below);
        indices.push(below + 1);
        proof {
            assert forall|k: int| start <= k < start + 6 implies indices@[k] == mesh_indices()[k] by {
                assert(k / 6 == cell);
            }
        }
        cell += 1;
    }
    assert(indices@ =~= mesh_indices());
    indices
}

/// Builds the terrain mesh from per-column/row coordinates and per-point
/// elevations, or `None` if the inputs are not shaped like the lattice.
///
/// The vertex and index counts are the same for every input, so a
/// rebuilt mesh always fits the buffers of the one before.
pub fn create_vertices(axis: &Vec<u32>, tex_axis: &Vec<u32>, heights: &Vec<u32>) -> (mesh: Option<(Vec<Vertex>, Vec<u32>)>)
    ensures
        mesh is Some <==> lattice_inputs_ok(axis@, tex_axis@, heights@),
        mesh matches Some(m) ==> m.0@ == mesh_vertices(axis@, tex_axis@, heights@)
            && m.1@ == mesh_indices()
            && m.0@.len() == vertex_count()
            && m.1@.len() == index_count(),
{
    if axis.len() != GRID_SIZE || tex_axis.len() != GRID_SIZE || heights.len() != GRID_SIZE * GRID_SIZE {
        return None;
    }
    let total: usize = GRID_SIZE * GRID_SIZE;
    let mut vertices: Vec<Vertex> = Vec::new();
    let mut k: usize = 0;
    while k < total
        invariant
            total == GRID_SIZE * GRID_SIZE,
            k <= total,
            lattice_inputs_ok(axis@, tex_axis@, heights@),
            vertices@.len() == k,
            forall|j: int| 0 <= j < k ==> vertices@[j] == lattice_vertex(axis@, tex_axis@, heights@, j),
        decreases total - k,
    {
        let row: usize = k / GRID_SIZE;
        let col: usize = k % GRID_SIZE;
        vertices.push(Vertex {
            x: axis[col],
            y: heights[k],
            z: axis[row],
            w: ONE_BITS,
            u: tex_axis[col],
            v: tex_axis[row],
        });
        k += 1;
    }
    assert(vertices@ =~= mesh_vertices(axis@, tex_axis@, heights@));
    let indices = create_indices();
    Some((vertices, indices))
}

/// Every index of the terrain's index buffer names a vertex of the mesh,
/// and the buffer is a whole number of triangles.
pub proof fn lemma_indices_valid()
    ensures
        mesh_indices().len() == index_count(),
        index_count() % 3 == 0,
        forall|k: int| 0 <= k < mesh_indices().len() ==> (#[trigger] mesh_indices()[k]) < vertex_count(),
{
    assert forall|k: int| 0 <= k < mesh_indices().len() implies (#[trigger] mesh_indices()[k]) < vertex_count() by {
        let cell = k / 6;
        let row = cell / (GRID_SIZE - 1);
        let col = cell % (GRID_SIZE - 1);
        assert(0 <= cell < (GRID_SIZE - 1) * (GRID_SIZE - 1));
        assert(0 <= row < GRID_SIZE - 1);
        assert(0 <= col < GRID_SIZE - 1);
        assert(0 <= grid_index(k) < vertex_count());
    }
}

/// Byte `i` of `word` in little-endian order: byte 0 is the least significant.
pub open spec fn word_byte(word: u32, i: int) -> u8 {
    if i == 0 {
        (word % 0x100) as u8
    } else if i == 1 {
        (word / 0x100 % 0x100) as u8
    } else if i == 2 {
        (word / 0x1_0000 % 0x100) as u8
    } else {
        (word / 0x100_0000) as u8
    }
}

/// The word whose little-endian bytes are `b0, b1, b2, b3`.
pub open spec fn word_from_bytes(b0: u8, b1: u8, b2: u8, b3: u8) -> u32 {
    (b0 + 0x100 * b1 + 0x1_0000 * b2 + 0x100_0000 * b3) as u32
}

/// Component `j` of a vertex in buffer order: x, y, z, w, u, v.
pub open spec fn vertex_word(vertex: Vertex, j: int) -> u32 {
    if j == 0 {
        vertex.x
    } else if j == 1 {
        vertex.y
    } else if j == 2 {
        vertex.z
    } else if j == 3 {
        vertex.w
    } else if j == 4 {
        vertex.u
    } else {
        vertex.v
    }
}

/// The components of a vertex buffer as one run of words, six per vertex.
pub open spec fn vertex_words(vertices: Seq<Vertex>) -> Seq<u32> {
    Seq::new(vertices.len() * 6, |i: int| vertex_word(vertices[i / 6], i % 6))
}

/// The bytes of a run of words: four little-endian bytes per word.
pub open spec fn word_bytes(words: Seq<u32>) -> Seq<u8> {
    Seq::new(words.len() * 4, |i: int| word_byte(words[i / 4], i % 4))
}

/// The bytes of a vertex buffer: `VERTEX_SIZE` bytes per vertex, six
/// little-endian words each.
pub open spec fn vertex_buffer_bytes(vertices: Seq<Vertex>) -> Seq<u8> {
    word_bytes(vertex_words(vertices))
}

/// The bytes of an index buffer: one little-endian word per index.
pub open spec fn index_buffer_bytes(indices: Seq<u32>) -> Seq<u8> {
    word_bytes(indices)
}

/// The placeholder texture: `size` x `size` opaque white RGBA texels.
pub open spec fn texels(size: u32) -> Seq<u8> {
    Seq::new((size * size * 4) as nat, |i: int| 0xFFu8)
}

fn push_word(bytes: &mut Vec<u8>, word: u32)
    ensures
        final(bytes)@ == old(bytes)@.push(word_byte(word, 0)).push(word_byte(word, 1)).push(
            word_byte(word, 2),
        ).push(word_byte(word, 3)),
{
    bytes.push((word % 0x100) as u8);
    bytes.push((word / 0x100 % 0x100) as u8);
    bytes.push((word / 0x1_0000 % 0x100) as u8);
    bytes.push((word / 0x100_0000) as u8);
}

/// The bytes of a run of words with the most significant byte of each
/// word first.
pub open spec fn word_bytes_reversed(words: Seq<u32>) -> Seq<u8> {
    Seq::new(words.len() * 4, |i: int| word_byte(words[i / 4], 3 - i % 4))
}

/// Whether a word reads the same in both byte orders.
pub open spec fn is_symmetric(word: u32) -> bool {
    word_byte(word, 0) == word_byte(word, 3) && word_byte(word, 1) == word_byte(word, 2)
}

/// The words as the machine holds them in memory, by `bytemuck::cast_slice`
/// from `u32` to `u8`. That cast cannot fail, as a byte has no alignment,
/// and yields four bytes per word in the machine's byte order: the least
/// significant byte first in every word, or the most significant first in
/// every word.
#[verifier::external_body]
fn memory_bytes(words: &Vec<u32>) -> (bytes: Vec<u8>)
    ensures
        bytes@ == word_bytes(words@) || bytes@ == word_bytes_reversed(words@),
{
    bytemuck::cast_slice::<u32, u8>(words.as_slice()).to_vec()
}

fn encode_words(words: &Vec<u32>) -> (bytes: Vec<u8>)
    ensures
        bytes@ == word_bytes(words@),
{
    let mut bytes: Vec<u8> = Vec::new();
    let mut k: usize = 0;
    while k < words.len()
        invariant
            k <= words.len(),
            bytes@.len() == k * 4,
            forall|i: int| 0 <= i < bytes@.len() ==> bytes@[i] == word_bytes(words@)[i],
        decreases words.len() - k,
    {
        let ghost start = bytes@.len() as int;
        push_word(&mut bytes, words[k]);
        proof {
            assert forall|i: int| start <= i < start + 4 implies bytes@[i] == word_bytes(words@)[i] by {
                assert(i / 4 == k);
            }
        }
        k += 1;
    }
    assert(bytes@ =~= word_bytes(words@));
    bytes
}

/// Given the words and their bytes as the machine holds them, returns the
/// words' little-endian bytes. The first word that differs between the
/// two byte orders tells which one the machine has: its bytes are handed
/// on if they are little-endian, and the words are encoded byte by byte
/// if not. Bytes that are the words in neither order are handed on or
/// replaced by the encoding.
pub fn little_endian_bytes(words: &Vec<u32>, memory: Vec<u8>) -> (bytes: Vec<u8>)
    ensures
        memory@ == word_bytes(words@) || memory@ == word_bytes_reversed(words@) ==> bytes@
            == word_bytes(words@),
        bytes@ == word_bytes(words@) || bytes@ == memory@,
{
    let total: usize = memory.len();
    if total % 4 != 0 || total / 4 != words.len() {
        return encode_words(words);
    }
    let mut k: usize = 0;
    while k < words.len()
        invariant
            k <= words.len(),
            total == words@.len() * 4,
            memory@.len() == total,
            forall|j: int| 0 <= j < k ==> is_symmetric(words@[j]),
        decreases words.len() - k,
    {
        let word = words[k];
        let b0 = (word % 0x100) as u8;
        let b1 = (word / 0x100 % 0x100) as u8;
        let b2 = (word / 0x1_0000 % 0x100) as u8;
        let b3 = (word / 0x100_0000) as u8;
        if b0 != b3 || b1 != b2 {
            if memory[4 * k] == b0 && memory[4 * k + 1] == b1 {
                proof {
                    if memory@ == word_bytes_reversed(words@) {
                        assert((4 * k) / 4 == k && (4 * k + 1) / 4 == k);
                        assert(memory@[4 * k as int] == word_byte(word, 3));
                        assert(memory@[4 * k + 1] == word_byte(word, 2));
                    }
                }
                return memory;
            }
            return encode_words(words);
        }
        k += 1;
    }
    proof {
        lemma_symmetric_words_have_one_order(words@);
    }
    memory
}

/// Words that each read the same in both byte orders have the same
/// bytes in both.
pub proof fn lemma_symmetric_words_have_one_order(words: Seq<u32>)
    requires
        forall|j: int| 0 <= j < words.len() ==> is_symmetric(#[trigger] words[j]),
    ensures
        word_bytes_reversed(words) == word_bytes(words),
{
    assert forall|i: int| 0 <= i < words.len() * 4 implies word_bytes_reversed(words)[i] == word_bytes(
        words,
    )[i] by {
        assert(is_symmetric(words[i / 4]));
    }
    assert(word_bytes_reversed(words) =~= word_bytes(words));
}

fn words_to_bytes(words: &Vec<u32>) -> (bytes: Vec<u8>)
    ensures
        bytes@ == word_bytes(words@),
{
    let memory = memory_bytes(words);
    little_endian_bytes(words, memory)
}

/// Lays a vertex buffer out as bytes.
pub fn vertex_bytes(vertices: &Vec<Vertex>) -> (bytes: Vec<u8>)
    ensures
        bytes@ == vertex_buffer_bytes(vertices@),
        bytes@.len() == vertices@.len() * VERTEX_SIZE,
{
    let mut words: Vec<u32> = Vec::new();
    let mut k: usize = 0;
    while k < vertices.len()
        invariant
            k <= vertices.len(),
            words@.len() == k * 6,
            forall|i: int| 0 <= i < words@.len() ==> words@[i] == vertex_words(vertices@)[i],
        decreases vertices.len() - k,
    {
        let vertex = vertices[k];
        let ghost start = words@.len() as int;
        words.push(vertex.x);
        words.push(vertex.y);
        words.push(vertex.z);
        words.push(vertex.w);
        words.push(vertex.u);
        words.push(vertex.v);
        proof {
            assert forall|i: int| start <= i < start + 6 implies words@[i] == vertex_words(vertices@)[i] by {
                assert(i / 6 == k);
            }
        }
        k += 1;
    }
    assert(words@ =~= vertex_words(vertices@));
    words_to_bytes(&words)
}

/// Lays an index buffer out as bytes.
pub fn index_bytes(indices: &Vec<u32>) -> (bytes: Vec<u8>)
    ensures
        bytes@ == index_buffer_bytes(indices@),
        bytes@.len() == indices@.len() * 4,
{
    words_to_bytes(indices)
}

/// Generates the placeholder texture, four bytes per texel, row by row.
pub fn create_texels(size: u32) -> (bytes: Vec<u8>)
    requires
        size * size * 4 <= usize::MAX,
    ensures
        bytes@ == texels(size),
        bytes@.len() == size * size * 4,
{
    assert(size * size <= size * size * 4) by (nonlinear_arith);
    let side: usize = size as usize;
    let total: usize = side * side * 4;
    let mut bytes: Vec<u8> = Vec::new();
    let mut k: usize = 0;
    while k < total
        invariant
            k <= total,
            bytes@.len() == k,
            forall|i: int| 0 <= i < k ==> bytes@[i] == 0xFFu8,
        decreases total - k,
    {
        bytes.push(0xFF);
        k += 1;
    }
    assert(bytes@ =~= texels(size));
    bytes
}

/// Reading a word's little-endian bytes back gives the word.
pub proof fn lemma_word_bytes_roundtrip(word: u32)
    ensures
        word_from_bytes(word_byte(word, 0), word_byte(word, 1), word_byte(word, 2), word_byte(word, 3))
            == word,
{
}

/// Every vertex takes `VERTEX_SIZE` bytes of its buffer: its six components
/// in order x, y, z, w, u, v, each as four little-endian bytes.
pub proof fn lemma_vertex_layout(vertices: Seq<Vertex>, k: int, j: int)
    requires
        0 <= k < vertices.len(),
        0 <= j < 6,
    ensures
        vertex_buffer_bytes(vertices).len() == vertices.len() * VERTEX_SIZE,
        ({
            let bytes = vertex_buffer_bytes(vertices);
            let at = k * VERTEX_SIZE + 4 * j;
            &&& at + 3 < bytes.len()
            &&& word_from_bytes(bytes[at], bytes[at + 1], bytes[at + 2], bytes[at + 3]) == vertex_word(
                vertices[k],
                j,
            )
        }),
{
    let words = vertex_words(vertices);
    let at = k * VERTEX_SIZE + 4 * j;
    assert(at / 4 == 6 * k + j && (at + 1) / 4 == 6 * k + j && (at + 2) / 4 == 6 * k + j && (at + 3) / 4
        == 6 * k + j);
    assert((6 * k + j) / 6 == k && (6 * k + j) % 6 == j);
    assert(words[6 * k + j] == vertex_word(vertices[k], j));
    lemma_word_bytes_roundtrip(vertex_word(vertices[k], j));
}

/// Every vertex of a generated mesh has the position component `w` equal to one.
pub proof fn lemma_mesh_positions_homogeneous(axis: Seq<u32>, tex_axis: Seq<u32>, heights: Seq<u32>, k: int)
    requires
        0 <= k < vertex_count(),
    ensures
        mesh_vertices(axis, tex_axis, heights).len() == vertex_count(),
        mesh_vertices(axis, tex_axis, heights)[k].w == ONE_BITS,
{
}

} // verus!
