//! Mesh geometry: vertices, indexed triangle lists, and the word image of a
//! vertex list as it is laid out in a vertex buffer.
//!
//! Floating-point attributes are carried as their IEEE-754 bit patterns, one
//! `u32` per component, which is exactly what ends up in device memory.

use vstd::prelude::*;

verus! {

/// Number of 32-bit words one [`Vertex`] occupies in a vertex buffer.
pub const WORDS_PER_VERTEX: usize = 6;

/// One corner of a mesh: a homogeneous position and a texture coordinate.
#[derive(Clone, Copy, Debug, PartialEq, Eq)]
pub struct Vertex {
    /// Position `x, y, z, w`, each the bit pattern of a 32-bit float.
    pub pos: [u32; 4],
    /// Texture coordinate `u, v`, each the bit pattern of a 32-bit float.
    pub tex_coord: [u32; 2],
}

impl Vertex {
    /// The `c`-th word of the vertex as stored in a buffer: the four position
    /// components followed by the two texture components.
    pub open spec fn word(self, c: int) -> u32 {
        if c < 4 {
            self.pos[c]
        } else {
            self.tex_coord[c - 4]
        }
    }
}

/// The buffer image of a vertex list: every vertex contributes
/// [`WORDS_PER_VERTEX`] consecutive words, in list order.
pub open spec fn vertex_words(vertices: Seq<Vertex>) -> Seq<u32> {
    Seq::new(
        vertices.len() * WORDS_PER_VERTEX as nat,
        |k: int| vertices[k / WORDS_PER_VERTEX as int].word(k % WORDS_PER_VERTEX as int),
    )
}

/// Lays a vertex list out as buffer words.
pub fn flatten_vertices(vertices: &Vec<Vertex>) -> (words: Vec<u32>)
    ensures
        words@ == vertex_words(vertices@),
{
    let mut words: Vec<u32> = Vec::new();
    let mut i: usize = 0;
    while i < vertices.len()
        invariant
            i <= vertices.len(),
            words@ == vertex_words(vertices@.take(i as int)),
        decreases vertices.len() - i,
    {
        let v = vertices[i];
        let ghost before = words@;
        words.push(v.pos[0]);
        words.push(v.pos[1]);
        words.push(v.pos[2]);
        words.push(v.pos[3]);
        words.push(v.tex_coord[0]);
        words.push(v.tex_coord[1]);
        proof {
            let done = vertices@.take(i as int);
            let next = vertices@.take(i as int + 1);
            assert(words@.len() == next.len() * 6);
            assert forall|k: int| 0 <= k < words@.len() implies words@[k] == vertex_words(next)[k] by {
                if k < before.len() {
                    assert(k / 6 < i);
                    assert(next[k / 6] == done[k / 6]);
                    assert(before[k] == vertex_words(done)[k]);
                } else {
                    assert(k / 6 == i);
                    assert(k % 6 == k - 6 * i);
                    assert(next[k / 6] == v);
                }
            }
            assert(words@ =~= vertex_words(next));
        }
        i += 1;
    }
    proof {
        assert(vertices@.take(vertices.len() as int) =~= vertices@);
    }
    words
}

/// Mathematical content of a [`TriangleList`].
#[verifier::ext_equal]
pub struct TriangleListView {
    pub vertices: Seq<Vertex>,
    pub indices: Seq<u32>,
}

impl TriangleListView {
    /// Every index names a vertex of the list, and the index list is short
    /// enough for a single draw call to cover it with a 32-bit range.
    pub open spec fn well_formed(self) -> bool {
        &&& self.indices.len() <= u32::MAX
        &&& forall|i: int| 0 <= i < self.indices.len() ==> (#[trigger] self.indices[i]) < self.vertices.len()
    }
}

/// An indexed triangle list. Every value of this type is well formed: it can
/// only be obtained from [`TriangleList::new`], which checks the indices.
#[derive(Debug)]
pub struct TriangleList {
    vertex_data: Vec<Vertex>,
    index_data: Vec<u32>,
}

impl View for TriangleList {
    type V = TriangleListView;

    closed spec fn view(&self) -> TriangleListView {
        TriangleListView { vertices: self.vertex_data@, indices: self.index_data@ }
    }
}

/// Whether every element of `indices` is below `bound`.
fn all_below(indices: &Vec<u32>, bound: usize) -> (ok: bool)
    ensures
        ok <==> forall|i: int| 0 <= i < indices@.len() ==> (#[trigger] indices@[i]) < bound,
{
    let mut i: usize = 0;
    while i < indices.len()
        invariant
            i <= indices.len(),
            forall|j: int| 0 <= j < i ==> (#[trigger] indices@[j]) < bound,
        decreases indices.len() - i,
    {
        if indices[i] as usize >= bound {
            return false;
        }
        i += 1;
    }
    true
}

impl TriangleList {
    #[verifier::type_invariant]
    spec fn inv(&self) -> bool {
        self@.well_formed()
    }

    /// Builds a triangle list, or returns `None` when an index does not name
    /// a vertex or when there are more than `u32::MAX` indices.
    pub fn new(vertex_data: Vec<Vertex>, index_data: Vec<u32>) -> (list: Option<TriangleList>)
        ensures
            list is Some <==> (TriangleListView {
                vertices: vertex_data@,
                indices: index_data@,
            }).well_formed(),
            list matches Some(l) ==> l@.vertices == vertex_data@ && l@.indices == index_data@,
    {
        if index_data.len() > u32::MAX as usize {
            return None;
        }
        if !all_below(&index_data, vertex_data.len()) {
            return None;
        }
        Some(TriangleList { vertex_data, index_data })
    }

    /// The vertices, in order.
    pub fn vertex_data(&self) -> (vertices: &Vec<Vertex>)
        ensures
            vertices@ == self@.vertices,
            self@.well_formed(),
    {
        proof {
            use_type_invariant(self);
        }
        &self.vertex_data
    }

    /// The indices, in order.
    pub fn index_data(&self) -> (indices: &Vec<u32>)
        ensures
            indices@ == self@.indices,
            self@.well_formed(),
    {
        proof {
            use_type_invariant(self);
        }
        &self.index_data
    }
}

} // verus!
