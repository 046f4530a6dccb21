//! How values are laid out in the buffers that the GPU reads: every value is
//! a run of 32-bit words, each word in little-endian byte order.

use crate::pass::lighting::{PointLight, POINT_LIGHT_SIZE};
use crate::scene::geometry::{DrawData, VertexPos, DRAW_DATA_SIZE, INDEX_SIZE, VERTEX_POS_SIZE};
use crate::sync::{ViewData, VIEW_DATA_SIZE};
use vstd::bytes::{lemma_auto_spec_u32_to_from_le_bytes, spec_u32_to_le_bytes, u32_to_le_bytes};
use vstd::prelude::*;

verus! {

/// The bytes of `words`, word after word.
pub open spec fn spec_words(words: Seq<u32>) -> Seq<u8>
    decreases words.len(),
{
    if words.len() == 0 {
        Seq::empty()
    } else {
        spec_words(words.drop_last()) + spec_u32_to_le_bytes(words.last())
    }
}

/// The words of a vertex position: x, y, z.
pub open spec fn spec_vertex_words(vertex: VertexPos) -> Seq<u32> {
    vertex.0@
}

/// The words of a draw-data record: base index, base vertex.
pub open spec fn spec_draw_data_words(record: DrawData) -> Seq<u32> {
    seq![record.base_index, record.base_vertex]
}

/// The words of a point light: x, y, z of its position, then its intensity.
pub open spec fn spec_light_words(light: PointLight) -> Seq<u32> {
    light.position@.push(light.intensity)
}

/// The words of one view-data slot: view matrix, projection matrix,
/// position, and zeros up to the size of a slot.
pub open spec fn spec_view_data_words(data: ViewData) -> Seq<u32> {
    data.view@ + data.proj@ + data.position@ + Seq::new(28, |i: int| 0u32)
}

/// The words of all of `items`, one item after the other.
pub open spec fn spec_flatten<T>(items: Seq<T>, words: spec_fn(T) -> Seq<u32>) -> Seq<u32>
    decreases items.len(),
{
    if items.len() == 0 {
        Seq::empty()
    } else {
        spec_flatten(items.drop_last(), words) + words(items.last())
    }
}

/// Every word takes four bytes.
pub proof fn lemma_words_len(words: Seq<u32>)
    ensures
        spec_words(words).len() == 4 * words.len(),
    decreases words.len(),
{
    lemma_auto_spec_u32_to_from_le_bytes();
    if words.len() > 0 {
        lemma_words_len(words.drop_last());
    }
}

/// The bytes of two runs of words are the bytes of the first followed by the
/// bytes of the second.
pub proof fn lemma_words_concat(first: Seq<u32>, second: Seq<u32>)
    ensures
        spec_words(first + second) == spec_words(first) + spec_words(second),
    decreases second.len(),
{
    if second.len() == 0 {
        assert(first + second =~= first);
    } else {
        lemma_words_concat(first, second.drop_last());
        assert((first + second).drop_last() =~= first + second.drop_last());
        assert((first + second).last() == second.last());
    }
}

/// Items of `count` words each flatten to `count` words per item.
pub proof fn lemma_flatten_len<T>(items: Seq<T>, words: spec_fn(T) -> Seq<u32>, count: nat)
    requires
        forall|item: T| #[trigger] words(item).len() == count,
    ensures
        spec_flatten(items, words).len() == count * items.len(),
    decreases items.len(),
{
    if items.len() > 0 {
        lemma_flatten_len(items.drop_last(), words, count);
        assert(count * items.len() == count * (items.len() - 1) + count) by (nonlinear_arith);
    }
}

/// Appends the bytes of `words`.
pub fn push_words(bytes: &mut Vec<u8>, words: &[u32])
    ensures
        final(bytes)@ == old(bytes)@ + spec_words(words@),
{
    let mut i: usize = 0;
    while i < words.len()
        invariant
            i <= words.len(),
            bytes@ == old(bytes)@ + spec_words(words@.take(i as int)),
        decreases words.len() - i,
    {
        let mut word = u32_to_le_bytes(words[i]);
        proof {
            assert(words@.take(i as int + 1).drop_last() =~= words@.take(i as int));
            assert(words@.take(i as int + 1).last() == words@[i as int]);
        }
        bytes.append(&mut word);
        i = i + 1;
    }
    proof {
        assert(words@.take(i as int) =~= words@);
    }
}

/// The bytes of the vertex staging buffer.
pub fn vertex_bytes(vertices: &Vec<VertexPos>) -> (bytes: Vec<u8>)
    ensures
        bytes@ == spec_words(spec_flatten(vertices@, |v: VertexPos| spec_vertex_words(v))),
        bytes@.len() == vertices@.len() * VERTEX_POS_SIZE,
{
    let mut bytes: Vec<u8> = Vec::new();
    let ghost words = |v: VertexPos| spec_vertex_words(v);
    let mut i: usize = 0;
    while i < vertices.len()
        invariant
            i <= vertices.len(),
            words == |v: VertexPos| spec_vertex_words(v),
            bytes@ == spec_words(spec_flatten(vertices@.take(i as int), words)),
        decreases vertices.len() - i,
    {
        let vertex: VertexPos = vertices[i];
        proof {
            assert(vertices@.take(i as int + 1).drop_last() =~= vertices@.take(i as int));
            assert(vertices@.take(i as int + 1).last() == vertices@[i as int]);
            lemma_words_concat(spec_flatten(vertices@.take(i as int), words), words(vertex));
        }
        push_words(&mut bytes, vertex.0.as_slice());
        i = i + 1;
    }
    proof {
        assert(vertices@.take(i as int) =~= vertices@);
        lemma_flatten_len(vertices@, words, 3);
        lemma_words_len(spec_flatten(vertices@, words));
    }
    bytes
}

/// The bytes of the index staging buffer.
pub fn index_bytes(indices: &Vec<u32>) -> (bytes: Vec<u8>)
    ensures
        bytes@ == spec_words(indices@),
        bytes@.len() == indices@.len() * INDEX_SIZE,
{
    let mut bytes: Vec<u8> = Vec::new();
    push_words(&mut bytes, indices.as_slice());
    proof {
        lemma_words_len(indices@);
    }
    bytes
}

/// The bytes of the draw-data staging buffer.
pub fn draw_data_bytes(draw_data: &Vec<DrawData>) -> (bytes: Vec<u8>)
    ensures
        bytes@ == spec_words(spec_flatten(draw_data@, |r: DrawData| spec_draw_data_words(r))),
        bytes@.len() == draw_data@.len() * DRAW_DATA_SIZE,
{
    let mut bytes: Vec<u8> = Vec::new();
    let ghost words = |r: DrawData| spec_draw_data_words(r);
    let mut i: usize = 0;
    while i < draw_data.len()
        invariant
            i <= draw_data.len(),
            words == |r: DrawData| spec_draw_data_words(r),
            bytes@ == spec_words(spec_flatten(draw_data@.take(i as int), words)),
        decreases draw_data.len() - i,
    {
        let record: DrawData = draw_data[i];
        let pair: [u32; 2] = [record.base_index, record.base_vertex];
        proof {
            assert(draw_data@.take(i as int + 1).drop_last() =~= draw_data@.take(i as int));
            assert(draw_data@.take(i as int + 1).last() == draw_data@[i as int]);
            assert(pair@ =~= words(record));
            lemma_words_concat(spec_flatten(draw_data@.take(i as int), words), words(record));
        }
        push_words(&mut bytes, pair.as_slice());
        i = i + 1;
    }
    proof {
        assert(draw_data@.take(i as int) =~= draw_data@);
        lemma_flatten_len(draw_data@, words, 2);
        lemma_words_len(spec_flatten(draw_data@, words));
    }
    bytes
}

/// The bytes of the point-light buffer.
pub fn light_bytes(lights: &Vec<PointLight>) -> (bytes: Vec<u8>)
    ensures
        bytes@ == spec_words(spec_flatten(lights@, |l: PointLight| spec_light_words(l))),
        bytes@.len() == lights@.len() * POINT_LIGHT_SIZE,
{
    let mut bytes: Vec<u8> = Vec::new();
    let ghost words = |l: PointLight| spec_light_words(l);
    let mut i: usize = 0;
    while i < lights.len()
        invariant
            i <= lights.len(),
            words == |l: PointLight| spec_light_words(l),
            bytes@ == spec_words(spec_flatten(lights@.take(i as int), words)),
        decreases lights.len() - i,
    {
        let light: PointLight = lights[i];
        let packed: [u32; 4] = [
            light.position[0],
            light.position[1],
            light.position[2],
            light.intensity,
        ];
        proof {
            assert(lights@.take(i as int + 1).drop_last() =~= lights@.take(i as int));
            assert(lights@.take(i as int + 1).last() == lights@[i as int]);
            assert(packed@ =~= words(light));
            lemma_words_concat(spec_flatten(lights@.take(i as int), words), words(light));
        }
        push_words(&mut bytes, packed.as_slice());
        i = i + 1;
    }
    proof {
        assert(lights@.take(i as int) =~= lights@);
        lemma_flatten_len(lights@, words, 4);
        lemma_words_len(spec_flatten(lights@, words));
    }
    bytes
}

/// The bytes of one view-data slot.
pub fn view_data_bytes(data: &ViewData) -> (bytes: Vec<u8>)
    ensures
        bytes@ == spec_words(spec_view_data_words(*data)),
        bytes@.len() == VIEW_DATA_SIZE,
{
    let mut bytes: Vec<u8> = Vec::new();
    let padding: [u32; 28] = [0u32; 28];
    push_words(&mut bytes, data.view.as_slice());
    push_words(&mut bytes, data.proj.as_slice());
    push_words(&mut bytes, data.position.as_slice());
    push_words(&mut bytes, padding.as_slice());
    proof {
        assert(padding@ =~= Seq::new(28, |i: int| 0u32));
        lemma_words_concat(data.view@, data.proj@);
        lemma_words_concat(data.view@ + data.proj@, data.position@);
        lemma_words_concat(data.view@ + data.proj@ + data.position@, padding@);
        lemma_words_len(spec_view_data_words(*data));
    }
    bytes
}

} // verus!
