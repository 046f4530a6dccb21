//! An imported scene: its submeshes, nodes and lights as plain values, what
//! can be wrong with it, and how its submeshes are laid out in the buffers
//! that hold the whole scene.

use crate::pass::lighting;
use crate::scene::geometry::{DrawData, Geometry, VertexPos, INDEX_SIZE, VERTEX_POS_SIZE};
use vstd::prelude::*;

verus! {

/// An imported submesh: vertex positions and triangles. The indices of a
/// triangle count from the submesh's first vertex.
pub struct SubMesh {
    pub vertices: Vec<VertexPos>,
    pub faces: Vec<[u32; 3]>,
}

/// An imported node: its transform relative to its parent, the submeshes it
/// places, and its parent's place among the nodes. Nodes are listed parents
/// first, each node directly followed by its descendants.
pub struct Node {
    pub transform: [[u32; 4]; 4],
    pub meshes: Vec<u32>,
    pub parent: Option<usize>,
}

/// An imported scene.
pub struct SceneSource {
    pub meshes: Vec<SubMesh>,
    pub nodes: Vec<Node>,
}

/// Number of vertices of all submeshes.
pub open spec fn spec_total_vertices(meshes: Seq<SubMesh>) -> nat
    decreases meshes.len(),
{
    if meshes.len() == 0 {
        0
    } else {
        spec_total_vertices(meshes.drop_last()) + meshes.last().vertices@.len()
    }
}

/// Number of indices of all submeshes: three per triangle.
pub open spec fn spec_total_indices(meshes: Seq<SubMesh>) -> nat
    decreases meshes.len(),
{
    if meshes.len() == 0 {
        0
    } else {
        spec_total_indices(meshes.drop_last()) + 3 * meshes.last().faces@.len()
    }
}

/// The indices of the triangles, in order.
pub open spec fn spec_face_indices(faces: Seq<[u32; 3]>) -> Seq<u32>
    decreases faces.len(),
{
    if faces.len() == 0 {
        Seq::empty()
    } else {
        spec_face_indices(faces.drop_last()) + seq![faces.last()[0], faces.last()[1], faces.last()[2]]
    }
}

/// The vertex positions of all submeshes, one submesh after the other.
pub open spec fn spec_all_vertices(meshes: Seq<SubMesh>) -> Seq<VertexPos>
    decreases meshes.len(),
{
    if meshes.len() == 0 {
        Seq::empty()
    } else {
        spec_all_vertices(meshes.drop_last()) + meshes.last().vertices@
    }
}

/// The indices of all submeshes, one submesh after the other.
pub open spec fn spec_all_indices(meshes: Seq<SubMesh>) -> Seq<u32>
    decreases meshes.len(),
{
    if meshes.len() == 0 {
        Seq::empty()
    } else {
        spec_all_indices(meshes.drop_last()) + spec_face_indices(meshes.last().faces@)
    }
}

/// Submesh `i` as a range of the scene's buffers: it starts behind the
/// indices and vertices of the submeshes before it.
pub open spec fn spec_geometry(meshes: Seq<SubMesh>, i: int) -> Geometry {
    Geometry {
        id: i as usize,
        base_index: spec_total_indices(meshes.take(i)) as usize,
        num_indices: (3 * meshes[i].faces@.len()) as usize,
        base_vertex: spec_total_vertices(meshes.take(i)) as usize,
    }
}

/// The draw-data record of submesh `i`.
pub open spec fn spec_draw_data(meshes: Seq<SubMesh>, i: int) -> DrawData {
    DrawData {
        base_index: spec_total_indices(meshes.take(i)) as u32,
        base_vertex: spec_total_vertices(meshes.take(i)) as u32,
    }
}

/// The scene's buffers can be described with 32-bit sizes and counts.
pub open spec fn spec_fits(meshes: Seq<SubMesh>) -> bool {
    &&& spec_total_vertices(meshes) * VERTEX_POS_SIZE <= u32::MAX
    &&& spec_total_indices(meshes) * INDEX_SIZE <= u32::MAX
    &&& meshes.len() <= u32::MAX
}

/// A prefix of the submeshes has no more vertices and indices than all of
/// them.
pub proof fn lemma_totals_monotonic(meshes: Seq<SubMesh>, i: int)
    requires
        0 <= i <= meshes.len(),
    ensures
        spec_total_vertices(meshes.take(i)) <= spec_total_vertices(meshes),
        spec_total_indices(meshes.take(i)) <= spec_total_indices(meshes),
    decreases meshes.len(),
{
    if i == meshes.len() {
        assert(meshes.take(i) =~= meshes);
    } else {
        lemma_totals_monotonic(meshes.drop_last(), i);
        assert(meshes.drop_last().take(i) =~= meshes.take(i));
    }
}

/// One more submesh adds its vertices and indices to the totals.
pub proof fn lemma_totals_step(meshes: Seq<SubMesh>, i: int)
    requires
        0 <= i < meshes.len(),
    ensures
        spec_total_vertices(meshes.take(i + 1)) == spec_total_vertices(meshes.take(i))
            + meshes[i].vertices@.len(),
        spec_total_indices(meshes.take(i + 1)) == spec_total_indices(meshes.take(i)) + 3
            * meshes[i].faces@.len(),
        spec_all_vertices(meshes.take(i + 1)) == spec_all_vertices(meshes.take(i))
            + meshes[i].vertices@,
        spec_all_indices(meshes.take(i + 1)) == spec_all_indices(meshes.take(i))
            + spec_face_indices(meshes[i].faces@),
{
    assert(meshes.take(i + 1).drop_last() =~= meshes.take(i));
    assert(meshes.take(i + 1).last() == meshes[i]);
}

/// The combined buffers hold as many vertices and indices as the totals say.
pub proof fn lemma_combined_lengths(meshes: Seq<SubMesh>)
    ensures
        spec_all_vertices(meshes).len() == spec_total_vertices(meshes),
        spec_all_indices(meshes).len() == spec_total_indices(meshes),
    decreases meshes.len(),
{
    if meshes.len() > 0 {
        lemma_combined_lengths(meshes.drop_last());
        lemma_face_indices_len(meshes.last().faces@);
    }
}

/// Every triangle contributes three indices.
pub proof fn lemma_face_indices_len(faces: Seq<[u32; 3]>)
    ensures
        spec_face_indices(faces).len() == 3 * faces.len(),
    decreases faces.len(),
{
    if faces.len() > 0 {
        lemma_face_indices_len(faces.drop_last());
    }
}

/// Total number of vertices and of indices, where the scene's buffers can be
/// described with 32-bit sizes and counts.
pub fn count_totals(meshes: &Vec<SubMesh>) -> (totals: Option<(u32, u32)>)
    ensures
        totals.is_some() == spec_fits(meshes@),
        totals.is_some() ==> {
            &&& totals.unwrap().0 == spec_total_vertices(meshes@)
            &&& totals.unwrap().1 == spec_total_indices(meshes@)
        },
{
    let vertex_limit: u64 = (u32::MAX / VERTEX_POS_SIZE) as u64;
    let index_limit: u64 = (u32::MAX / INDEX_SIZE) as u64;
    if meshes.len() > u32::MAX as usize {
        return None;
    }
    let mut num_vertices: u64 = 0;
    let mut num_indices: u64 = 0;
    let mut m: usize = 0;
    while m < meshes.len()
        invariant
            m <= meshes.len(),
            vertex_limit == u32::MAX / VERTEX_POS_SIZE,
            index_limit == u32::MAX / INDEX_SIZE,
            num_vertices == spec_total_vertices(meshes@.take(m as int)),
            num_indices == spec_total_indices(meshes@.take(m as int)),
            num_vertices <= vertex_limit,
            num_indices <= index_limit,
        decreases meshes.len() - m,
    {
        proof {
            lemma_totals_step(meshes@, m as int);
            lemma_totals_monotonic(meshes@, m as int + 1);
        }
        let mesh = &meshes[m];
        let vertices: u64 = mesh.vertices.len() as u64;
        let faces: u64 = mesh.faces.len() as u64;
        if vertices > vertex_limit - num_vertices {
            return None;
        }
        if faces > (index_limit - num_indices) / 3 {
            return None;
        }
        num_vertices = num_vertices + vertices;
        num_indices = num_indices + 3 * faces;
        m = m + 1;
    }
    proof {
        assert(meshes@.take(m as int) =~= meshes@);
    }
    Some((num_vertices as u32, num_indices as u32))
}

/// The vertex positions and the indices of all submeshes, one submesh after
/// the other.
pub fn gather_mesh_data(meshes: &Vec<SubMesh>) -> (data: (Vec<VertexPos>, Vec<u32>))
    ensures
        data.0@ == spec_all_vertices(meshes@),
        data.1@ == spec_all_indices(meshes@),
{
    let mut vertices: Vec<VertexPos> = Vec::new();
    let mut indices: Vec<u32> = Vec::new();
    let mut m: usize = 0;
    while m < meshes.len()
        invariant
            m <= meshes.len(),
            vertices@ == spec_all_vertices(meshes@.take(m as int)),
            indices@ == spec_all_indices(meshes@.take(m as int)),
        decreases meshes.len() - m,
    {
        let mesh = &meshes[m];
        let ghost vertices_before = vertices@;
        let ghost indices_before = indices@;
        let mut i: usize = 0;
        while i < mesh.vertices.len()
            invariant
                i <= mesh.vertices.len(),
                vertices@ == vertices_before + mesh.vertices@.take(i as int),
            decreases mesh.vertices.len() - i,
        {
            vertices.push(mesh.vertices[i]);
            assert(mesh.vertices@.take(i as int + 1) =~= mesh.vertices@.take(i as int).push(
                mesh.vertices@[i as int],
            ));
            i = i + 1;
        }
        let mut f: usize = 0;
        while f < mesh.faces.len()
            invariant
                f <= mesh.faces.len(),
                indices@ == indices_before + spec_face_indices(mesh.faces@.take(f as int)),
            decreases mesh.faces.len() - f,
        {
            let face: [u32; 3] = mesh.faces[f];
            indices.push(face[0]);
            indices.push(face[1]);
            indices.push(face[2]);
            proof {
                let next = mesh.faces@.take(f as int + 1);
                assert(next.drop_last() =~= mesh.faces@.take(f as int));
                assert(next.last() == mesh.faces@[f as int]);
            }
            f = f + 1;
        }
        proof {
            lemma_totals_step(meshes@, m as int);
            assert(mesh.vertices@.take(mesh.vertices@.len() as int) =~= mesh.vertices@);
            assert(mesh.faces@.take(mesh.faces@.len() as int) =~= mesh.faces@);
        }
        m = m + 1;
    }
    proof {
        assert(meshes@.take(m as int) =~= meshes@);
    }
    (vertices, indices)
}

/// One geometry per submesh, in order, each with its range of the combined
/// buffers, and the draw-data record of each.
pub fn build_geometries(meshes: &Vec<SubMesh>) -> (built: (Vec<Geometry>, Vec<DrawData>))
    requires
        spec_fits(meshes@),
    ensures
        built.0@ == Seq::new(meshes@.len(), |i: int| spec_geometry(meshes@, i)),
        built.1@ == Seq::new(meshes@.len(), |i: int| spec_draw_data(meshes@, i)),
{
    let mut geometries: Vec<Geometry> = Vec::new();
    let mut draw_data: Vec<DrawData> = Vec::new();
    let mut base_index: usize = 0;
    let mut base_vertex: usize = 0;
    let mut id: usize = 0;
    while id < meshes.len()
        invariant
            id <= meshes.len(),
            spec_fits(meshes@),
            base_index == spec_total_indices(meshes@.take(id as int)),
            base_vertex == spec_total_vertices(meshes@.take(id as int)),
            geometries@ == Seq::new(id as nat, |i: int| spec_geometry(meshes@, i)),
            draw_data@ == Seq::new(id as nat, |i: int| spec_draw_data(meshes@, i)),
        decreases meshes.len() - id,
    {
        proof {
            lemma_totals_step(meshes@, id as int);
            lemma_totals_monotonic(meshes@, id as int + 1);
            lemma_totals_monotonic(meshes@, id as int);
        }
        let mesh = &meshes[id];
        let num_local_indices: usize = mesh.faces.len() * 3;
        let num_local_vertices: usize = mesh.vertices.len();
        geometries.push(Geometry { id, base_index, num_indices: num_local_indices, base_vertex });
        draw_data.push(DrawData { base_index: base_index as u32, base_vertex: base_vertex as u32 });
        base_index = base_index + num_local_indices;
        base_vertex = base_vertex + num_local_vertices;
        id = id + 1;
        assert(geometries@ =~= Seq::new(id as nat, |i: int| spec_geometry(meshes@, i)));
        assert(draw_data@ =~= Seq::new(id as nat, |i: int| spec_draw_data(meshes@, i)));
    }
    (geometries, draw_data)
}

/// An imported point light: its intensity and its transform, which has no
/// parent.
pub struct LightSource {
    pub intensity: u32,
    pub transform: [[u32; 4]; 4],
}

/// Why a scene could not be loaded.
#[derive(Clone, Copy, Debug, PartialEq, Eq, Structural)]
pub enum SceneLoadError {
    /// The scene has more vertices, indices, submeshes or lights than 32-bit
    /// sizes and counts can describe.
    SizeOverflow,
    /// A node's parent does not stand before the node.
    UnknownParent,
    /// A node places a submesh that the scene does not have.
    UnknownMesh,
    /// A descriptor slot the scene needs does not exist.
    DescriptorSlot,
    /// An image does not hold four bytes for each of its texels.
    ImageSize,
}

/// What is wrong with node `k`, if anything: its parent is looked at before
/// its submeshes.
pub open spec fn spec_node_error(node: Node, k: int, geometry_count: nat) -> Option<SceneLoadError> {
    if node.parent.is_some() && node.parent.unwrap() >= k {
        Some(SceneLoadError::UnknownParent)
    } else if exists|j: int| 0 <= j < node.meshes@.len() && node.meshes@[j] >= geometry_count {
        Some(SceneLoadError::UnknownMesh)
    } else {
        None
    }
}

/// What is wrong with the first node that has something wrong, if any has.
pub open spec fn spec_nodes_error(nodes: Seq<Node>, geometry_count: nat) -> Option<SceneLoadError>
    decreases nodes.len(),
{
    if nodes.len() == 0 {
        None
    } else {
        match spec_nodes_error(nodes.drop_last(), geometry_count) {
            Some(error) => Some(error),
            None => spec_node_error(nodes.last(), nodes.len() - 1, geometry_count),
        }
    }
}

/// Where nothing is wrong with the nodes, nothing is wrong with any of them,
/// nor with any prefix of them.
pub proof fn lemma_nodes_valid(nodes: Seq<Node>, geometry_count: nat, k: int)
    requires
        spec_nodes_error(nodes, geometry_count).is_none(),
        0 <= k < nodes.len(),
    ensures
        spec_node_error(nodes[k], k, geometry_count).is_none(),
        spec_nodes_error(nodes.take(k), geometry_count).is_none(),
        spec_nodes_error(nodes.take(k + 1), geometry_count).is_none(),
    decreases nodes.len(),
{
    if k == nodes.len() - 1 {
        assert(nodes.take(k) =~= nodes.drop_last());
        assert(nodes.take(k + 1) =~= nodes);
    } else {
        lemma_nodes_valid(nodes.drop_last(), geometry_count, k);
        assert(nodes.drop_last().take(k) =~= nodes.take(k));
        assert(nodes.drop_last().take(k + 1) =~= nodes.take(k + 1));
    }
}

/// Looks for the first node that has something wrong.
pub fn check_nodes(nodes: &Vec<Node>, geometry_count: usize) -> (checked: Result<(), SceneLoadError>)
    ensures
        match checked {
            Ok(_) => spec_nodes_error(nodes@, geometry_count as nat).is_none(),
            Err(error) => spec_nodes_error(nodes@, geometry_count as nat) == Some(error),
        },
{
    let mut k: usize = 0;
    while k < nodes.len()
        invariant
            k <= nodes.len(),
            spec_nodes_error(nodes@.take(k as int), geometry_count as nat).is_none(),
        decreases nodes.len() - k,
    {
        let node = &nodes[k];
        proof {
            assert(nodes@.take(k as int + 1).drop_last() =~= nodes@.take(k as int));
            assert(nodes@.take(k as int + 1).last() == nodes@[k as int]);
        }
        let parent_ok: bool = match node.parent {
            Some(p) => p < k,
            None => true,
        };
        if !parent_ok {
            proof {
                lemma_error_prefix(nodes@, geometry_count as nat, k as int + 1);
            }
            return Err(SceneLoadError::UnknownParent);
        }
        let mut j: usize = 0;
        while j < node.meshes.len()
            invariant
                j <= node.meshes.len(),
                k < nodes.len(),
                node == &nodes@[k as int],
                forall|i: int| 0 <= i < j ==> node.meshes@[i] < geometry_count,
                spec_nodes_error(nodes@.take(k as int), geometry_count as nat).is_none(),
                nodes@.take(k as int + 1).drop_last() == nodes@.take(k as int),
                nodes@.take(k as int + 1).last() == nodes@[k as int],
                !(node.parent.is_some() && node.parent.unwrap() >= k),
            decreases node.meshes.len() - j,
        {
            if node.meshes[j] as usize >= geometry_count {
                proof {
                    assert(0 <= j < node.meshes@.len() && node.meshes@[j as int] >= geometry_count);
                    lemma_error_prefix(nodes@, geometry_count as nat, k as int + 1);
                }
                return Err(SceneLoadError::UnknownMesh);
            }
            j = j + 1;
        }
        k = k + 1;
    }
    proof {
        assert(nodes@.take(k as int) =~= nodes@);
    }
    Ok(())
}

/// An error among the first `k` nodes is the error of all nodes.
pub proof fn lemma_error_prefix(nodes: Seq<Node>, geometry_count: nat, k: int)
    requires
        0 <= k <= nodes.len(),
        spec_nodes_error(nodes.take(k), geometry_count).is_some(),
    ensures
        spec_nodes_error(nodes, geometry_count) == spec_nodes_error(nodes.take(k), geometry_count),
    decreases nodes.len() - k,
{
    if k == nodes.len() {
        assert(nodes.take(k) =~= nodes);
    } else {
        assert(nodes.take(k + 1).drop_last() =~= nodes.take(k));
        lemma_error_prefix(nodes, geometry_count, k + 1);
    }
}

/// A light as the lighting pass reads it: where its transform moves the origin
/// and its intensity.
pub open spec fn spec_light_data(light: LightSource) -> lighting::PointLight {
    lighting::PointLight {
        position: [light.transform[3][0], light.transform[3][1], light.transform[3][2]],
        intensity: light.intensity,
    }
}

/// What is wrong with an imported scene, if anything: its size is looked at
/// before its nodes.
pub open spec fn spec_source_error(source: SceneSource) -> Option<SceneLoadError> {
    if !spec_fits(source.meshes@) {
        Some(SceneLoadError::SizeOverflow)
    } else {
        spec_nodes_error(source.nodes@, source.meshes@.len())
    }
}

/// Looks for what is wrong with an imported scene, and counts its vertices
/// and indices where nothing is.
pub fn check_source(source: &SceneSource) -> (checked: Result<(u32, u32), SceneLoadError>)
    ensures
        match checked {
            Ok(totals) => {
                &&& spec_source_error(*source).is_none()
                &&& totals.0 == spec_total_vertices(source.meshes@)
                &&& totals.1 == spec_total_indices(source.meshes@)
            },
            Err(error) => spec_source_error(*source) == Some(error),
        },
{
    let totals = match count_totals(&source.meshes) {
        Some(totals) => totals,
        None => {
            return Err(SceneLoadError::SizeOverflow);
        },
    };
    match check_nodes(&source.nodes, source.meshes.len()) {
        Ok(_) => Ok(totals),
        Err(error) => Err(error),
    }
}

} // verus!
