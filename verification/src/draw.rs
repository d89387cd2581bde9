//! What the renderer records for one model: one indexed draw per mesh, in the
//! order of the model's meshes, each with the material that the mesh names.
//! Bind group 0 is reserved for the material, 1 for the model's position
//! (its transform) and 2 for the camera.

use vstd::prelude::*;

verus! {

/// Bind group slot of a mesh's material.
pub const MATERIAL_BIND_GROUP: u32 = 0;

/// Bind group slot of the drawn model's transform.
pub const TRANSFORM_BIND_GROUP: u32 = 1;

/// Bind group slot of the camera.
pub const CAMERA_BIND_GROUP: u32 = 2;

/// Vertex buffer slot of a mesh's vertices.
pub const VERTEX_BUFFER_SLOT: u32 = 0;

/// What drawing reads of a mesh: the position of its material among the
/// model's materials, and how many indices it has.
#[derive(Clone, Copy, PartialEq, Eq, Structural, Debug)]
pub struct MeshDraw {
    pub material_index: u32,
    pub num_elements: u32,
}

/// One indexed draw: the mesh (by its position in the model), the material
/// bound with it (by its position in the model), and the indices
/// `0..index_count` drawn as one instance.
#[derive(Clone, Copy, PartialEq, Eq, Structural, Debug)]
pub struct DrawCall {
    pub mesh: usize,
    pub material: usize,
    pub index_count: u32,
}

/// The draw that a mesh at position `mesh` gets.
pub open spec fn draw_of(mesh: int, m: MeshDraw) -> DrawCall {
    DrawCall { mesh: mesh as usize, material: m.material_index as usize, index_count: m.num_elements }
}

/// Every mesh names one of the model's `material_count` materials.
pub open spec fn materials_in_range(meshes: Seq<MeshDraw>, material_count: usize) -> bool {
    forall|i: int| 0 <= i < meshes.len() ==> (#[trigger] meshes[i]).material_index < material_count
}

/// The draw a mesh gets is at the mesh's own position, with the material the
/// mesh names, over all of its indices.
pub proof fn lemma_draw_of_meaning(mesh: int, m: MeshDraw)
    requires
        0 <= mesh <= usize::MAX,
    ensures
        draw_of(mesh, m).mesh == mesh,
        draw_of(mesh, m).material == m.material_index as usize,
        draw_of(mesh, m).material as int == m.material_index as int,
        draw_of(mesh, m).index_count == m.num_elements,
{
}

/// `materials_in_range` holds exactly when every mesh's material index is
/// below the material count.
pub proof fn lemma_materials_in_range_meaning(meshes: Seq<MeshDraw>, material_count: usize)
    ensures
        materials_in_range(meshes, material_count) <==> (forall|i: int|
            0 <= i < meshes.len() ==> (#[trigger] meshes[i]).material_index < material_count),
{
}

/// The draws for a model with these meshes and `material_count` materials, in
/// the meshes' order, each with the material the mesh names. Drawing stops at
/// the first mesh that names no material of the model: the meshes before it
/// are drawn, it and those after it are not. The caller learns of such a mesh
/// by the plan being shorter than the mesh list; it is the mesh at the
/// plan's length.
pub fn plan_model(meshes: &Vec<MeshDraw>, material_count: usize) -> (draws: Vec<DrawCall>)
    ensures
        draws@.len() <= meshes@.len(),
        forall|i: int| 0 <= i < draws@.len() ==> #[trigger] draws@[i] == draw_of(i, meshes@[i]),
        forall|i: int| 0 <= i < draws@.len() ==> (#[trigger] draws@[i]).material < material_count,
        draws@.len() < meshes@.len() ==> meshes@[draws@.len() as int].material_index >= material_count,
        draws@.len() == meshes@.len() <==> materials_in_range(meshes@, material_count),
        forall|i: int|
            0 <= i < draws@.len() ==> {
                &&& (#[trigger] draws@[i]).mesh == i
                &&& draws@[i].material == meshes@[i].material_index as usize
                &&& draws@[i].index_count == meshes@[i].num_elements
                &&& meshes@[i].material_index < material_count
            },
        draws@.len() == meshes@.len() <==> (forall|i: int|
            0 <= i < meshes@.len() ==> (#[trigger] meshes@[i]).material_index < material_count),
{
    let mut draws: Vec<DrawCall> = Vec::new();
    let mut i: usize = 0;
    while i < meshes.len()
        invariant
            i <= meshes@.len(),
            draws@.len() == i,
            forall|j: int| 0 <= j < i ==> #[trigger] draws@[j] == draw_of(j, meshes@[j]),
            materials_in_range(meshes@.take(i as int), material_count),
        decreases meshes@.len() - i,
    {
        let m = meshes[i];
        if m.material_index as usize >= material_count {
            proof {
                assert(!materials_in_range(meshes@, material_count)) by {
                    assert(meshes@[i as int] == m);
                }
                assert forall|k: int| 0 <= k < draws@.len() implies (#[trigger] draws@[k]).material < material_count by {
                    assert(meshes@.take(i as int)[k] == meshes@[k]);
                }
            }
            return draws;
        }
        draws.push(DrawCall { mesh: i, material: m.material_index as usize, index_count: m.num_elements });
        proof {
            assert forall|k: int| 0 <= k < i + 1 implies (#[trigger] meshes@.take(i + 1)[k]).material_index < material_count by {
                if k < i {
                    assert(meshes@.take(i + 1)[k] == meshes@.take(i as int)[k]);
                }
            }
        }
        i = i + 1;
    }
    proof {
        assert(meshes@.take(i as int) == meshes@);
        assert forall|k: int| 0 <= k < draws@.len() implies (#[trigger] draws@[k]).material < material_count by {
            assert(meshes@[k].material_index < material_count);
        }
    }
    draws
}

} // verus!
