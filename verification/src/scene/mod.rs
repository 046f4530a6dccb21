//! The scene: entities with their components, the assets they refer to, and
//! the loader that turns an imported scene into both.
//!
//! Entities are indices. Each kind of component has a table with one place
//! per entity, so that the components of one entity stand at the same index
//! in every table.

use crate::gpu::ResourceId;
use crate::scene::geometry::DrawDataBuffer;
use crate::scene::light::{LightDataBuffer, PointLight};
use vstd::prelude::*;

pub mod camera;
pub mod geometry;
pub mod light;
pub mod loader;
pub mod source;
pub mod transform;

pub use self::camera::Camera;
pub use self::geometry::{Geometry, Instance, Mesh};
pub use self::loader::{SceneLoader, UploadResources};
pub use self::transform::LocalTransform;

verus! {

/// A texture of the scene.
#[derive(Clone, Copy, Debug, PartialEq, Eq, Structural)]
pub struct Texture {
    pub resource: ResourceId,
}

/// The run of slots in the shader-visible heap that holds the scene's texture
/// views.
#[derive(Clone, Copy, Debug, PartialEq, Eq, Structural)]
pub struct TextureViewGroup {
    pub start_id: usize,
}

/// A texture view by its place in the scene's texture view group.
#[derive(Clone, Copy, Debug, PartialEq, Eq, Structural)]
pub struct TextureView {
    pub id: usize,
}

/// Where a scene stands between being empty and being ready to draw.
#[derive(Clone, Copy, Debug, PartialEq, Eq, Structural)]
pub enum SceneState {
    Empty,
    Loading,
    Ready,
}

/// The entities of the scene and their components.
pub struct World {
    pub transforms: Vec<Option<LocalTransform>>,
    pub instances: Vec<Option<Instance>>,
    pub point_lights: Vec<Option<PointLight>>,
    /// The buffer the point lights were written to.
    pub light_buffer: Option<LightDataBuffer>,
}

/// What the entities of the scene refer to.
pub struct Assets {
    pub geometries: Vec<Geometry>,
    pub textures: Vec<Texture>,
    pub texture_views: Vec<TextureView>,
    pub mesh: Option<Mesh>,
    pub draw_data: Option<DrawDataBuffer>,
}

pub struct Scene {
    pub world: World,
    pub assets: Assets,
    pub texture_srvs: TextureViewGroup,
    /// The entities that are point lights, each at its place in the light
    /// buffer.
    pub point_lights: Vec<usize>,
    pub state: SceneState,
}

impl World {
    /// Every component table has one place per entity.
    pub open spec fn wf(&self) -> bool {
        &&& self.instances@.len() == self.transforms@.len()
        &&& self.point_lights@.len() == self.transforms@.len()
    }

    /// Number of entities.
    pub open spec fn spec_len(&self) -> nat {
        self.transforms@.len()
    }

    /// A world without entities.
    pub fn new() -> (world: World)
        ensures
            world.wf(),
            world.spec_len() == 0,
            world.light_buffer.is_none(),
    {
        World {
            transforms: Vec::new(),
            instances: Vec::new(),
            point_lights: Vec::new(),
            light_buffer: None,
        }
    }

    /// Number of entities.
    pub fn len(&self) -> (count: usize)
        ensures
            count == self.spec_len(),
    {
        self.transforms.len()
    }

    /// Creates an entity with the given components and returns its index.
    pub fn create_entity(
        &mut self,
        transform: Option<LocalTransform>,
        instance: Option<Instance>,
        point_light: Option<PointLight>,
    ) -> (entity: usize)
        requires
            old(self).wf(),
        ensures
            final(self).wf(),
            entity == old(self).spec_len(),
            final(self).transforms@ == old(self).transforms@.push(transform),
            final(self).instances@ == old(self).instances@.push(instance),
            final(self).point_lights@ == old(self).point_lights@.push(point_light),
            final(self).light_buffer == old(self).light_buffer,
    {
        let entity = self.transforms.len();
        self.transforms.push(transform);
        self.instances.push(instance);
        self.point_lights.push(point_light);
        entity
    }

    /// Removes every entity.
    pub fn delete_all(&mut self)
        ensures
            final(self).wf(),
            final(self).spec_len() == 0,
            final(self).light_buffer.is_none(),
    {
        self.transforms = Vec::new();
        self.instances = Vec::new();
        self.point_lights = Vec::new();
        self.light_buffer = None;
    }
}

impl Assets {
    /// Nothing is loaded.
    pub open spec fn spec_is_empty(&self) -> bool {
        &&& self.geometries@.len() == 0
        &&& self.textures@.len() == 0
        &&& self.texture_views@.len() == 0
        &&& self.mesh.is_none()
        &&& self.draw_data.is_none()
    }

    pub fn new() -> (assets: Assets)
        ensures
            assets.spec_is_empty(),
    {
        Assets {
            geometries: Vec::new(),
            textures: Vec::new(),
            texture_views: Vec::new(),
            mesh: None,
            draw_data: None,
        }
    }

    /// Removes every asset.
    pub fn delete_all(&mut self)
        ensures
            final(self).spec_is_empty(),
    {
        self.geometries = Vec::new();
        self.textures = Vec::new();
        self.texture_views = Vec::new();
        self.mesh = None;
        self.draw_data = None;
    }
}

impl Scene {
    /// The scene holds no entity and no asset.
    pub open spec fn spec_is_clear(&self) -> bool {
        &&& self.world.wf()
        &&& self.world.spec_len() == 0
        &&& self.world.light_buffer.is_none()
        &&& self.assets.spec_is_empty()
        &&& self.point_lights@.len() == 0
        &&& self.texture_srvs.start_id == 0
    }

    /// The component tables are aligned, every instance refers to a geometry
    /// of the scene, every light entity is an entity, and every parent was
    /// created before its child.
    pub open spec fn wf(&self) -> bool {
        &&& self.world.wf()
        &&& forall|e: int|
            0 <= e < self.world.instances@.len() ==> match #[trigger] self.world.instances@[e] {
                Some(instance) => instance.geometry < self.assets.geometries@.len(),
                None => true,
            }
        &&& forall|i: int|
            0 <= i < self.point_lights@.len() ==> #[trigger] self.point_lights@[i]
                < self.world.spec_len()
        &&& crate::scene::transform::spec_parents_first(self.world.transforms@)
    }

    /// An empty scene.
    pub fn new() -> (scene: Scene)
        ensures
            scene.spec_is_clear(),
            scene.wf(),
            scene.state == SceneState::Empty,
    {
        Scene {
            world: World::new(),
            assets: Assets::new(),
            texture_srvs: TextureViewGroup { start_id: 0 },
            point_lights: Vec::new(),
            state: SceneState::Empty,
        }
    }

    /// Tears the scene down: every entity and every asset goes. The slots its
    /// descriptors took are handed out again only after the owner of the
    /// descriptor heaps moves the cursors back.
    pub fn unload(&mut self)
        ensures
            final(self).spec_is_clear(),
            final(self).wf(),
            final(self).state == SceneState::Empty,
    {
        self.world.delete_all();
        self.assets.delete_all();
        self.point_lights = Vec::new();
        self.texture_srvs = TextureViewGroup { start_id: 0 };
        self.state = SceneState::Empty;
    }

    /// Number of entities.
    pub fn entity_count(&self) -> (count: usize)
        ensures
            count == self.world.spec_len(),
    {
        self.world.len()
    }

    /// Number of geometries.
    pub fn geometry_count(&self) -> (count: usize)
        ensures
            count == self.assets.geometries@.len(),
    {
        self.assets.geometries.len()
    }
}

} // verus!
