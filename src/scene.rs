//! The scene graph that the interpreter builds, and the ways a load fails.
use crate::params::Param;
use glam::{Mat4, Vec2};
use vstd::prelude::*;

verus! {

#[verifier::external_type_specification]
#[verifier::external_body]
pub struct ExVec2(Vec2);

/// Why a load stopped.
#[derive(Debug, Clone, Copy, PartialEq, Eq, Structural)]
pub enum LoadError {
    /// `AttributeEnd` with no open scope.
    UnbalancedScope,
    /// `ObjectBegin` while an object is being recorded.
    NestedObjects,
    /// A directive where it may not stand, such as `ObjectEnd` outside an object.
    ElementNotAllowed,
    /// A reference to an object or coordinate system that was never declared.
    NotFound,
    /// `TransformTimes` after `WorldBegin`.
    WorldAlreadyStarted,
    /// A directive that is recognized but not supported.
    UnsupportedFeature,
    /// `Attribute` for a kind other than shape, light, material, medium or texture.
    UnknownAttributeTarget,
    /// A second `Camera`, `Film`, `Integrator`, `Accelerator`, `PixelFilter` or `Sampler`.
    Duplicate,
    /// The input ended inside an attribute or object block.
    UnterminatedScope,
    /// The input ended without `WorldBegin`.
    WorldNotStarted,
    /// An `Include` was met by a load that has no way to read further sources.
    UnresolvedInclude,
}

/// An entity given by a type (or declared) name and its parameters, built by
/// the caller's constructors.
#[derive(Debug)]
pub struct Entity {
    pub ty: String,
    pub params: Vec<Param>,
}

#[derive(Debug)]
pub struct TextureEntity {
    pub name: String,
    pub ty: String,
    pub class: String,
    pub params: Vec<Param>,
}

#[derive(Debug)]
pub struct CameraEntity {
    pub ty: String,
    pub params: Vec<Param>,
    /// The world-from-camera transform.
    pub transform: Mat4,
}

#[derive(Debug)]
pub struct ShapeEntity {
    pub ty: String,
    pub params: Vec<Param>,
    /// If the shape is a part of an [Object], this is the transformation from
    /// object space to the instance's coordinate space.
    pub transform: Mat4,
    pub reverse_orientation: bool,
    pub material_index: Option<usize>,
    pub area_light_index: Option<usize>,
}

#[derive(Debug)]
pub struct Object {
    pub name: String,
    pub shape_start: Option<usize>,
    pub shape_count: usize,
    pub object_to_instance: Mat4,
}

#[derive(Debug)]
pub struct Instance {
    pub instance_to_world: Mat4,
    pub object_index: usize,
    pub area_light_index: Option<usize>,
    pub reverse_orientation: bool,
}

/// Everything a load produced. Entities refer to each other by index into
/// these vectors, which only ever grow.
#[derive(Debug)]
pub struct Scene {
    /// Start and end time of the animated transformation, if given.
    pub transform_times: Option<Vec2>,
    pub options: Vec<Param>,
    pub camera: Option<CameraEntity>,
    pub film: Option<Entity>,
    pub integrator: Option<Entity>,
    pub pixel_filter: Option<Entity>,
    pub accelerator: Option<Entity>,
    pub sampler: Option<Entity>,
    pub textures: Vec<TextureEntity>,
    pub materials: Vec<Entity>,
    pub lights: Vec<Entity>,
    pub area_lights: Vec<Entity>,
    pub mediums: Vec<Entity>,
    pub shapes: Vec<ShapeEntity>,
    pub objects: Vec<Object>,
    pub instances: Vec<Instance>,
}

impl Scene {
    pub open spec fn is_empty(&self) -> bool {
        &&& self.transform_times is None
        &&& self.options@.len() == 0
        &&& self.camera is None
        &&& self.film is None
        &&& self.integrator is None
        &&& self.pixel_filter is None
        &&& self.accelerator is None
        &&& self.sampler is None
        &&& self.textures@.len() == 0
        &&& self.materials@.len() == 0
        &&& self.lights@.len() == 0
        &&& self.area_lights@.len() == 0
        &&& self.mediums@.len() == 0
        &&& self.shapes@.len() == 0
        &&& self.objects@.len() == 0
        &&& self.instances@.len() == 0
    }

    /// A scene with nothing in it.
    pub fn empty() -> (r: Scene)
        ensures
            r.is_empty(),
    {
        Scene {
            transform_times: None,
            options: Vec::new(),
            camera: None,
            film: None,
            integrator: None,
            pixel_filter: None,
            accelerator: None,
            sampler: None,
            textures: Vec::new(),
            materials: Vec::new(),
            lights: Vec::new(),
            area_lights: Vec::new(),
            mediums: Vec::new(),
            shapes: Vec::new(),
            objects: Vec::new(),
            instances: Vec::new(),
        }
    }
}

} // verus!
