//! The interpreter session: graphics state and its scope stack, the named
//! tables, and the scene under construction, with one handler per directive.
use crate::directive::{has_gzip_suffix, is_gzip_path, parse_target, target_of, AttributeTarget, Directive};
use crate::params::{extend_params, Param};
use crate::scene::{CameraEntity, Entity, Instance, LoadError, Object, Scene, ShapeEntity, TextureEntity};
use crate::state::GraphicsState;
use crate::tables::NameTable;
use crate::transform::{
    from_angle_axis, from_scale, from_translation, identity, inverse, inverse_of, look_at,
    look_at_of, mat_mul, product_of, scaling_of, translation_of,
};
use glam::{Mat4, Vec2};
use vstd::prelude::*;

verus! {

/// One coherent load in progress.
#[derive(Debug)]
pub struct Session {
    pub scene: Scene,
    pub state: GraphicsState,
    /// Snapshots saved by `AttributeBegin` and `ObjectBegin`.
    pub stack: Vec<GraphicsState>,
    /// Whether `WorldBegin` has been seen.
    pub world_started: bool,
    /// The identity matrix, as glam gives it: what `Identity` and
    /// `WorldBegin` reset the current transform to. `Session::new` sets it;
    /// the handlers never change it.
    pub identity: Mat4,
    pub coord_systems: NameTable<Mat4>,
    pub named_textures: NameTable<usize>,
    pub named_materials: NameTable<usize>,
    pub named_mediums: NameTable<usize>,
    pub named_objects: NameTable<usize>,
}

/// Every index that a graphics state holds points into the scene; a
/// recording state's shapes are among the scene's shapes.
pub open spec fn state_fits(s: GraphicsState, scene: Scene) -> bool {
    &&& (s.active_object matches Some(i) ==> i < scene.objects@.len() && s.shape_count
        <= scene.shapes@.len())
    &&& (s.material_index matches Some(i) ==> i < scene.materials@.len())
    &&& (s.area_light_index matches Some(i) ==> i < scene.area_lights@.len())
}

/// The indices a shape holds point into the scene.
pub open spec fn shape_fits(e: ShapeEntity, scene: Scene) -> bool {
    &&& (e.material_index matches Some(i) ==> i < scene.materials@.len())
    &&& (e.area_light_index matches Some(i) ==> i < scene.area_lights@.len())
}

/// Every index `b` has room for, `a` has too: `b` only grew from `a`.
pub open spec fn grows(a: Scene, b: Scene) -> bool {
    &&& a.objects@.len() <= b.objects@.len()
    &&& a.shapes@.len() <= b.shapes@.len()
    &&& a.materials@.len() <= b.materials@.len()
    &&& a.area_lights@.len() <= b.area_lights@.len()
}

impl Session {
    /// The session's invariant: every index it holds, in the graphics state,
    /// the saved states, the named tables, the shapes and the instances,
    /// points into the vector it indexes.
    pub open spec fn wf(&self) -> bool {
        &&& state_fits(self.state, self.scene)
        &&& forall|k: Seq<char>|
            #[trigger] self.named_objects.get(k) matches Some(i) ==> i < self.scene.objects@.len()
        &&& forall|k: Seq<char>|
            #[trigger] self.named_materials.get(k) matches Some(i) ==> i
                < self.scene.materials@.len()
        &&& forall|k: Seq<char>|
            #[trigger] self.named_textures.get(k) matches Some(i) ==> i < self.scene.textures@.len()
        &&& forall|k: Seq<char>|
            #[trigger] self.named_mediums.get(k) matches Some(i) ==> i < self.scene.mediums@.len()
        &&& forall|j: int|
            0 <= j < self.scene.shapes@.len() ==> shape_fits(#[trigger] self.scene.shapes@[j], self.scene)
        &&& forall|j: int|
            0 <= j < self.scene.instances@.len() ==> (#[trigger] self.scene.instances@[j]).object_index
                < self.scene.objects@.len()
        &&& forall|i: int|
            0 <= i < self.stack@.len() ==> state_fits(#[trigger] self.stack@[i], self.scene)
    }

    /// The state of a session at the start of a load: empty scene, tables,
    /// stack and parameter overlays, no media, no current material, area light
    /// or object, the identity as the current transform.
    pub open spec fn is_initial(&self) -> bool {
        &&& self.wf()
        &&& self.scene.is_empty()
        &&& self.stack@.len() == 0
        &&& !self.world_started
        &&& self.state.transform == self.identity
        &&& !self.state.reverse_orientation
        &&& self.state.active_object is None
        &&& self.state.material_index is None
        &&& self.state.area_light_index is None
        &&& forall|k: Seq<char>| #[trigger] self.named_objects.get(k) is None
        &&& forall|k: Seq<char>| #[trigger] self.coord_systems.get(k) is None
        &&& forall|k: Seq<char>| #[trigger] self.named_materials.get(k) is None
        &&& forall|k: Seq<char>| #[trigger] self.named_textures.get(k) is None
        &&& forall|k: Seq<char>| #[trigger] self.named_mediums.get(k) is None
        &&& self.state.inside_medium is None
        &&& self.state.outside_medium is None
        &&& self.state.shape_count == 0
        &&& self.state.shape_params@.len() == 0
        &&& self.state.light_params@.len() == 0
        &&& self.state.material_params@.len() == 0
        &&& self.state.medium_params@.len() == 0
        &&& self.state.texture_params@.len() == 0
    }

    pub fn new() -> (r: Session)
        ensures
            r.is_initial(),
    {
        let id = identity();
        Session {
            scene: Scene::empty(),
            state: GraphicsState::new(id),
            stack: Vec::new(),
            world_started: false,
            identity: id,
            coord_systems: NameTable::new(),
            named_textures: NameTable::new(),
            named_materials: NameTable::new(),
            named_mediums: NameTable::new(),
            named_objects: NameTable::new(),
        }
    }

    // ---- scopes ----
    pub open spec fn attribute_begin_post(pre: Session, post: Session) -> bool {
        &&& post == Session { stack: post.stack, ..pre }
        &&& post.stack@.len() == pre.stack@.len() + 1
        &&& post.stack@.drop_last() == pre.stack@
        &&& post.stack@.last().same(&pre.state)
    }

    /// `AttributeBegin`: saves a copy of the graphics state.
    pub fn attribute_begin(&mut self)
        requires
            old(self).wf(),
        ensures
            final(self).wf(),
            Self::attribute_begin_post(*old(self), *final(self)),
    {
        let snapshot = self.state.duplicate();
        self.stack.push(snapshot);
        assert(self.stack@.drop_last() =~= old(self).stack@);
        assert forall|i: int| 0 <= i < self.stack@.len() implies state_fits(#[trigger] self.stack@[i], self.scene) by {
            if i < old(self).stack@.len() {
                assert(self.stack@[i] == old(self).stack@[i]);
            }
        }
    }

    pub open spec fn attribute_end_post(pre: Session, post: Session, r: Result<(), LoadError>) -> bool {
        if pre.stack@.len() == 0 {
            r == Err::<(), LoadError>(LoadError::UnbalancedScope) && post == pre
        } else {
            &&& r is Ok
            &&& post == Session { stack: post.stack, state: pre.stack@.last(), ..pre }
            &&& post.stack@ == pre.stack@.drop_last()
        }
    }

    /// `AttributeEnd`: restores the most recently saved graphics state.
    pub fn attribute_end(&mut self) -> (r: Result<(), LoadError>)
        requires
            old(self).wf(),
        ensures
            final(self).wf(),
            Self::attribute_end_post(*old(self), *final(self), r),
    {
        if self.stack.len() == 0 {
            return Err(LoadError::UnbalancedScope);
        }
        match self.stack.pop() {
            Some(s) => {
                self.state = s;
                assert(state_fits(old(self).stack@[old(self).stack@.len() - 1], self.scene));
                assert forall|i: int| 0 <= i < self.stack@.len() implies state_fits(#[trigger] self.stack@[i], self.scene) by {
                    assert(self.stack@[i] == old(self).stack@[i]);
                }
                Ok(())
            },
            None => Err(LoadError::UnbalancedScope),
        }
    }

    // ---- graphics state ----
    pub open spec fn reverse_orientation_post(pre: Session, post: Session) -> bool {
        post == Session {
            state: GraphicsState { reverse_orientation: !pre.state.reverse_orientation, ..pre.state },
            ..pre
        }
    }

    /// `ReverseOrientation`: toggles the flag.
    pub fn reverse_orientation(&mut self)
        requires
            old(self).wf(),
        ensures
            final(self).wf(),
            Self::reverse_orientation_post(*old(self), *final(self)),
    {
        self.state.reverse_orientation = !self.state.reverse_orientation;
    }

    pub open spec fn set_transform_post(pre: Session, post: Session, m: Mat4) -> bool {
        post == Session { state: GraphicsState { transform: m, ..pre.state }, ..pre }
    }

    /// `Transform` (and `Identity` with the identity): replaces the current transform.
    pub fn set_transform(&mut self, m: Mat4)
        requires
            old(self).wf(),
        ensures
            final(self).wf(),
            Self::set_transform_post(*old(self), *final(self), m),
    {
        self.state.transform = m;
    }

    /// The transform directives other than `Transform`: post-multiplies the
    /// current transform by `m`.
    pub fn concat_transform(&mut self, m: Mat4)
        requires
            old(self).wf(),
        ensures
            final(self).wf(),
            Self::set_transform_post(*old(self), *final(self), product_of(old(self).state.transform, m)),
    {
        self.state.transform = mat_mul(&self.state.transform, &m);
    }

    pub open spec fn medium_interface_post(pre: Session, post: Session, interior: String, exterior: String) -> bool {
        post == Session {
            state: GraphicsState {
                inside_medium: Some(interior),
                outside_medium: Some(exterior),
                ..pre.state
            },
            ..pre
        }
    }

    /// `MediumInterface`: records the two medium names, unresolved.
    pub fn medium_interface(&mut self, interior: String, exterior: String)
        requires
            old(self).wf(),
        ensures
            final(self).wf(),
            Self::medium_interface_post(*old(self), *final(self), interior, exterior),
    {
        self.state.inside_medium = Some(interior);
        self.state.outside_medium = Some(exterior);
    }
}


/// The pending parameter overlay for one kind of entity.
pub open spec fn overlay_of(s: GraphicsState, t: AttributeTarget) -> Seq<Param> {
    match t {
        AttributeTarget::Shape => s.shape_params@,
        AttributeTarget::Light => s.light_params@,
        AttributeTarget::Material => s.material_params@,
        AttributeTarget::Medium => s.medium_params@,
        AttributeTarget::Texture => s.texture_params@,
    }
}

pub open spec fn set_once_post(
    pre: Option<Entity>,
    post: Option<Entity>,
    ty: String,
    params: Vec<Param>,
    r: Result<(), LoadError>,
) -> bool {
    if pre is Some {
        r == Err::<(), LoadError>(LoadError::Duplicate) && post == pre
    } else {
        r is Ok && post == Some(Entity { ty, params })
    }
}

/// Fills a slot that a directive may fill at most once.
pub fn set_once(slot: &mut Option<Entity>, ty: String, params: Vec<Param>) -> (r: Result<(), LoadError>)
    ensures
        set_once_post(*old(slot), *final(slot), ty, params, r),
{
    if slot.is_some() {
        return Err(LoadError::Duplicate);
    }
    *slot = Some(Entity { ty, params });
    Ok(())
}

/// The name under which `Camera` records the camera frame.
pub open spec fn camera_frame_name() -> Seq<char> {
    "camera"@
}

impl Session {
    pub open spec fn attribute_post(
        pre: Session,
        post: Session,
        target: String,
        params: Vec<Param>,
        r: Result<(), LoadError>,
    ) -> bool {
        match target_of(target@) {
            None => r == Err::<(), LoadError>(LoadError::UnknownAttributeTarget) && post == pre,
            Some(t) => {
                &&& r is Ok
                &&& post == Session {
                    state: GraphicsState {
                        shape_params: post.state.shape_params,
                        light_params: post.state.light_params,
                        material_params: post.state.material_params,
                        medium_params: post.state.medium_params,
                        texture_params: post.state.texture_params,
                        ..pre.state
                    },
                    ..pre
                }
                &&& overlay_of(post.state, t) == overlay_of(pre.state, t) + params@
                &&& forall|u: AttributeTarget|
                    u != t ==> #[trigger] overlay_of(post.state, u) == overlay_of(pre.state, u)
            },
        }
    }

    /// `Attribute`: adds parameters to the pending overlay of one kind.
    pub fn attribute(&mut self, target: String, params: Vec<Param>) -> (r: Result<(), LoadError>)
        requires
            old(self).wf(),
        ensures
            final(self).wf(),
            Self::attribute_post(*old(self), *final(self), target, params, r),
    {
        match parse_target(&target) {
            None => Err(LoadError::UnknownAttributeTarget),
            Some(AttributeTarget::Shape) => {
                extend_params(&mut self.state.shape_params, &params);
                Ok(())
            },
            Some(AttributeTarget::Light) => {
                extend_params(&mut self.state.light_params, &params);
                Ok(())
            },
            Some(AttributeTarget::Material) => {
                extend_params(&mut self.state.material_params, &params);
                Ok(())
            },
            Some(AttributeTarget::Medium) => {
                extend_params(&mut self.state.medium_params, &params);
                Ok(())
            },
            Some(AttributeTarget::Texture) => {
                extend_params(&mut self.state.texture_params, &params);
                Ok(())
            },
        }
    }

    pub open spec fn coordinate_system_post(pre: Session, post: Session, name: String) -> bool {
        &&& post == Session { coord_systems: post.coord_systems, ..pre }
        &&& post.coord_systems.get(name@) == Some(pre.state.transform)
        &&& forall|k: Seq<char>|
            k != name@ ==> #[trigger] post.coord_systems.get(k) == pre.coord_systems.get(k)
    }

    /// `CoordinateSystem`: records the current transform under a name.
    pub fn coordinate_system(&mut self, name: String)
        requires
            old(self).wf(),
        ensures
            final(self).wf(),
            Self::coordinate_system_post(*old(self), *final(self), name),
    {
        let m = self.state.transform;
        self.coord_systems.define(name, m);
    }

    pub open spec fn coord_sys_transform_post(
        pre: Session,
        post: Session,
        name: String,
        r: Result<(), LoadError>,
    ) -> bool {
        match pre.coord_systems.get(name@) {
            None => r == Err::<(), LoadError>(LoadError::NotFound) && post == pre,
            Some(m) => r is Ok && Self::set_transform_post(pre, post, m),
        }
    }

    /// `CoordSysTransform`: makes a recorded transform current again.
    pub fn coord_sys_transform(&mut self, name: String) -> (r: Result<(), LoadError>)
        requires
            old(self).wf(),
        ensures
            final(self).wf(),
            Self::coord_sys_transform_post(*old(self), *final(self), name, r),
    {
        match self.coord_systems.resolve(&name) {
            Some(m) => {
                self.state.transform = m;
                Ok(())
            },
            None => Err(LoadError::NotFound),
        }
    }

    pub open spec fn camera_post(
        pre: Session,
        post: Session,
        ty: String,
        params: Vec<Param>,
        r: Result<(), LoadError>,
    ) -> bool {
        if pre.scene.camera is Some {
            r == Err::<(), LoadError>(LoadError::Duplicate) && post == pre
        } else {
            let world_from_camera = inverse_of(pre.state.transform);
            &&& r is Ok
            &&& post == Session {
                scene: Scene { camera: post.scene.camera, ..pre.scene },
                coord_systems: post.coord_systems,
                ..pre
            }
            &&& post.scene.camera == Some(CameraEntity { ty, params, transform: world_from_camera })
            &&& post.coord_systems.get(camera_frame_name()) == Some(world_from_camera)
            &&& forall|k: Seq<char>|
                k != camera_frame_name() ==> #[trigger] post.coord_systems.get(k)
                    == pre.coord_systems.get(k)
        }
    }

    /// `Camera`: stores the one camera, with the inverse of the current
    /// transform as its world-from-camera transform, and records that
    /// transform as the "camera" coordinate system.
    pub fn camera(&mut self, ty: String, params: Vec<Param>) -> (r: Result<(), LoadError>)
        requires
            old(self).wf(),
        ensures
            final(self).wf(),
            Self::camera_post(*old(self), *final(self), ty, params, r),
    {
        if self.scene.camera.is_some() {
            return Err(LoadError::Duplicate);
        }
        let world_from_camera = inverse(&self.state.transform);
        proof {
            reveal_strlit("camera");
        }
        self.coord_systems.define(String::from_str("camera"), world_from_camera);
        self.scene.camera = Some(CameraEntity { ty, params, transform: world_from_camera });
        Ok(())
    }

    pub open spec fn transform_times_post(
        pre: Session,
        post: Session,
        times: Vec2,
        r: Result<(), LoadError>,
    ) -> bool {
        if pre.world_started {
            r == Err::<(), LoadError>(LoadError::WorldAlreadyStarted) && post == pre
        } else {
            r is Ok && post == Session {
                scene: Scene { transform_times: Some(times), ..pre.scene },
                ..pre
            }
        }
    }

    /// `TransformTimes`: records the animation interval; only before `WorldBegin`.
    pub fn transform_times(&mut self, times: Vec2) -> (r: Result<(), LoadError>)
        requires
            old(self).wf(),
        ensures
            final(self).wf(),
            Self::transform_times_post(*old(self), *final(self), times, r),
    {
        if self.world_started {
            return Err(LoadError::WorldAlreadyStarted);
        }
        self.scene.transform_times = Some(times);
        Ok(())
    }

    pub open spec fn world_begin_post(pre: Session, post: Session) -> bool {
        post == Session {
            world_started: true,
            state: GraphicsState { transform: pre.identity, ..pre.state },
            ..pre
        }
    }

    /// `WorldBegin`: starts the world block and resets the current transform.
    pub fn world_begin(&mut self)
        requires
            old(self).wf(),
        ensures
            final(self).wf(),
            Self::world_begin_post(*old(self), *final(self)),
    {
        self.world_started = true;
        self.state.transform = self.identity;
    }

    pub open spec fn option_post(pre: Session, post: Session, param: Param) -> bool {
        &&& post == Session { scene: Scene { options: post.scene.options, ..pre.scene }, ..pre }
        &&& post.scene.options@ == pre.scene.options@.push(param)
    }

    /// `Option`: records a global option.
    pub fn option(&mut self, param: Param)
        requires
            old(self).wf(),
        ensures
            final(self).wf(),
            Self::option_post(*old(self), *final(self), param),
    {
        self.scene.options.push(param);
    }
}


/// `post` is `pre` with one element added at the end.
pub open spec fn appended<T>(post: Seq<T>, pre: Seq<T>) -> bool {
    post.len() == pre.len() + 1 && post.drop_last() == pre
}

/// An entity built from explicit parameters, followed by the pending overlay.
pub open spec fn entity_made(e: Entity, ty: String, params: Vec<Param>, overlay: Seq<Param>) -> bool {
    e.ty == ty && e.params@ == params@ + overlay
}

/// Explicit parameters followed by a copy of an overlay.
fn merged(params: Vec<Param>, overlay: &Vec<Param>) -> (r: Vec<Param>)
    ensures
        r@ == params@ + overlay@,
{
    let mut p = params;
    extend_params(&mut p, overlay);
    p
}

impl Session {
    /// Growing the scene's shapes and objects keeps every saved state well formed.
    proof fn lemma_stack_grows(stack: Seq<GraphicsState>, a: Scene, b: Scene)
        requires
            grows(a, b),
            forall|i: int| 0 <= i < stack.len() ==> state_fits(#[trigger] stack[i], a),
        ensures
            forall|i: int| 0 <= i < stack.len() ==> state_fits(#[trigger] stack[i], b),
    {
    }

    pub open spec fn texture_post(
        pre: Session,
        post: Session,
        name: String,
        ty: String,
        class: String,
        params: Vec<Param>,
    ) -> bool {
        let e = post.scene.textures@.last();
        &&& post == Session {
            scene: Scene { textures: post.scene.textures, ..pre.scene },
            named_textures: post.named_textures,
            ..pre
        }
        &&& appended(post.scene.textures@, pre.scene.textures@)
        &&& e.name == name && e.ty == ty && e.class == class
        &&& e.params@ == params@ + pre.state.texture_params@
        &&& post.named_textures.get(name@) == Some(pre.scene.textures@.len() as usize)
        &&& forall|k: Seq<char>|
            k != name@ ==> #[trigger] post.named_textures.get(k) == pre.named_textures.get(k)
    }

    /// `Texture`: adds a named texture.
    pub fn texture(&mut self, name: String, ty: String, class: String, params: Vec<Param>)
        requires
            old(self).wf(),
        ensures
            final(self).wf(),
            Self::texture_post(*old(self), *final(self), name, ty, class, params),
    {
        let p = merged(params, &self.state.texture_params);
        let index = self.scene.textures.len();
        self.scene.textures.push(TextureEntity { name: name.clone(), ty, class, params: p });
        assert(self.scene.textures@.drop_last() =~= old(self).scene.textures@);
        self.named_textures.define(name, index);
    }

    pub open spec fn material_post(pre: Session, post: Session, ty: String, params: Vec<Param>) -> bool {
        &&& post == Session {
            scene: Scene { materials: post.scene.materials, ..pre.scene },
            state: GraphicsState {
                material_index: Some(pre.scene.materials@.len() as usize),
                ..pre.state
            },
            ..pre
        }
        &&& appended(post.scene.materials@, pre.scene.materials@)
        &&& entity_made(post.scene.materials@.last(), ty, params, pre.state.material_params@)
    }

    /// `Material`: adds a material and makes it current.
    pub fn material(&mut self, ty: String, params: Vec<Param>)
        requires
            old(self).wf(),
        ensures
            final(self).wf(),
            Self::material_post(*old(self), *final(self), ty, params),
    {
        let p = merged(params, &self.state.material_params);
        let index = self.scene.materials.len();
        self.scene.materials.push(Entity { ty, params: p });
        assert(self.scene.materials@.drop_last() =~= old(self).scene.materials@);
        self.state.material_index = Some(index);
    }

    pub open spec fn make_named_material_post(
        pre: Session,
        post: Session,
        name: String,
        params: Vec<Param>,
    ) -> bool {
        &&& post == Session {
            scene: Scene { materials: post.scene.materials, ..pre.scene },
            named_materials: post.named_materials,
            ..pre
        }
        &&& appended(post.scene.materials@, pre.scene.materials@)
        &&& entity_made(post.scene.materials@.last(), name, params, pre.state.material_params@)
        &&& post.named_materials.get(name@) == Some(pre.scene.materials@.len() as usize)
        &&& forall|k: Seq<char>|
            k != name@ ==> #[trigger] post.named_materials.get(k) == pre.named_materials.get(k)
    }

    /// `MakeNamedMaterial`: adds a material under a name, without making it current.
    pub fn make_named_material(&mut self, name: String, params: Vec<Param>)
        requires
            old(self).wf(),
        ensures
            final(self).wf(),
            Self::make_named_material_post(*old(self), *final(self), name, params),
    {
        let p = merged(params, &self.state.material_params);
        let index = self.scene.materials.len();
        self.scene.materials.push(Entity { ty: name.clone(), params: p });
        assert(self.scene.materials@.drop_last() =~= old(self).scene.materials@);
        self.named_materials.define(name, index);
    }

    pub open spec fn named_material_post(pre: Session, post: Session, name: String) -> bool {
        post == Session {
            state: GraphicsState { material_index: pre.named_materials.get(name@), ..pre.state },
            ..pre
        }
    }

    /// `NamedMaterial`: makes a named material current; an unknown name leaves
    /// no material current.
    pub fn named_material(&mut self, name: String)
        requires
            old(self).wf(),
        ensures
            final(self).wf(),
            Self::named_material_post(*old(self), *final(self), name),
    {
        self.state.material_index = self.named_materials.resolve(&name);
    }

    pub open spec fn light_source_post(pre: Session, post: Session, ty: String, params: Vec<Param>) -> bool {
        &&& post == Session { scene: Scene { lights: post.scene.lights, ..pre.scene }, ..pre }
        &&& appended(post.scene.lights@, pre.scene.lights@)
        &&& entity_made(post.scene.lights@.last(), ty, params, pre.state.light_params@)
    }

    /// `LightSource`: adds a light.
    pub fn light_source(&mut self, ty: String, params: Vec<Param>)
        requires
            old(self).wf(),
        ensures
            final(self).wf(),
            Self::light_source_post(*old(self), *final(self), ty, params),
    {
        let p = merged(params, &self.state.light_params);
        self.scene.lights.push(Entity { ty, params: p });
        assert(self.scene.lights@.drop_last() =~= old(self).scene.lights@);
    }

    pub open spec fn area_light_source_post(
        pre: Session,
        post: Session,
        ty: String,
        params: Vec<Param>,
    ) -> bool {
        &&& post == Session {
            scene: Scene { area_lights: post.scene.area_lights, ..pre.scene },
            state: GraphicsState {
                area_light_index: Some(pre.scene.area_lights@.len() as usize),
                ..pre.state
            },
            ..pre
        }
        &&& appended(post.scene.area_lights@, pre.scene.area_lights@)
        &&& entity_made(post.scene.area_lights@.last(), ty, params, pre.state.light_params@)
    }

    /// `AreaLightSource`: adds an area light and makes it current.
    pub fn area_light_source(&mut self, ty: String, params: Vec<Param>)
        requires
            old(self).wf(),
        ensures
            final(self).wf(),
            Self::area_light_source_post(*old(self), *final(self), ty, params),
    {
        let p = merged(params, &self.state.light_params);
        let index = self.scene.area_lights.len();
        self.scene.area_lights.push(Entity { ty, params: p });
        assert(self.scene.area_lights@.drop_last() =~= old(self).scene.area_lights@);
        self.state.area_light_index = Some(index);
    }

    pub open spec fn make_named_medium_post(
        pre: Session,
        post: Session,
        name: String,
        params: Vec<Param>,
    ) -> bool {
        &&& post == Session {
            scene: Scene { mediums: post.scene.mediums, ..pre.scene },
            named_mediums: post.named_mediums,
            ..pre
        }
        &&& appended(post.scene.mediums@, pre.scene.mediums@)
        &&& entity_made(post.scene.mediums@.last(), name, params, pre.state.medium_params@)
        &&& post.named_mediums.get(name@) == Some(pre.scene.mediums@.len() as usize)
        &&& forall|k: Seq<char>|
            k != name@ ==> #[trigger] post.named_mediums.get(k) == pre.named_mediums.get(k)
    }

    /// `MakeNamedMedium`: adds a medium under a name.
    pub fn make_named_medium(&mut self, name: String, params: Vec<Param>)
        requires
            old(self).wf(),
        ensures
            final(self).wf(),
            Self::make_named_medium_post(*old(self), *final(self), name, params),
    {
        let p = merged(params, &self.state.medium_params);
        let index = self.scene.mediums.len();
        self.scene.mediums.push(Entity { ty: name.clone(), params: p });
        assert(self.scene.mediums@.drop_last() =~= old(self).scene.mediums@);
        self.named_mediums.define(name, index);
    }

    pub open spec fn shape_post(pre: Session, post: Session, ty: String, params: Vec<Param>) -> bool {
        let e = post.scene.shapes@.last();
        &&& post == Session {
            scene: Scene { shapes: post.scene.shapes, ..pre.scene },
            state: GraphicsState { shape_count: post.state.shape_count, ..pre.state },
            ..pre
        }
        &&& appended(post.scene.shapes@, pre.scene.shapes@)
        &&& e.ty == ty && e.params@ == params@ + pre.state.shape_params@
        &&& e.transform == pre.state.transform
        &&& e.reverse_orientation == pre.state.reverse_orientation
        &&& e.material_index == pre.state.material_index
        &&& e.area_light_index == pre.state.area_light_index
        &&& post.state.shape_count == if pre.state.active_object is Some {
            pre.state.shape_count + 1
        } else {
            pre.state.shape_count as int
        }
    }

    /// `Shape`: adds a shape with the current transform, orientation, material
    /// and area light, and counts it if an object is being recorded.
    pub fn shape(&mut self, ty: String, params: Vec<Param>)
        requires
            old(self).wf(),
        ensures
            final(self).wf(),
            Self::shape_post(*old(self), *final(self), ty, params),
    {
        let p = merged(params, &self.state.shape_params);
        let entity = ShapeEntity {
            ty,
            params: p,
            transform: self.state.transform,
            reverse_orientation: self.state.reverse_orientation,
            material_index: self.state.material_index,
            area_light_index: self.state.area_light_index,
        };
        self.scene.shapes.push(entity);
        assert(self.scene.shapes@.drop_last() =~= old(self).scene.shapes@);
        // The count stays within the number of shapes, which fits in a usize.
        let _n = self.scene.shapes.len();
        if self.state.active_object.is_some() {
            self.state.shape_count = self.state.shape_count + 1;
        }
        proof {
            Self::lemma_stack_grows(self.stack@, old(self).scene, self.scene);
        }
    }

    pub open spec fn object_begin_post(
        pre: Session,
        post: Session,
        name: String,
        r: Result<(), LoadError>,
    ) -> bool {
        if pre.state.active_object is Some {
            r == Err::<(), LoadError>(LoadError::NestedObjects) && post == pre
        } else {
            let n = pre.scene.objects@.len() as usize;
            let o = post.scene.objects@.last();
            &&& r is Ok
            &&& post == Session {
                scene: Scene { objects: post.scene.objects, ..pre.scene },
                stack: post.stack,
                state: GraphicsState { active_object: Some(n), shape_count: 0, ..pre.state },
                named_objects: post.named_objects,
                ..pre
            }
            &&& appended(post.stack@, pre.stack@)
            &&& post.stack@.last().same(&pre.state)
            &&& appended(post.scene.objects@, pre.scene.objects@)
            &&& o.name == name && o.shape_start is None && o.shape_count == 0
            &&& o.object_to_instance == pre.state.transform
            &&& post.named_objects.get(name@) == Some(n)
            &&& forall|k: Seq<char>|
                k != name@ ==> #[trigger] post.named_objects.get(k) == pre.named_objects.get(k)
        }
    }

    /// `ObjectBegin`: opens a scope and starts recording a new object template.
    pub fn object_begin(&mut self, name: String) -> (r: Result<(), LoadError>)
        requires
            old(self).wf(),
        ensures
            final(self).wf(),
            Self::object_begin_post(*old(self), *final(self), name, r),
    {
        if self.state.active_object.is_some() {
            return Err(LoadError::NestedObjects);
        }
        let snapshot = self.state.duplicate();
        self.stack.push(snapshot);
        let index = self.scene.objects.len();
        self.scene.objects.push(
            Object {
                name: name.clone(),
                shape_start: None,
                shape_count: 0,
                object_to_instance: self.state.transform,
            },
        );
        assert(self.scene.objects@.drop_last() =~= old(self).scene.objects@);
        self.state.active_object = Some(index);
        self.state.shape_count = 0;
        self.named_objects.define(name, index);
        proof {
            Self::lemma_stack_grows(old(self).stack@, old(self).scene, self.scene);
            assert(self.stack@.drop_last() =~= old(self).stack@);
            assert forall|i: int| 0 <= i < self.stack@.len() implies state_fits(#[trigger] self.stack@[i], self.scene) by {
                if i < old(self).stack@.len() {
                    assert(self.stack@[i] == old(self).stack@[i]);
                }
            }
        }
        Ok(())
    }

    pub open spec fn object_end_post(pre: Session, post: Session, r: Result<(), LoadError>) -> bool {
        match pre.state.active_object {
            None => r == Err::<(), LoadError>(LoadError::ElementNotAllowed) && post == pre,
            Some(i) => if pre.stack@.len() == 0 {
                r == Err::<(), LoadError>(LoadError::ElementNotAllowed) && post == pre
            } else {
                let c = pre.state.shape_count;
                let o = pre.scene.objects@[i as int];
                let start = if c > 0 {
                    Some((pre.scene.shapes@.len() - c) as usize)
                } else {
                    o.shape_start
                };
                &&& r is Ok
                &&& post == Session {
                    scene: Scene { objects: post.scene.objects, ..pre.scene },
                    stack: post.stack,
                    state: pre.stack@.last(),
                    ..pre
                }
                &&& post.stack@ == pre.stack@.drop_last()
                &&& post.scene.objects@ == pre.scene.objects@.update(
                    i as int,
                    Object { shape_start: start, shape_count: c, ..o },
                )
            },
        }
    }

    /// `ObjectEnd`: closes the object being recorded, giving it the range of
    /// shapes added since `ObjectBegin`, and closes its scope.
    pub fn object_end(&mut self) -> (r: Result<(), LoadError>)
        requires
            old(self).wf(),
        ensures
            final(self).wf(),
            Self::object_end_post(*old(self), *final(self), r),
    {
        let index = match self.state.active_object {
            Some(i) => i,
            None => {
                return Err(LoadError::ElementNotAllowed);
            },
        };
        if self.stack.len() == 0 {
            return Err(LoadError::ElementNotAllowed);
        }
        let count = self.state.shape_count;
        self.scene.objects[index].shape_count = count;
        if count > 0 {
            let start = self.scene.shapes.len() - count;
            self.scene.objects[index].shape_start = Some(start);
        }
        match self.stack.pop() {
            Some(s) => {
                self.state = s;
            },
            None => {},
        }
        proof {
            assert(self.scene.objects@ =~= old(self).scene.objects@.update(
                index as int,
                Object {
                    shape_start: if count > 0 {
                        Some((old(self).scene.shapes@.len() - count) as usize)
                    } else {
                        old(self).scene.objects@[index as int].shape_start
                    },
                    shape_count: count,
                    ..old(self).scene.objects@[index as int]
                },
            ));
            assert(state_fits(old(self).stack@[old(self).stack@.len() - 1], self.scene));
            assert forall|i: int| 0 <= i < self.stack@.len() implies state_fits(#[trigger] self.stack@[i], self.scene) by {
                assert(self.stack@[i] == old(self).stack@[i]);
            }
        }
        Ok(())
    }

    pub open spec fn object_instance_post(
        pre: Session,
        post: Session,
        name: String,
        r: Result<(), LoadError>,
    ) -> bool {
        match pre.named_objects.get(name@) {
            None => r == Err::<(), LoadError>(LoadError::NotFound) && post == pre,
            Some(i) => {
                &&& r is Ok
                &&& post == Session {
                    scene: Scene { instances: post.scene.instances, ..pre.scene },
                    ..pre
                }
                &&& post.scene.instances@ == pre.scene.instances@.push(
                    Instance {
                        instance_to_world: pre.state.transform,
                        object_index: i,
                        area_light_index: pre.state.area_light_index,
                        reverse_orientation: pre.state.reverse_orientation,
                    },
                )
            },
        }
    }

    /// `ObjectInstance`: places a declared object with the current transform,
    /// area light and orientation.
    pub fn object_instance(&mut self, name: String) -> (r: Result<(), LoadError>)
        requires
            old(self).wf(),
        ensures
            final(self).wf(),
            Self::object_instance_post(*old(self), *final(self), name, r),
    {
        match self.named_objects.resolve(&name) {
            Some(object_index) => {
                self.scene.instances.push(
                    Instance {
                        instance_to_world: self.state.transform,
                        object_index,
                        area_light_index: self.state.area_light_index,
                        reverse_orientation: self.state.reverse_orientation,
                    },
                );
                Ok(())
            },
            None => Err(LoadError::NotFound),
        }
    }
}


/// What the caller does after a directive was handled.
#[derive(Debug)]
pub enum Step {
    /// Go on with the next directive.
    Continue,
    /// Read the file at this path and interpret its directives before the
    /// ones that follow.
    Include(String),
}

/// A step's outcome with any request for another file forgotten.
pub open spec fn unit_of(r: Result<Step, LoadError>) -> Result<(), LoadError> {
    match r {
        Ok(_) => Ok(()),
        Err(e) => Err(e),
    }
}

fn continued(r: Result<(), LoadError>) -> (s: Result<Step, LoadError>)
    ensures
        r is Ok <==> s is Ok,
        r is Err ==> unit_of(s) == r,
        s is Ok ==> s == Ok::<Step, LoadError>(Step::Continue),
{
    match r {
        Ok(()) => Ok(Step::Continue),
        Err(e) => Err(e),
    }
}

impl Session {
    /// What handling one directive does to the session.
    pub open spec fn step_post(pre: Session, post: Session, d: Directive, r: Result<Step, LoadError>) -> bool {
        let t = pre.state.transform;
        let u = unit_of(r);
        &&& (!(d is Include) && r is Ok ==> r == Ok::<Step, LoadError>(Step::Continue))
        &&& match d {
            Directive::AttributeBegin => u is Ok && Self::attribute_begin_post(pre, post),
            Directive::AttributeEnd => Self::attribute_end_post(pre, post, u),
            Directive::Attribute { target, params } => Self::attribute_post(pre, post, target, params, u),
            Directive::ReverseOrientation => u is Ok && Self::reverse_orientation_post(pre, post),
            Directive::Translate { v } => u is Ok && Self::set_transform_post(pre, post, product_of(t, translation_of(v))),
            Directive::Identity => u is Ok && Self::set_transform_post(pre, post, pre.identity),
            Directive::Transform { m } => u is Ok && Self::set_transform_post(pre, post, m),
            Directive::ConcatTransform { m } => u is Ok && Self::set_transform_post(pre, post, product_of(t, m)),
            Directive::Scale { v } => u is Ok && Self::set_transform_post(pre, post, product_of(t, scaling_of(v))),
            Directive::Rotate { .. } => u is Ok && exists|m: Mat4|
                Self::set_transform_post(pre, post, #[trigger] product_of(t, m)),
            Directive::LookAt { eye, look_at, up } => u is Ok && Self::set_transform_post(
                pre,
                post,
                product_of(t, look_at_of(eye, look_at, up)),
            ),
            Directive::CoordinateSystem { name } => u is Ok && Self::coordinate_system_post(pre, post, name),
            Directive::CoordSysTransform { name } => Self::coord_sys_transform_post(pre, post, name, u),
            Directive::Camera { ty, params } => Self::camera_post(pre, post, ty, params, u),
            Directive::Film { ty, params } => set_once_post(pre.scene.film, post.scene.film, ty, params, u)
                && post == Session { scene: Scene { film: post.scene.film, ..pre.scene }, ..pre },
            Directive::Integrator { ty, params } => set_once_post(
                pre.scene.integrator,
                post.scene.integrator,
                ty,
                params,
                u,
            ) && post == Session { scene: Scene { integrator: post.scene.integrator, ..pre.scene }, ..pre },
            Directive::Accelerator { ty, params } => set_once_post(
                pre.scene.accelerator,
                post.scene.accelerator,
                ty,
                params,
                u,
            ) && post == Session { scene: Scene { accelerator: post.scene.accelerator, ..pre.scene }, ..pre },
            Directive::PixelFilter { ty, params } => set_once_post(
                pre.scene.pixel_filter,
                post.scene.pixel_filter,
                ty,
                params,
                u,
            ) && post == Session { scene: Scene { pixel_filter: post.scene.pixel_filter, ..pre.scene }, ..pre },
            Directive::Sampler { ty, params } => set_once_post(
                pre.scene.sampler,
                post.scene.sampler,
                ty,
                params,
                u,
            ) && post == Session { scene: Scene { sampler: post.scene.sampler, ..pre.scene }, ..pre },
            Directive::ColorSpace { .. } | Directive::ActiveTransform { .. } | Directive::Import { .. } => {
                r == Err::<Step, LoadError>(LoadError::UnsupportedFeature) && post == pre
            },
            Directive::TransformTimes { times } => Self::transform_times_post(pre, post, times, u),
            Directive::Include { path } => post == pre && if is_gzip_path(path@) {
                r == Err::<Step, LoadError>(LoadError::UnsupportedFeature)
            } else {
                r == Ok::<Step, LoadError>(Step::Include(path))
            },
            Directive::WorldBegin => u is Ok && Self::world_begin_post(pre, post),
            Directive::Option { param } => u is Ok && Self::option_post(pre, post, param),
            Directive::Texture { name, ty, class, params } => u is Ok && Self::texture_post(
                pre,
                post,
                name,
                ty,
                class,
                params,
            ),
            Directive::Material { ty, params } => u is Ok && Self::material_post(pre, post, ty, params),
            Directive::MakeNamedMaterial { name, params } => u is Ok && Self::make_named_material_post(
                pre,
                post,
                name,
                params,
            ),
            Directive::NamedMaterial { name } => u is Ok && Self::named_material_post(pre, post, name),
            Directive::LightSource { ty, params } => u is Ok && Self::light_source_post(pre, post, ty, params),
            Directive::AreaLightSource { ty, params } => u is Ok && Self::area_light_source_post(
                pre,
                post,
                ty,
                params,
            ),
            Directive::Shape { ty, params } => u is Ok && Self::shape_post(pre, post, ty, params),
            Directive::ObjectBegin { name } => Self::object_begin_post(pre, post, name, u),
            Directive::ObjectEnd => Self::object_end_post(pre, post, u),
            Directive::ObjectInstance { name } => Self::object_instance_post(pre, post, name, u),
            Directive::MakeNamedMedium { name, params } => u is Ok && Self::make_named_medium_post(
                pre,
                post,
                name,
                params,
            ),
            Directive::MediumInterface { interior, exterior } => u is Ok && Self::medium_interface_post(
                pre,
                post,
                interior,
                exterior,
            ),
        }
    }

    /// Handles one directive. An `Include` is handed back to the caller, who
    /// reads the file; every other directive is handled here.
    pub fn step(&mut self, d: Directive) -> (r: Result<Step, LoadError>)
        requires
            old(self).wf(),
        ensures
            final(self).wf(),
            Self::step_post(*old(self), *final(self), d, r),
            !(d is Include) && r is Ok ==> r == Ok::<Step, LoadError>(Step::Continue),
            r != Err::<Step, LoadError>(LoadError::UnresolvedInclude),
    {
        match d {
            Directive::AttributeBegin => {
                self.attribute_begin();
                Ok(Step::Continue)
            },
            Directive::AttributeEnd => continued(self.attribute_end()),
            Directive::Attribute { target, params } => continued(self.attribute(target, params)),
            Directive::ReverseOrientation => {
                self.reverse_orientation();
                Ok(Step::Continue)
            },
            Directive::Translate { v } => {
                self.concat_transform(from_translation(&v));
                Ok(Step::Continue)
            },
            Directive::Identity => {
                let id = self.identity;
                self.set_transform(id);
                Ok(Step::Continue)
            },
            Directive::Transform { m } => {
                self.set_transform(m);
                Ok(Step::Continue)
            },
            Directive::ConcatTransform { m } => {
                self.concat_transform(m);
                Ok(Step::Continue)
            },
            Directive::Scale { v } => {
                self.concat_transform(from_scale(&v));
                Ok(Step::Continue)
            },
            Directive::Rotate { angle_axis } => {
                self.concat_transform(from_angle_axis(&angle_axis));
                Ok(Step::Continue)
            },
            Directive::LookAt { eye, look_at: center, up } => {
                self.concat_transform(look_at(&eye, &center, &up));
                Ok(Step::Continue)
            },
            Directive::CoordinateSystem { name } => {
                self.coordinate_system(name);
                Ok(Step::Continue)
            },
            Directive::CoordSysTransform { name } => continued(self.coord_sys_transform(name)),
            Directive::Camera { ty, params } => continued(self.camera(ty, params)),
            Directive::Film { ty, params } => continued(set_once(&mut self.scene.film, ty, params)),
            Directive::Integrator { ty, params } => continued(
                set_once(&mut self.scene.integrator, ty, params),
            ),
            Directive::Accelerator { ty, params } => continued(
                set_once(&mut self.scene.accelerator, ty, params),
            ),
            Directive::PixelFilter { ty, params } => continued(
                set_once(&mut self.scene.pixel_filter, ty, params),
            ),
            Directive::Sampler { ty, params } => continued(set_once(&mut self.scene.sampler, ty, params)),
            Directive::ColorSpace { .. } => Err(LoadError::UnsupportedFeature),
            Directive::ActiveTransform { .. } => Err(LoadError::UnsupportedFeature),
            Directive::Import { .. } => Err(LoadError::UnsupportedFeature),
            Directive::TransformTimes { times } => continued(self.transform_times(times)),
            Directive::Include { path } => {
                if has_gzip_suffix(&path) {
                    Err(LoadError::UnsupportedFeature)
                } else {
                    Ok(Step::Include(path))
                }
            },
            Directive::WorldBegin => {
                self.world_begin();
                Ok(Step::Continue)
            },
            Directive::Option { param } => {
                self.option(param);
                Ok(Step::Continue)
            },
            Directive::Texture { name, ty, class, params } => {
                self.texture(name, ty, class, params);
                Ok(Step::Continue)
            },
            Directive::Material { ty, params } => {
                self.material(ty, params);
                Ok(Step::Continue)
            },
            Directive::MakeNamedMaterial { name, params } => {
                self.make_named_material(name, params);
                Ok(Step::Continue)
            },
            Directive::NamedMaterial { name } => {
                self.named_material(name);
                Ok(Step::Continue)
            },
            Directive::LightSource { ty, params } => {
                self.light_source(ty, params);
                Ok(Step::Continue)
            },
            Directive::AreaLightSource { ty, params } => {
                self.area_light_source(ty, params);
                Ok(Step::Continue)
            },
            Directive::Shape { ty, params } => {
                self.shape(ty, params);
                Ok(Step::Continue)
            },
            Directive::ObjectBegin { name } => continued(self.object_begin(name)),
            Directive::ObjectEnd => continued(self.object_end()),
            Directive::ObjectInstance { name } => continued(self.object_instance(name)),
            Directive::MakeNamedMedium { name, params } => {
                self.make_named_medium(name, params);
                Ok(Step::Continue)
            },
            Directive::MediumInterface { interior, exterior } => {
                self.medium_interface(interior, exterior);
                Ok(Step::Continue)
            },
        }
    }
}

} // verus!
