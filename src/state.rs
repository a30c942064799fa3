//! The graphics state: everything a directive scope saves and restores.
use crate::params::{duplicate_params, Param};
use glam::Mat4;
use vstd::prelude::*;

verus! {

/// The state that directives modify and that `AttributeBegin` / `AttributeEnd`
/// save and restore.
#[derive(Debug)]
pub struct GraphicsState {
    /// Toggled by `ReverseOrientation`.
    pub reverse_orientation: bool,
    /// The current transformation matrix.
    pub transform: Mat4,
    pub inside_medium: Option<String>,
    pub outside_medium: Option<String>,
    pub material_index: Option<usize>,
    pub area_light_index: Option<usize>,
    /// The object being recorded, between `ObjectBegin` and `ObjectEnd`.
    pub active_object: Option<usize>,
    /// Shapes emitted while recording the active object.
    pub shape_count: usize,
    pub shape_params: Vec<Param>,
    pub light_params: Vec<Param>,
    pub material_params: Vec<Param>,
    pub medium_params: Vec<Param>,
    pub texture_params: Vec<Param>,
}

fn duplicate_name(s: &Option<String>) -> (r: Option<String>)
    ensures
        r == *s,
{
    match s {
        Some(n) => Some(n.clone()),
        None => None,
    }
}

impl GraphicsState {
    /// Field by field equality, parameter lists compared by content.
    pub open spec fn same(&self, o: &GraphicsState) -> bool {
        &&& self.reverse_orientation == o.reverse_orientation
        &&& self.transform == o.transform
        &&& self.inside_medium == o.inside_medium
        &&& self.outside_medium == o.outside_medium
        &&& self.material_index == o.material_index
        &&& self.area_light_index == o.area_light_index
        &&& self.active_object == o.active_object
        &&& self.shape_count == o.shape_count
        &&& self.shape_params@ == o.shape_params@
        &&& self.light_params@ == o.light_params@
        &&& self.material_params@ == o.material_params@
        &&& self.medium_params@ == o.medium_params@
        &&& self.texture_params@ == o.texture_params@
    }

    /// The state at the start of a load, with `transform` as the current transform.
    pub fn new(transform: Mat4) -> (r: GraphicsState)
        ensures
            r.transform == transform,
            !r.reverse_orientation,
            r.inside_medium is None,
            r.outside_medium is None,
            r.material_index is None,
            r.area_light_index is None,
            r.active_object is None,
            r.shape_count == 0,
            r.shape_params@.len() == 0,
            r.light_params@.len() == 0,
            r.material_params@.len() == 0,
            r.medium_params@.len() == 0,
            r.texture_params@.len() == 0,
    {
        GraphicsState {
            reverse_orientation: false,
            transform,
            inside_medium: None,
            outside_medium: None,
            material_index: None,
            area_light_index: None,
            active_object: None,
            shape_count: 0,
            shape_params: Vec::new(),
            light_params: Vec::new(),
            material_params: Vec::new(),
            medium_params: Vec::new(),
            texture_params: Vec::new(),
        }
    }

    /// An independent copy, sharing nothing with `self`.
    pub fn duplicate(&self) -> (r: GraphicsState)
        ensures
            r.same(self),
    {
        GraphicsState {
            reverse_orientation: self.reverse_orientation,
            transform: self.transform,
            inside_medium: duplicate_name(&self.inside_medium),
            outside_medium: duplicate_name(&self.outside_medium),
            material_index: self.material_index,
            area_light_index: self.area_light_index,
            active_object: self.active_object,
            shape_count: self.shape_count,
            shape_params: duplicate_params(&self.shape_params),
            light_params: duplicate_params(&self.light_params),
            material_params: duplicate_params(&self.material_params),
            medium_params: duplicate_params(&self.medium_params),
            texture_params: duplicate_params(&self.texture_params),
        }
    }
}

} // verus!
