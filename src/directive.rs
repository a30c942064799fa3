//! The directives of the scene description, as a tokenizer hands them over.
use crate::params::Param;
use glam::{Mat4, Vec2, Vec3, Vec4};
use vstd::prelude::*;

verus! {

/// One parsed instruction of the scene description.
#[derive(Debug)]
pub enum Directive {
    AttributeBegin,
    AttributeEnd,
    Attribute { target: String, params: Vec<Param> },
    ReverseOrientation,
    Translate { v: Vec3 },
    Identity,
    Transform { m: Mat4 },
    ConcatTransform { m: Mat4 },
    Scale { v: Vec3 },
    /// The angle followed by the axis, as the directive writes them.
    Rotate { angle_axis: Vec4 },
    LookAt { eye: Vec3, look_at: Vec3, up: Vec3 },
    CoordinateSystem { name: String },
    CoordSysTransform { name: String },
    Camera { ty: String, params: Vec<Param> },
    Film { ty: String, params: Vec<Param> },
    Integrator { ty: String, params: Vec<Param> },
    Accelerator { ty: String, params: Vec<Param> },
    PixelFilter { ty: String, params: Vec<Param> },
    ColorSpace { name: String },
    Sampler { ty: String, params: Vec<Param> },
    /// Start and end time.
    TransformTimes { times: Vec2 },
    ActiveTransform { name: String },
    Include { path: String },
    Import { path: String },
    WorldBegin,
    Option { param: Param },
    Texture { name: String, ty: String, class: String, params: Vec<Param> },
    Material { ty: String, params: Vec<Param> },
    MakeNamedMaterial { name: String, params: Vec<Param> },
    NamedMaterial { name: String },
    LightSource { ty: String, params: Vec<Param> },
    AreaLightSource { ty: String, params: Vec<Param> },
    Shape { ty: String, params: Vec<Param> },
    ObjectBegin { name: String },
    ObjectEnd,
    ObjectInstance { name: String },
    MakeNamedMedium { name: String, params: Vec<Param> },
    MediumInterface { interior: String, exterior: String },
}

/// The kinds of entity whose parameters `Attribute` can set.
#[derive(Debug, Clone, Copy, PartialEq, Eq, Structural)]
pub enum AttributeTarget {
    Shape,
    Light,
    Material,
    Medium,
    Texture,
}

/// The kind that an `Attribute` target name denotes.
pub open spec fn target_of(t: Seq<char>) -> Option<AttributeTarget> {
    if t == "shape"@ {
        Some(AttributeTarget::Shape)
    } else if t == "light"@ {
        Some(AttributeTarget::Light)
    } else if t == "material"@ {
        Some(AttributeTarget::Material)
    } else if t == "medium"@ {
        Some(AttributeTarget::Medium)
    } else if t == "texture"@ {
        Some(AttributeTarget::Texture)
    } else {
        None
    }
}

/// Reads an `Attribute` target name.
pub fn parse_target(t: &String) -> (r: Option<AttributeTarget>)
    ensures
        r == target_of(t@),
{
    proof {
        reveal_strlit("shape");
        reveal_strlit("light");
        reveal_strlit("material");
        reveal_strlit("medium");
        reveal_strlit("texture");
    }
    if *t == String::from_str("shape") {
        Some(AttributeTarget::Shape)
    } else if *t == String::from_str("light") {
        Some(AttributeTarget::Light)
    } else if *t == String::from_str("material") {
        Some(AttributeTarget::Material)
    } else if *t == String::from_str("medium") {
        Some(AttributeTarget::Medium)
    } else if *t == String::from_str("texture") {
        Some(AttributeTarget::Texture)
    } else {
        None
    }
}

/// Whether a path names a gzip-compressed file.
pub open spec fn is_gzip_path(p: Seq<char>) -> bool {
    p.len() >= 3 && p.subrange(p.len() - 3, p.len() as int) == ".gz"@
}

pub fn has_gzip_suffix(p: &String) -> (r: bool)
    ensures
        r == is_gzip_path(p@),
{
    proof {
        reveal_strlit(".gz");
    }
    let s = p.as_str();
    let n = s.unicode_len();
    if n < 3 {
        return false;
    }
    let r = s.get_char(n - 3) == '.' && s.get_char(n - 2) == 'g' && s.get_char(n - 1) == 'z';
    proof {
        let t = p@.subrange(n - 3, n as int);
        if r {
            assert(t =~= ".gz"@);
        } else {
            assert(t[0] != '.' || t[1] != 'g' || t[2] != 'z');
            assert(".gz"@[0] == '.' && ".gz"@[1] == 'g' && ".gz"@[2] == 'z');
        }
    }
    r
}

} // verus!
