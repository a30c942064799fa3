use glam::{Mat4, Vec2, Vec3, Vec4};
use pbrt4::directive::Directive;
use pbrt4::loader::{Loader, Progress};
use pbrt4::params::Param;
use pbrt4::scene::{LoadError, Scene};

fn s(x: &str) -> String {
    x.to_string()
}

fn shape(ty: &str) -> Directive {
    Directive::Shape { ty: s(ty), params: Vec::new() }
}

fn param(name: &str, value: &str) -> Param {
    Param::new(s("float"), s(name), s(value))
}

/// Runs a loader, answering each file request from `files`.
fn load_with_files(root: Vec<Directive>, files: &dyn Fn(&str) -> Vec<Directive>) -> Result<Scene, LoadError> {
    let mut loader = Loader::new(root);
    loop {
        match loader.advance()? {
            Progress::NeedsFile(path) => loader.push_source(files(&path)),
            Progress::Finished => return loader.finish(),
        }
    }
}

#[test]
fn test_includes() {
    let files = |path: &str| -> Vec<Directive> {
        match path {
            "1.pbrt" => vec![shape("sphere")],
            "2.pbrt" => vec![Directive::Include { path: s("1.pbrt") }],
            "3.pbrt" => vec![Directive::Include { path: s("2.pbrt") }],
            "4.pbrt" => vec![Directive::Include { path: s("3.pbrt") }],
            _ => panic!("unexpected file {path}"),
        }
    };
    let root = vec![
        Directive::WorldBegin,
        Directive::Include { path: s("4.pbrt") },
        Directive::Include { path: s("1.pbrt") },
    ];
    let scene = load_with_files(root, &files).unwrap();
    assert_eq!(scene.shapes.len(), 2);
}

#[test]
fn includes_resume_in_the_including_file() {
    let files = |path: &str| -> Vec<Directive> {
        match path {
            "inner.pbrt" => vec![shape("sphere")],
            "outer.pbrt" => vec![
                Directive::Include { path: s("inner.pbrt") },
                shape("disk"),
            ],
            _ => panic!("unexpected file {path}"),
        }
    };
    let root = vec![
        Directive::WorldBegin,
        Directive::Include { path: s("outer.pbrt") },
        shape("cylinder"),
    ];
    let scene = load_with_files(root, &files).unwrap();
    let tys: Vec<&str> = scene.shapes.iter().map(|e| e.ty.as_str()).collect();
    assert_eq!(tys, vec!["sphere", "disk", "cylinder"]);
}

#[test]
fn test_instancing() {
    let data = vec![
        Directive::WorldBegin,
        Directive::ObjectBegin { name: s("foo") },
        shape("sphere"),
        shape("sphere"),
        Directive::ObjectEnd,
        Directive::ObjectInstance { name: s("foo") },
        Directive::Translate { v: Vec3::new(1.0, 0.0, 0.0) },
        Directive::ObjectInstance { name: s("foo") },
    ];

    let scene = Scene::load(data).unwrap();

    assert_eq!(scene.shapes.len(), 2);

    assert_eq!(scene.shapes[0].ty, "sphere");
    assert_eq!(scene.shapes[1].ty, "sphere");

    assert_eq!(scene.objects.len(), 1);

    let object = &scene.objects[0];
    assert_eq!(&object.name, "foo");
    assert_eq!(object.shape_start, Some(0));
    assert_eq!(object.shape_count, 2);

    assert_eq!(scene.instances.len(), 2);

    let inst1 = &scene.instances[0];
    assert_eq!(inst1.object_index, 0);

    let inst2 = &scene.instances[1];
    assert_eq!(inst2.object_index, 0);
    assert_ne!(inst1.instance_to_world, inst2.instance_to_world);
}

#[test]
fn object_range_follows_earlier_shapes() {
    let data = vec![
        Directive::WorldBegin,
        shape("disk"),
        Directive::ObjectBegin { name: s("a") },
        shape("sphere"),
        shape("sphere"),
        shape("sphere"),
        Directive::ObjectEnd,
        Directive::ObjectBegin { name: s("empty") },
        Directive::ObjectEnd,
    ];
    let scene = Scene::load(data).unwrap();
    assert_eq!(scene.objects[0].shape_start, Some(1));
    assert_eq!(scene.objects[0].shape_count, 3);
    assert_eq!(scene.objects[1].shape_start, None);
    assert_eq!(scene.objects[1].shape_count, 0);
}

#[test]
fn translate_then_scale_post_multiplies() {
    let data = vec![
        Directive::WorldBegin,
        Directive::Translate { v: Vec3::new(1.0, 0.0, 0.0) },
        Directive::Scale { v: Vec3::new(2.0, 2.0, 2.0) },
        shape("sphere"),
    ];
    let scene = Scene::load(data).unwrap();
    let expected = Mat4::from_translation(Vec3::new(1.0, 0.0, 0.0)) * Mat4::from_scale(Vec3::splat(2.0));
    let reversed = Mat4::from_scale(Vec3::splat(2.0)) * Mat4::from_translation(Vec3::new(1.0, 0.0, 0.0));
    assert_eq!(scene.shapes[0].transform, expected);
    assert_ne!(scene.shapes[0].transform, reversed);
}

#[test]
fn rotate_and_look_at_use_glam() {
    let data = vec![
        Directive::WorldBegin,
        Directive::Rotate { angle_axis: Vec4::new(0.5, 0.0, 0.0, 1.0) },
        shape("sphere"),
        Directive::Identity,
        Directive::LookAt {
            eye: Vec3::new(0.0, 0.0, -5.0),
            look_at: Vec3::ZERO,
            up: Vec3::Y,
        },
        shape("sphere"),
    ];
    let scene = Scene::load(data).unwrap();
    assert_eq!(scene.shapes[0].transform, Mat4::from_axis_angle(Vec3::Z, 0.5));
    assert_eq!(
        scene.shapes[1].transform,
        glam::camera::lh::view::look_at_mat4(Vec3::new(0.0, 0.0, -5.0), Vec3::ZERO, Vec3::Y)
    );
    assert_ne!(scene.shapes[1].transform, Mat4::IDENTITY);
}

#[test]
fn transform_replaces_and_concat_multiplies() {
    let a = Mat4::from_translation(Vec3::new(0.0, 3.0, 0.0));
    let b = Mat4::from_scale(Vec3::new(1.0, 2.0, 3.0));
    let data = vec![
        Directive::WorldBegin,
        Directive::Translate { v: Vec3::new(9.0, 9.0, 9.0) },
        Directive::Transform { m: a },
        Directive::ConcatTransform { m: b },
        shape("sphere"),
    ];
    let scene = Scene::load(data).unwrap();
    assert_eq!(scene.shapes[0].transform, a * b);
}

#[test]
fn reverse_orientation_twice_restores_flag() {
    let data = vec![
        Directive::WorldBegin,
        Directive::ReverseOrientation,
        shape("sphere"),
        Directive::ReverseOrientation,
        shape("sphere"),
    ];
    let scene = Scene::load(data).unwrap();
    assert!(scene.shapes[0].reverse_orientation);
    assert!(!scene.shapes[1].reverse_orientation);
}

#[test]
fn attribute_block_restores_transform_and_material() {
    let t1 = Mat4::from_translation(Vec3::new(1.0, 2.0, 3.0));
    let t2 = Mat4::from_scale(Vec3::new(4.0, 4.0, 4.0));
    let data = vec![
        Directive::WorldBegin,
        Directive::Transform { m: t1 },
        Directive::Material { ty: s("diffuse"), params: Vec::new() },
        Directive::AttributeBegin,
        Directive::Transform { m: t2 },
        Directive::Material { ty: s("conductor"), params: Vec::new() },
        shape("sphere"),
        Directive::AttributeEnd,
        shape("sphere"),
    ];
    let scene = Scene::load(data).unwrap();
    assert_eq!(scene.shapes[0].transform, t2);
    assert_eq!(scene.shapes[0].material_index, Some(1));
    assert_eq!(scene.shapes[1].transform, t1);
    assert_eq!(scene.shapes[1].material_index, Some(0));
}

#[test]
fn coordinate_system_round_trip() {
    let data = vec![
        Directive::WorldBegin,
        Directive::Translate { v: Vec3::new(1.0, 0.0, 0.0) },
        Directive::CoordinateSystem { name: s("mark") },
        Directive::Scale { v: Vec3::new(3.0, 3.0, 3.0) },
        Directive::CoordSysTransform { name: s("mark") },
        shape("sphere"),
    ];
    let scene = Scene::load(data).unwrap();
    assert_eq!(scene.shapes[0].transform, Mat4::from_translation(Vec3::new(1.0, 0.0, 0.0)));
}

#[test]
fn camera_records_inverse_and_camera_frame() {
    let m = Mat4::from_translation(Vec3::new(0.0, 0.0, 5.0));
    let data = vec![
        Directive::Transform { m },
        Directive::Camera { ty: s("perspective"), params: Vec::new() },
        Directive::WorldBegin,
        Directive::CoordSysTransform { name: s("camera") },
        shape("sphere"),
    ];
    let scene = Scene::load(data).unwrap();
    let camera = scene.camera.as_ref().unwrap();
    assert_eq!(camera.ty, "perspective");
    assert_eq!(camera.transform, m.inverse());
    assert_ne!(camera.transform, m);
    assert_eq!(scene.shapes[0].transform, m.inverse());
}

#[test]
fn overlay_follows_explicit_parameters() {
    let data = vec![
        Directive::WorldBegin,
        Directive::Attribute { target: s("shape"), params: vec![param("radius", "2")] },
        Directive::Shape { ty: s("sphere"), params: vec![param("radius", "1")] },
        Directive::AttributeBegin,
        Directive::Attribute { target: s("light"), params: vec![param("scale", "3")] },
        Directive::LightSource { ty: s("point"), params: Vec::new() },
        Directive::AttributeEnd,
        Directive::LightSource { ty: s("point"), params: Vec::new() },
    ];
    let scene = Scene::load(data).unwrap();
    let p = &scene.shapes[0].params;
    assert_eq!(p.len(), 2);
    assert_eq!(p[0].value, "1");
    assert_eq!(p[1].value, "2");
    assert_eq!(scene.lights[0].params.len(), 1);
    assert_eq!(scene.lights[0].params[0].name, "scale");
    assert_eq!(scene.lights[1].params.len(), 0);
}

#[test]
fn named_materials_and_textures() {
    let data = vec![
        Directive::WorldBegin,
        Directive::Texture { name: s("checks"), ty: s("spectrum"), class: s("checkerboard"), params: Vec::new() },
        Directive::MakeNamedMaterial { name: s("red"), params: Vec::new() },
        Directive::MakeNamedMaterial { name: s("blue"), params: Vec::new() },
        Directive::NamedMaterial { name: s("red") },
        shape("sphere"),
        Directive::NamedMaterial { name: s("missing") },
        shape("sphere"),
        Directive::MakeNamedMaterial { name: s("red"), params: Vec::new() },
        Directive::NamedMaterial { name: s("red") },
        shape("sphere"),
    ];
    let scene = Scene::load(data).unwrap();
    assert_eq!(scene.textures[0].name, "checks");
    assert_eq!(scene.materials[0].ty, "red");
    assert_eq!(scene.shapes[0].material_index, Some(0));
    assert_eq!(scene.shapes[1].material_index, None);
    assert_eq!(scene.shapes[2].material_index, Some(2));
}

#[test]
fn area_lights_and_media() {
    let data = vec![
        Directive::MakeNamedMedium { name: s("fog"), params: Vec::new() },
        Directive::WorldBegin,
        Directive::MediumInterface { interior: s("fog"), exterior: s("") },
        Directive::AttributeBegin,
        Directive::AreaLightSource { ty: s("diffuse"), params: Vec::new() },
        shape("sphere"),
        Directive::ObjectBegin { name: s("lamp") },
        Directive::ObjectEnd,
        Directive::ObjectInstance { name: s("lamp") },
        Directive::AttributeEnd,
        shape("sphere"),
    ];
    let scene = Scene::load(data).unwrap();
    assert_eq!(scene.mediums[0].ty, "fog");
    assert_eq!(scene.shapes[0].area_light_index, Some(0));
    assert_eq!(scene.instances[0].area_light_index, Some(0));
    assert_eq!(scene.shapes[1].area_light_index, None);
}

#[test]
fn singletons_and_options() {
    let data = vec![
        Directive::TransformTimes { times: Vec2::new(0.0, 1.0) },
        Directive::Option { param: param("seed", "7") },
        Directive::Film { ty: s("rgb"), params: Vec::new() },
        Directive::Integrator { ty: s("path"), params: Vec::new() },
        Directive::Accelerator { ty: s("bvh"), params: Vec::new() },
        Directive::PixelFilter { ty: s("gaussian"), params: Vec::new() },
        Directive::Sampler { ty: s("zsobol"), params: Vec::new() },
        Directive::WorldBegin,
    ];
    let scene = Scene::load(data).unwrap();
    assert_eq!(scene.transform_times, Some(Vec2::new(0.0, 1.0)));
    assert_eq!(scene.options.len(), 1);
    assert_eq!(scene.film.as_ref().unwrap().ty, "rgb");
    assert_eq!(scene.integrator.as_ref().unwrap().ty, "path");
    assert_eq!(scene.accelerator.as_ref().unwrap().ty, "bvh");
    assert_eq!(scene.pixel_filter.as_ref().unwrap().ty, "gaussian");
    assert_eq!(scene.sampler.as_ref().unwrap().ty, "zsobol");
}

fn error_of(data: Vec<Directive>) -> LoadError {
    Scene::load(data).unwrap_err()
}

#[test]
fn unknown_instance_is_not_found() {
    let data = vec![Directive::WorldBegin, Directive::ObjectInstance { name: s("missing") }];
    assert_eq!(error_of(data), LoadError::NotFound);
}

#[test]
fn unknown_instance_leaves_session_unchanged() {
    let mut session = pbrt4::session::Session::new();
    session.step(Directive::WorldBegin).unwrap();
    let r = session.step(Directive::ObjectInstance { name: s("missing") });
    assert!(matches!(r, Err(LoadError::NotFound)));
    assert_eq!(session.scene.instances.len(), 0);
}

#[test]
fn unknown_coordinate_system_is_not_found() {
    let data = vec![Directive::WorldBegin, Directive::CoordSysTransform { name: s("nowhere") }];
    assert_eq!(error_of(data), LoadError::NotFound);
}

#[test]
fn extra_attribute_end_is_unbalanced() {
    let data = vec![Directive::WorldBegin, Directive::AttributeBegin, Directive::AttributeEnd, Directive::AttributeEnd];
    assert_eq!(error_of(data), LoadError::UnbalancedScope);
}

#[test]
fn object_end_outside_object_is_not_allowed() {
    let data = vec![Directive::WorldBegin, Directive::ObjectEnd];
    assert_eq!(error_of(data), LoadError::ElementNotAllowed);
}

#[test]
fn nested_objects_are_refused() {
    let data = vec![
        Directive::WorldBegin,
        Directive::ObjectBegin { name: s("a") },
        Directive::ObjectBegin { name: s("b") },
    ];
    assert_eq!(error_of(data), LoadError::NestedObjects);
}

#[test]
fn missing_terminator_is_unterminated() {
    let data = vec![Directive::WorldBegin, Directive::AttributeBegin];
    assert_eq!(error_of(data), LoadError::UnterminatedScope);
    let data = vec![Directive::WorldBegin, Directive::ObjectBegin { name: s("a") }];
    assert_eq!(error_of(data), LoadError::UnterminatedScope);
}

#[test]
fn balanced_scopes_load() {
    let data = vec![
        Directive::WorldBegin,
        Directive::AttributeBegin,
        Directive::AttributeBegin,
        Directive::AttributeEnd,
        Directive::ObjectBegin { name: s("a") },
        shape("sphere"),
        Directive::ObjectEnd,
        Directive::AttributeEnd,
    ];
    assert!(Scene::load(data).is_ok());
}

#[test]
fn world_must_begin() {
    assert_eq!(error_of(vec![shape("sphere")]), LoadError::WorldNotStarted);
}

#[test]
fn transform_times_after_world_begin() {
    let data = vec![Directive::WorldBegin, Directive::TransformTimes { times: Vec2::new(0.0, 1.0) }];
    assert_eq!(error_of(data), LoadError::WorldAlreadyStarted);
}

#[test]
fn unsupported_directives() {
    assert_eq!(error_of(vec![Directive::ColorSpace { name: s("srgb") }]), LoadError::UnsupportedFeature);
    assert_eq!(error_of(vec![Directive::ActiveTransform { name: s("All") }]), LoadError::UnsupportedFeature);
    assert_eq!(error_of(vec![Directive::Import { path: s("a.pbrt") }]), LoadError::UnsupportedFeature);
    assert_eq!(error_of(vec![Directive::Include { path: s("a.pbrt.gz") }]), LoadError::UnsupportedFeature);
}

#[test]
fn unknown_attribute_target() {
    let data = vec![Directive::Attribute { target: s("camera"), params: Vec::new() }];
    assert_eq!(error_of(data), LoadError::UnknownAttributeTarget);
}

#[test]
fn repeated_singletons_are_duplicates() {
    let data = vec![
        Directive::Camera { ty: s("perspective"), params: Vec::new() },
        Directive::Camera { ty: s("perspective"), params: Vec::new() },
    ];
    assert_eq!(error_of(data), LoadError::Duplicate);
    let data = vec![
        Directive::Film { ty: s("rgb"), params: Vec::new() },
        Directive::Film { ty: s("rgb"), params: Vec::new() },
    ];
    assert_eq!(error_of(data), LoadError::Duplicate);
}

#[test]
fn include_without_loader_is_unresolved() {
    let data = vec![Directive::WorldBegin, Directive::Include { path: s("a.pbrt") }];
    assert_eq!(error_of(data), LoadError::UnresolvedInclude);
}
