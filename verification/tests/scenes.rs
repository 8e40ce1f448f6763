//! End-to-end scene loading: the test plays the parser layer's role,
//! composing world transforms and transforming streams with `cgmath`, and
//! checks what the library extracts.

use cgmath::{InnerSpace, Matrix4, SquareMatrix, Vector3, Vector4};
use minetest_gltf::document::{
    CameraDesc, LightDesc, LightKindDesc, MeshDesc, Node, PrimitiveDesc, ProjectionDesc, SceneDesc,
    TangentDesc,
};
use minetest_gltf::vector::{Mat4, Vec3, Vec4};
use minetest_gltf::{load_scenes, GltfData, Light, Mode, Projection};

fn v3(x: f32, y: f32, z: f32) -> Vec3 {
    Vec3 { x: x.to_bits(), y: y.to_bits(), z: z.to_bits() }
}

fn mat_bits(m: &Matrix4<f32>) -> Mat4 {
    let col = |c: Vector4<f32>| Vec4 {
        x: c.x.to_bits(),
        y: c.y.to_bits(),
        z: c.z.to_bits(),
        w: c.w.to_bits(),
    };
    Mat4 { c0: col(m.x), c1: col(m.y), c2: col(m.z), c3: col(m.w) }
}

fn transform_position(m: &Matrix4<f32>, p: [f32; 3]) -> Vec3 {
    let r = m * Vector4::new(p[0], p[1], p[2], 1.0);
    v3(r.x / r.w, r.y / r.w, r.z / r.w)
}

fn leaf(world: Mat4) -> Node {
    Node { world, camera: None, light: None, mesh: None, children: vec![] }
}

fn triangle_primitive(world: &Matrix4<f32>, indices: Option<Vec<u32>>) -> PrimitiveDesc {
    let raw = [[0.0f32, 0.0, 0.0], [1.0, 0.0, 0.0], [0.0, 1.0, 0.0], [1.0, 1.0, 0.0]];
    PrimitiveDesc {
        positions: raw.iter().map(|p| transform_position(world, *p)).collect(),
        normals: None,
        tangents: None,
        tex_coords: None,
        colors: None,
        indices,
        mode: Mode::Triangles,
        material: None,
        extras: None,
    }
}

fn empty_data() -> GltfData {
    GltfData::new(vec![], vec![], vec![], vec![], true)
}

#[test]
fn perspective_camera_at_identity() {
    // One scene, one node holding a perspective camera with no far plane
    // and the identity transform.
    let node = Node {
        camera: Some(CameraDesc {
            name: None,
            extras: None,
            projection: ProjectionDesc::Perspective {
                yfov: 0.4f32.to_bits(),
                aspect_ratio: None,
                znear: 0.1f32.to_bits(),
                zfar: None,
            },
        }),
        ..leaf(mat_bits(&Matrix4::identity()))
    };
    let scenes = vec![SceneDesc { name: None, extras: None, nodes: vec![node] }];
    let mut data = empty_data();
    let out = load_scenes(&scenes, &mut data).unwrap();
    assert_eq!(out.len(), 1);
    assert_eq!(out[0].cameras.len(), 1);
    let cam = &out[0].cameras[0];
    assert_eq!(cam.position(), v3(0.0, 0.0, 0.0));
    assert_eq!(cam.zfar, f32::INFINITY.to_bits());
    assert_eq!(cam.znear, 0.1f32.to_bits());
    match cam.projection {
        Projection::Perspective { yfov, aspect_ratio } => {
            assert_eq!(yfov, 0.4f32.to_bits());
            assert!(aspect_ratio.is_none());
        },
        _ => panic!(),
    }
    // the camera looks down its local -Z: recover forward from the stored
    // transform as a renderer would
    let c2 = &cam.transform.c2;
    let forward = -Vector3::new(
        f32::from_bits(c2.x),
        f32::from_bits(c2.y),
        f32::from_bits(c2.z),
    )
    .normalize();
    assert_eq!(forward, Vector3::new(0.0, 0.0, -1.0));
}

#[test]
fn indexed_triangles_in_world_space() {
    // One triangle-mode primitive, 4 unique vertices, index list
    // [0,1,2, 0,2,3], under a translated node.
    let world = Matrix4::from_translation(Vector3::new(2.0, 3.0, 4.0));
    let node = Node {
        mesh: Some(MeshDesc {
            name: Some("quad".to_string()),
            extras: None,
            primitives: vec![triangle_primitive(&world, Some(vec![0, 1, 2, 0, 2, 3]))],
        }),
        ..leaf(mat_bits(&world))
    };
    let scenes = vec![SceneDesc { name: None, extras: None, nodes: vec![node] }];
    let mut data = empty_data();
    let out = load_scenes(&scenes, &mut data).unwrap();
    assert_eq!(out[0].models.len(), 1);
    let model = &out[0].models[0];
    assert_eq!(model.mesh_name(), Some("quad"));
    assert_eq!(model.vertices().len(), 4);
    let ts = model.triangles().unwrap();
    assert_eq!(ts.len(), 2);
    assert_eq!(ts[0][0].position, v3(2.0, 3.0, 4.0));
    assert_eq!(ts[0][1].position, v3(3.0, 3.0, 4.0));
    assert_eq!(ts[0][2].position, v3(2.0, 4.0, 4.0));
    assert_eq!(ts[1][0].position, v3(2.0, 3.0, 4.0));
    assert_eq!(ts[1][1].position, v3(2.0, 4.0, 4.0));
    assert_eq!(ts[1][2].position, v3(3.0, 4.0, 4.0));
}

#[test]
fn absent_streams_stay_zeroed() {
    // A primitive lacking tangent (and normal, color, texcoord) streams.
    let world = Matrix4::identity();
    let node = Node {
        mesh: Some(MeshDesc {
            name: None,
            extras: None,
            primitives: vec![triangle_primitive(&world, None)],
        }),
        ..leaf(mat_bits(&world))
    };
    let scenes = vec![SceneDesc { name: None, extras: None, nodes: vec![node] }];
    let mut data = empty_data();
    let out = load_scenes(&scenes, &mut data).unwrap();
    let model = &out[0].models[0];
    assert!(!model.has_tangents());
    assert!(!model.has_normals());
    assert!(!model.has_tex_coords());
    assert!(!model.has_colors());
    assert_eq!(model.vertices().len(), 4);
    for v in model.vertices() {
        assert_eq!(v.tangent, Vec4 { x: 0, y: 0, z: 0, w: 0 });
        assert_eq!(v.normal, Vec3 { x: 0, y: 0, z: 0 });
    }
}

#[test]
fn world_transform_composes_parent_times_local() {
    // A child under a translated parent: the world transform handed to the
    // library is parent * local, and a root's world transform is its local
    // one; the extracted positions and camera translation reflect both.
    let parent_local = Matrix4::from_translation(Vector3::new(1.0, 0.0, 0.0));
    let child_local = Matrix4::from_translation(Vector3::new(0.0, 5.0, 0.0));
    let parent_world = parent_local;
    let child_world = parent_world * child_local;
    let child = Node {
        mesh: Some(MeshDesc {
            name: None,
            extras: None,
            primitives: vec![triangle_primitive(&child_world, None)],
        }),
        ..leaf(mat_bits(&child_world))
    };
    let parent = Node {
        camera: Some(CameraDesc {
            name: None,
            extras: None,
            projection: ProjectionDesc::Orthographic {
                xmag: 1.0f32.to_bits(),
                ymag: 2.0f32.to_bits(),
                znear: 0.0f32.to_bits(),
                zfar: 100.0f32.to_bits(),
            },
        }),
        children: vec![child],
        ..leaf(mat_bits(&parent_world))
    };
    let scenes = vec![SceneDesc { name: None, extras: None, nodes: vec![parent] }];
    let mut data = empty_data();
    let out = load_scenes(&scenes, &mut data).unwrap();
    let scene = &out[0];
    assert_eq!(scene.cameras.len(), 1);
    assert_eq!(scene.models.len(), 1);
    assert_eq!(scene.cameras[0].position(), v3(1.0, 0.0, 0.0));
    assert_eq!(scene.cameras[0].zfar, 100.0f32.to_bits());
    assert_eq!(scene.models[0].vertices()[0].position, v3(1.0, 5.0, 0.0));
}

#[test]
fn lights_freeze_world_parameters() {
    let world = Matrix4::from_translation(Vector3::new(4.0, 5.0, -1.0));
    let dir = -Vector3::new(
        f32::from_bits(mat_bits(&world).c2.x),
        f32::from_bits(mat_bits(&world).c2.y),
        f32::from_bits(mat_bits(&world).c2.z),
    )
    .normalize();
    let direction = v3(dir.x, dir.y, dir.z);
    let mk = |kind: LightKindDesc| LightDesc {
        name: None,
        kind,
        color: v3(1.0, 1.0, 1.0),
        intensity: 1000.0f32.to_bits(),
        direction,
    };
    let node_of = |l: LightDesc| Node { light: Some(l), ..leaf(mat_bits(&world)) };
    let scenes = vec![SceneDesc {
        name: None,
        extras: None,
        nodes: vec![
            node_of(mk(LightKindDesc::Directional)),
            node_of(mk(LightKindDesc::Point)),
            node_of(mk(LightKindDesc::Spot {
                inner_cone_angle: 0.5f32.to_bits(),
                outer_cone_angle: 0.7f32.to_bits(),
            })),
        ],
    }];
    let mut data = empty_data();
    let out = load_scenes(&scenes, &mut data).unwrap();
    assert_eq!(out[0].lights.len(), 3);
    match &out[0].lights[0] {
        Light::Directional { direction: d, intensity, .. } => {
            assert_eq!(*d, direction);
            assert_eq!(*intensity, 1000.0f32.to_bits());
        },
        _ => panic!(),
    }
    match &out[0].lights[1] {
        Light::Point { position, .. } => assert_eq!(*position, v3(4.0, 5.0, -1.0)),
        _ => panic!(),
    }
    match &out[0].lights[2] {
        Light::Spot { position, direction: d, outer_cone_angle, .. } => {
            assert_eq!(*position, v3(4.0, 5.0, -1.0));
            assert_eq!(*d, direction);
            assert_eq!(*outer_cone_angle, 0.7f32.to_bits());
        },
        _ => panic!(),
    }
}

#[test]
fn tangent_sign_is_kept() {
    let world = Matrix4::identity();
    let mut prim = triangle_primitive(&world, None);
    prim.tangents = Some(vec![
        TangentDesc { direction: v3(1.0, 0.0, 0.0), sign: 1.0f32.to_bits() },
        TangentDesc { direction: v3(0.0, 1.0, 0.0), sign: (-1.0f32).to_bits() },
        TangentDesc { direction: v3(0.0, 0.0, 1.0), sign: 1.0f32.to_bits() },
        TangentDesc { direction: v3(1.0, 0.0, 0.0), sign: (-1.0f32).to_bits() },
    ]);
    let mesh = MeshDesc { name: None, extras: None, primitives: vec![] };
    let mut data = empty_data();
    let model = minetest_gltf::Model::load(&mesh, 0, &prim, &mut data).unwrap();
    assert!(model.has_tangents());
    assert_eq!(model.vertices()[1].tangent.w, (-1.0f32).to_bits());
    assert_eq!(f32::from_bits(model.vertices()[0].tangent.w).abs(), 1.0);
}

#[test]
fn names_and_extras_carry_over() {
    let world = Matrix4::identity();
    let node = Node {
        camera: Some(CameraDesc {
            name: Some("eye".to_string()),
            extras: Some("{\"fov_note\":1}".to_string()),
            projection: ProjectionDesc::Orthographic {
                xmag: 1.0f32.to_bits(),
                ymag: 1.0f32.to_bits(),
                znear: 0.0f32.to_bits(),
                zfar: 10.0f32.to_bits(),
            },
        }),
        light: Some(LightDesc {
            name: Some("sun".to_string()),
            kind: LightKindDesc::Directional,
            color: v3(1.0, 1.0, 1.0),
            intensity: 1.0f32.to_bits(),
            direction: v3(0.0, 0.0, -1.0),
        }),
        mesh: Some(MeshDesc {
            name: Some("quad".to_string()),
            extras: Some("{\"lod\":2}".to_string()),
            primitives: vec![PrimitiveDesc {
                extras: Some("{\"part\":\"lid\"}".to_string()),
                ..triangle_primitive(&world, None)
            }],
        }),
        ..leaf(mat_bits(&world))
    };
    let scenes = vec![SceneDesc {
        name: Some("main".to_string()),
        extras: Some("{\"note\":true}".to_string()),
        nodes: vec![node],
    }];
    let mut data = empty_data();
    let out = load_scenes(&scenes, &mut data).unwrap();
    let scene = &out[0];
    assert_eq!(scene.name.as_deref(), Some("main"));
    assert_eq!(scene.extras.as_deref(), Some("{\"note\":true}"));
    assert_eq!(scene.cameras[0].name.as_deref(), Some("eye"));
    assert_eq!(scene.cameras[0].extras.as_deref(), Some("{\"fov_note\":1}"));
    match &scene.lights[0] {
        Light::Directional { name, .. } => assert_eq!(name.as_deref(), Some("sun")),
        _ => panic!(),
    }
    let model = &scene.models[0];
    assert_eq!(model.mesh_name(), Some("quad"));
    assert_eq!(model.mesh_extras(), Some("{\"lod\":2}"));
    assert_eq!(model.primitive_extras(), Some("{\"part\":\"lid\"}"));
}
