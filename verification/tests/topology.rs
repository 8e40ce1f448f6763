//! Tests for the draw-mode accessors: triangulation, line expansion and
//! point access, including truncation and too-short index lists.

use minetest_gltf::document::{MeshDesc, PrimitiveDesc};
use minetest_gltf::vector::Vec3;
use minetest_gltf::{BadMode, Mode, Model, GltfData};

fn v3(x: f32, y: f32, z: f32) -> Vec3 {
    Vec3 { x: x.to_bits(), y: y.to_bits(), z: z.to_bits() }
}

fn grid_positions(n: usize) -> Vec<Vec3> {
    (0..n).map(|i| v3(i as f32, 0.0, 0.0)).collect()
}

fn model_with(mode: Mode, n_vertices: usize, indices: Option<Vec<u32>>) -> Model {
    let mesh = MeshDesc {
        name: None,
        extras: None,
        primitives: vec![PrimitiveDesc {
            positions: grid_positions(n_vertices),
            normals: None,
            tangents: None,
            tex_coords: None,
            colors: None,
            indices,
            mode,
            material: None,
            extras: None,
        }],
    };
    let mut data = GltfData::new(vec![], vec![], vec![], vec![], false);
    Model::load(&mesh, 0, &mesh.primitives[0], &mut data).expect("model should load")
}

#[test]
fn triangles_consume_triples() {
    let m = model_with(Mode::Triangles, 4, Some(vec![0, 1, 2, 0, 2, 3]));
    let ts = m.triangles().unwrap();
    assert_eq!(ts.len(), 2);
    assert_eq!(ts[0][0].position, v3(0.0, 0.0, 0.0));
    assert_eq!(ts[0][1].position, v3(1.0, 0.0, 0.0));
    assert_eq!(ts[0][2].position, v3(2.0, 0.0, 0.0));
    assert_eq!(ts[1][0].position, v3(0.0, 0.0, 0.0));
    assert_eq!(ts[1][1].position, v3(2.0, 0.0, 0.0));
    assert_eq!(ts[1][2].position, v3(3.0, 0.0, 0.0));
}

#[test]
fn triangles_truncate_partial_triple() {
    let m = model_with(Mode::Triangles, 4, Some(vec![0, 1, 2, 0, 2, 3, 1]));
    assert_eq!(m.triangles().unwrap().len(), 2);
}

#[test]
fn triangles_implicit_indices() {
    let m = model_with(Mode::Triangles, 6, None);
    let ts = m.triangles().unwrap();
    assert_eq!(ts.len(), 2);
    assert_eq!(ts[1][0].position, v3(3.0, 0.0, 0.0));
}

#[test]
fn strip_alternates_winding() {
    let m = model_with(Mode::TriangleStrip, 4, Some(vec![0, 1, 2, 3]));
    let ts = m.triangles().unwrap();
    assert_eq!(ts.len(), 2);
    // first triangle in index order
    assert_eq!(ts[0][0].position, v3(0.0, 0.0, 0.0));
    assert_eq!(ts[0][1].position, v3(1.0, 0.0, 0.0));
    assert_eq!(ts[0][2].position, v3(2.0, 0.0, 0.0));
    // second triangle with the first two corners swapped
    assert_eq!(ts[1][0].position, v3(2.0, 0.0, 0.0));
    assert_eq!(ts[1][1].position, v3(1.0, 0.0, 0.0));
    assert_eq!(ts[1][2].position, v3(3.0, 0.0, 0.0));
}

#[test]
fn fan_spreads_from_first_index() {
    let m = model_with(Mode::TriangleFan, 5, Some(vec![0, 1, 2, 3, 4]));
    let ts = m.triangles().unwrap();
    assert_eq!(ts.len(), 3);
    for (k, t) in ts.iter().enumerate() {
        assert_eq!(t[0].position, v3(0.0, 0.0, 0.0));
        assert_eq!(t[1].position, v3((k + 1) as f32, 0.0, 0.0));
        assert_eq!(t[2].position, v3((k + 2) as f32, 0.0, 0.0));
    }
}

#[test]
fn fan_with_fewer_than_three_indices_is_empty() {
    let m = model_with(Mode::TriangleFan, 2, Some(vec![0, 1]));
    assert_eq!(m.triangles().unwrap().len(), 0);
    let m = model_with(Mode::TriangleStrip, 2, Some(vec![0, 1]));
    assert_eq!(m.triangles().unwrap().len(), 0);
}

#[test]
fn lines_consume_pairs_and_truncate() {
    let m = model_with(Mode::Lines, 4, Some(vec![0, 1, 2, 3, 1]));
    let ls = m.lines().unwrap();
    assert_eq!(ls.len(), 2);
    assert_eq!(ls[0][0].position, v3(0.0, 0.0, 0.0));
    assert_eq!(ls[0][1].position, v3(1.0, 0.0, 0.0));
    assert_eq!(ls[1][0].position, v3(2.0, 0.0, 0.0));
    assert_eq!(ls[1][1].position, v3(3.0, 0.0, 0.0));
}

#[test]
fn line_strip_overlapping_pairs() {
    let m = model_with(Mode::LineStrip, 3, Some(vec![0, 1, 2]));
    let ls = m.lines().unwrap();
    assert_eq!(ls.len(), 2);
    assert_eq!(ls[1][0].position, v3(1.0, 0.0, 0.0));
    assert_eq!(ls[1][1].position, v3(2.0, 0.0, 0.0));
}

#[test]
fn line_loop_adds_closing_pair() {
    let m = model_with(Mode::LineLoop, 3, Some(vec![0, 1, 2]));
    let ls = m.lines().unwrap();
    assert_eq!(ls.len(), 3);
    // the closing pair joins the last index back to the first
    assert_eq!(ls[2][0].position, v3(2.0, 0.0, 0.0));
    assert_eq!(ls[2][1].position, v3(0.0, 0.0, 0.0));
}

#[test]
fn wrong_mode_is_rejected() {
    let tri = model_with(Mode::Triangles, 3, Some(vec![0, 1, 2]));
    assert_eq!(tri.lines().unwrap_err(), BadMode { mode: Mode::Triangles });
    assert!(tri.points().is_err());
    let pts = model_with(Mode::Points, 3, None);
    assert_eq!(pts.triangles().unwrap_err(), BadMode { mode: Mode::Points });
    assert!(pts.lines().is_err());
    assert_eq!(pts.points().unwrap().len(), 3);
    let lines = model_with(Mode::Lines, 2, None);
    assert!(lines.triangles().is_err());
    assert!(lines.points().is_err());
}

#[test]
fn accessors_expose_raw_data() {
    let m = model_with(Mode::Triangles, 3, Some(vec![0, 1, 2]));
    assert_eq!(m.vertices().len(), 3);
    assert_eq!(m.indices().unwrap(), &vec![0, 1, 2]);
    assert_eq!(m.mode(), Mode::Triangles);
    assert_eq!(m.primitive_index(), 0);
    assert!(m.mesh_name().is_none());
}

#[test]
fn line_loop_with_one_index_closes_on_itself() {
    let m = model_with(Mode::LineLoop, 1, Some(vec![0]));
    let ls = m.lines().unwrap();
    assert_eq!(ls.len(), 1);
    assert_eq!(ls[0][0].position, v3(0.0, 0.0, 0.0));
    assert_eq!(ls[0][1].position, v3(0.0, 0.0, 0.0));
}

#[test]
fn empty_index_lists_yield_nothing() {
    let m = model_with(Mode::LineLoop, 2, Some(vec![]));
    assert_eq!(m.lines().unwrap().len(), 0);
    let m = model_with(Mode::TriangleFan, 2, Some(vec![]));
    assert_eq!(m.triangles().unwrap().len(), 0);
    let m = model_with(Mode::Triangles, 2, Some(vec![]));
    assert_eq!(m.triangles().unwrap().len(), 0);
}
