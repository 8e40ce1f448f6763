//! Material and texture cache behavior: sharing, value reproducibility,
//! channel extraction, byte resolution and decode failures.

use base64::Engine;
use std::sync::Arc;
use minetest_gltf::document::{
    ImageSource, MaterialDesc, MeshDesc, Node, PrimitiveDesc, SceneDesc, TextureWithFactor,
};
use minetest_gltf::texture::ImageKind;
use minetest_gltf::vector::{Mat4, Vec3, Vec4};
use minetest_gltf::{load_scenes, GltfData, LoadError, Material, Mode};

fn v3(x: f32, y: f32, z: f32) -> Vec3 {
    Vec3 { x: x.to_bits(), y: y.to_bits(), z: z.to_bits() }
}

fn identity() -> Mat4 {
    let one = 1.0f32.to_bits();
    Mat4 {
        c0: Vec4 { x: one, y: 0, z: 0, w: 0 },
        c1: Vec4 { x: 0, y: one, z: 0, w: 0 },
        c2: Vec4 { x: 0, y: 0, z: one, w: 0 },
        c3: Vec4 { x: 0, y: 0, z: 0, w: one },
    }
}

/// A 2x2 RGBA image with distinct channel values per pixel, PNG-encoded.
fn sample_png() -> (image::RgbaImage, Vec<u8>) {
    let mut img = image::RgbaImage::new(2, 2);
    img.put_pixel(0, 0, image::Rgba([10, 20, 30, 40]));
    img.put_pixel(1, 0, image::Rgba([50, 60, 70, 80]));
    img.put_pixel(0, 1, image::Rgba([90, 100, 110, 120]));
    img.put_pixel(1, 1, image::Rgba([130, 140, 150, 160]));
    let mut bytes: Vec<u8> = Vec::new();
    img.write_to(&mut std::io::Cursor::new(&mut bytes), image::ImageFormat::Png).unwrap();
    (img, bytes)
}

fn prim(material: Option<usize>) -> PrimitiveDesc {
    PrimitiveDesc {
        positions: vec![v3(0.0, 0.0, 0.0), v3(1.0, 0.0, 0.0), v3(0.0, 1.0, 0.0)],
        normals: None,
        tangents: None,
        tex_coords: None,
        colors: None,
        indices: None,
        mode: Mode::Triangles,
        material,
        extras: None,
    }
}

fn textured_desc(texture: usize) -> MaterialDesc {
    MaterialDesc {
        base_color_texture: Some(texture),
        metallic_roughness_texture: Some(texture),
        metallic_factor: 0.25f32.to_bits(),
        roughness_factor: 0.75f32.to_bits(),
        ..Default::default()
    }
}

#[test]
fn same_material_index_shares_one_instance() {
    let node = Node {
        world: identity(),
        camera: None,
        light: None,
        mesh: Some(MeshDesc {
            name: None,
            extras: None,
            primitives: vec![prim(Some(0)), prim(Some(0)), prim(None)],
        }),
        children: vec![],
    };
    let scenes = vec![SceneDesc { name: None, extras: None, nodes: vec![node] }];
    let mut data = GltfData::new(vec![], vec![], vec![], vec![MaterialDesc::default()], true);
    let out = load_scenes(&scenes, &mut data).unwrap();
    let models = &out[0].models;
    assert_eq!(models.len(), 3);
    assert!(Arc::ptr_eq(&models[0].material(), &models[1].material()));
    assert!(!Arc::ptr_eq(&models[0].material(), &models[2].material()));
}

#[test]
fn independent_loads_are_value_equal_but_distinct() {
    let (_, png) = sample_png();
    let make_data = || {
        GltfData::new(
            vec![],
            vec![ImageSource::Bytes { bytes: png.clone(), format: ImageKind::Png }],
            vec![0],
            vec![textured_desc(0)],
            true,
        )
    };
    let mut d1 = make_data();
    let mut d2 = make_data();
    let m1 = Material::load(Some(0), &mut d1).unwrap();
    let m2 = Material::load(Some(0), &mut d2).unwrap();
    assert!(!Arc::ptr_eq(&m1, &m2));
    assert_eq!(m1.pbr.metallic_factor, m2.pbr.metallic_factor);
    assert_eq!(m1.pbr.roughness_factor, m2.pbr.roughness_factor);
    let t1 = m1.pbr.base_color_texture.as_ref().unwrap();
    let t2 = m2.pbr.base_color_texture.as_ref().unwrap();
    assert!(!Arc::ptr_eq(t1, t2));
    assert_eq!(t1.width, t2.width);
    assert_eq!(t1.height, t2.height);
    assert_eq!(t1.pixels, t2.pixels);
    let g1 = m1.pbr.roughness_texture.as_ref().unwrap();
    let g2 = m2.pbr.roughness_texture.as_ref().unwrap();
    assert_eq!(g1.pixels, g2.pixels);
    // within one load, the second request returns the first handle
    let m1_again = Material::load(Some(0), &mut d1).unwrap();
    assert!(Arc::ptr_eq(&m1, &m1_again));
}

#[test]
fn channel_extraction_picks_one_channel() {
    let (img, png) = sample_png();
    let mut data = GltfData::new(
        vec![],
        vec![ImageSource::Bytes { bytes: png, format: ImageKind::Png }],
        vec![0],
        vec![textured_desc(0)],
        true,
    );
    let m = Material::load(Some(0), &mut data).unwrap();
    let base = m.pbr.base_color_texture.as_ref().unwrap();
    assert_eq!((base.width, base.height), (2, 2));
    assert_eq!(base.pixels, img.clone().into_raw());
    // roughness is the green channel, metalness the blue channel
    let rough = m.pbr.roughness_texture.as_ref().unwrap();
    let metal = m.pbr.metallic_texture.as_ref().unwrap();
    assert_eq!((rough.width, rough.height), (2, 2));
    for y in 0..2u32 {
        for x in 0..2u32 {
            let i = (y * 2 + x) as usize;
            assert_eq!(rough.pixels[i], img.get_pixel(x, y)[1]);
            assert_eq!(metal.pixels[i], img.get_pixel(x, y)[2]);
        }
    }
    // the packed texture was decoded for two channels, never twice for one
    assert_eq!(data.gray_images.len(), 2);
}

#[test]
fn buffer_view_source_resolves() {
    let (img, png) = sample_png();
    let mut buffer = vec![0xAAu8; 3];
    let offset = buffer.len();
    buffer.extend_from_slice(&png);
    let length = png.len();
    buffer.extend_from_slice(&[0xBB, 0xCC]);
    let mut data = GltfData::new(
        vec![buffer],
        vec![ImageSource::View { buffer: 0, offset, length, mime: b"image/png".to_vec() }],
        vec![0],
        vec![textured_desc(0)],
        true,
    );
    let m = Material::load(Some(0), &mut data).unwrap();
    let base = m.pbr.base_color_texture.as_ref().unwrap();
    assert_eq!(base.pixels, img.into_raw());
}

#[test]
fn data_uri_source_resolves() {
    let (img, png) = sample_png();
    let encoded = base64::engine::general_purpose::URL_SAFE_NO_PAD.encode(&png);
    // MIME type taken from the URI head when the document gives none
    let uri = format!("data:image/png;base64,{}", encoded).into_bytes();
    let mut data = GltfData::new(
        vec![],
        vec![ImageSource::DataUri { uri, mime: None }],
        vec![0],
        vec![textured_desc(0)],
        true,
    );
    let m = Material::load(Some(0), &mut data).unwrap();
    assert_eq!(m.pbr.base_color_texture.as_ref().unwrap().pixels, img.clone().into_raw());
    // and from the document when it does
    let uri2 = format!("data:;base64,{}", encoded).into_bytes();
    let mut data2 = GltfData::new(
        vec![],
        vec![ImageSource::DataUri { uri: uri2, mime: Some(b"image/png".to_vec()) }],
        vec![0],
        vec![textured_desc(0)],
        true,
    );
    let m2 = Material::load(Some(0), &mut data2).unwrap();
    assert_eq!(m2.pbr.base_color_texture.as_ref().unwrap().pixels, img.into_raw());
}

#[test]
fn undecodable_texture_aborts_the_load() {
    let node = Node {
        world: identity(),
        camera: None,
        light: None,
        mesh: Some(MeshDesc { name: None, extras: None, primitives: vec![prim(Some(0))] }),
        children: vec![],
    };
    let scenes = vec![SceneDesc { name: None, extras: None, nodes: vec![node] }];
    let mut data = GltfData::new(
        vec![],
        vec![ImageSource::Bytes { bytes: vec![1, 2, 3, 4], format: ImageKind::Png }],
        vec![0],
        vec![textured_desc(0)],
        true,
    );
    let err = load_scenes(&scenes, &mut data).unwrap_err();
    assert_eq!(err, LoadError::TextureDecode);
}

#[test]
fn skipping_textures_leaves_factors_only() {
    let (_, png) = sample_png();
    let mut data = GltfData::new(
        vec![],
        vec![ImageSource::Bytes { bytes: png, format: ImageKind::Png }],
        vec![0],
        vec![MaterialDesc {
            emissive_factor: v3(0.5, 0.25, 0.125),
            emissive_texture: Some(0),
            ..textured_desc(0)
        }],
        false,
    );
    let m = Material::load(Some(0), &mut data).unwrap();
    assert!(m.pbr.base_color_texture.is_none());
    assert!(m.pbr.metallic_texture.is_none());
    assert!(m.pbr.roughness_texture.is_none());
    assert!(m.emissive.texture.is_none());
    assert_eq!(m.pbr.metallic_factor, 0.25f32.to_bits());
    assert_eq!(m.emissive.factor, v3(0.5, 0.25, 0.125));
}

#[test]
fn default_material_uses_document_defaults() {
    let mut data = GltfData::new(vec![], vec![], vec![], vec![], true);
    let m = Material::load(None, &mut data).unwrap();
    let one = 1.0f32.to_bits();
    assert_eq!(m.pbr.base_color_factor, Vec4 { x: one, y: one, z: one, w: one });
    assert_eq!(m.pbr.metallic_factor, one);
    assert_eq!(m.pbr.roughness_factor, one);
    assert_eq!(m.alpha_cutoff, 0.5f32.to_bits());
    assert!(m.pbr.base_color_texture.is_none());
    assert!(m.normal.is_none());
    assert!(m.occlusion.is_none());
    assert!(m.emissive.texture.is_none());
}

#[test]
fn normal_occlusion_emissive_textures_load() {
    let (img, png) = sample_png();
    let desc = MaterialDesc {
        normal_texture: Some(TextureWithFactor { texture: 0, factor: 0.8f32.to_bits() }),
        occlusion_texture: Some(TextureWithFactor { texture: 0, factor: 0.9f32.to_bits() }),
        emissive_texture: Some(0),
        ..Default::default()
    };
    let mut data = GltfData::new(
        vec![],
        vec![ImageSource::Bytes { bytes: png.clone(), format: ImageKind::Png }],
        vec![0],
        vec![desc],
        true,
    );
    let m = Material::load(Some(0), &mut data).unwrap();
    let normal = m.normal.as_ref().unwrap();
    assert_eq!(normal.factor, 0.8f32.to_bits());
    let rgb = image::load_from_memory_with_format(&png, image::ImageFormat::Png)
        .unwrap()
        .to_rgb8();
    assert_eq!(normal.texture.pixels, rgb.clone().into_raw());
    let occ = m.occlusion.as_ref().unwrap();
    assert_eq!(occ.factor, 0.9f32.to_bits());
    // occlusion is the red channel
    for y in 0..2u32 {
        for x in 0..2u32 {
            assert_eq!(occ.texture.pixels[(y * 2 + x) as usize], img.get_pixel(x, y)[0]);
        }
    }
    assert_eq!(m.emissive.texture.as_ref().unwrap().pixels, rgb.into_raw());
    // the RGB decode of the shared texture is cached once for both users
    assert_eq!(data.rgb_images.len(), 1);
}

#[test]
fn unknown_mime_type_fails() {
    let (_, png) = sample_png();
    let mut data = GltfData::new(
        vec![png.clone()],
        vec![ImageSource::View { buffer: 0, offset: 0, length: png.len(), mime: b"image/tiff".to_vec() }],
        vec![0],
        vec![textured_desc(0)],
        true,
    );
    assert_eq!(Material::load(Some(0), &mut data).unwrap_err(), LoadError::TextureDecode);
}

#[test]
fn out_of_bounds_view_fails() {
    let (_, png) = sample_png();
    let mut data = GltfData::new(
        vec![png.clone()],
        vec![ImageSource::View { buffer: 0, offset: 4, length: png.len(), mime: b"image/png".to_vec() }],
        vec![0],
        vec![textured_desc(0)],
        true,
    );
    assert_eq!(Material::load(Some(0), &mut data).unwrap_err(), LoadError::TextureDecode);
}
