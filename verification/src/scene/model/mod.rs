//! Geometry to be rendered with a given material.

pub mod material;
pub mod mode;
pub mod vertex;

use std::sync::Arc;
use vstd::prelude::*;

pub use material::Material;
pub use mode::{BadMode, Mode};
pub use vertex::{Line, Triangle, Vertex, VertexColor};

use crate::document::{MeshDesc, PrimitiveDesc};
use crate::utils::GltfData;
use crate::vector::{Vec2, Vec3, Vec4};
use crate::LoadError;

verus! {

/// The vertex that loading `prim` puts at position `i`: the world-space
/// position, then each optional attribute taken from its stream where the
/// stream reaches `i` and left at the zero encoding where it does not. A
/// tangent keeps its source handedness sign, untransformed, as the fourth
/// component.
pub open spec fn loaded_vertex(prim: PrimitiveDesc, i: int) -> Vertex {
    Vertex {
        position: prim.positions@[i],
        normal: match prim.normals {
            Some(v) => if i < v@.len() {
                v@[i]
            } else {
                Vec3 { x: 0, y: 0, z: 0 }
            },
            None => Vec3 { x: 0, y: 0, z: 0 },
        },
        tangent: match prim.tangents {
            Some(v) => if i < v@.len() {
                Vec4 {
                    x: v@[i].direction.x,
                    y: v@[i].direction.y,
                    z: v@[i].direction.z,
                    w: v@[i].sign,
                }
            } else {
                Vec4 { x: 0, y: 0, z: 0, w: 0 }
            },
            None => Vec4 { x: 0, y: 0, z: 0, w: 0 },
        },
        tex_coords: match prim.tex_coords {
            Some(v) => if i < v@.len() {
                v@[i]
            } else {
                Vec2 { x: 0, y: 0 }
            },
            None => Vec2 { x: 0, y: 0 },
        },
        color: match prim.colors {
            Some(v) => if i < v@.len() {
                v@[i]
            } else {
                VertexColor { r: 0, g: 0, b: 0, a: 0 }
            },
            None => VertexColor { r: 0, g: 0, b: 0, a: 0 },
        },
    }
}

/// Geometry to be rendered with the given material: one model per mesh
/// primitive. Check the draw mode with [`Model::mode`], then read the
/// geometry either through `vertices()`/`indices()` or through the
/// mode-checked accessors `triangles()`, `lines()` and `points()`.
#[derive(Clone, Debug)]
pub struct Model {
    /// Mesh name, when the source mesh carried one.
    pub mesh_name: Option<String>,
    /// Mesh extra data, as its raw JSON text.
    pub mesh_extras: Option<String>,
    /// Primitive extra data, as its raw JSON text.
    pub primitive_extras: Option<String>,
    /// Index of the primitive within its mesh.
    pub primitive_index: usize,
    /// Raw vertices; see `indices`.
    pub vertices: Vec<Vertex>,
    /// Optional index stream into `vertices`.
    pub indices: Option<Vec<u32>>,
    /// The topology to render the model with.
    pub mode: Mode,
    /// Shared material of the model.
    pub material: Arc<Material>,
    /// Whether the source primitive carried a normal stream.
    pub has_normals: bool,
    /// Whether the source primitive carried a tangent stream.
    pub has_tangents: bool,
    /// Whether the source primitive carried a texture-coordinate stream.
    pub has_tex_coords: bool,
    /// Whether the source primitive carried a color stream.
    pub has_colors: bool,
}

impl Model {
    /// The index list the topology accessors consume: the stored index
    /// stream when there is one, otherwise the implicit list
    /// `0..vertices.len()`.
    pub open spec fn effective_indices(self) -> Seq<u32> {
        match self.indices {
            Some(v) => v@,
            None => Seq::new(self.vertices@.len(), |i: int| i as u32),
        }
    }

    /// The vertex that index-list position `i` selects.
    pub open spec fn vertex_at(self, i: int) -> Vertex {
        self.vertices@[self.effective_indices()[i] as int]
    }

    /// Well-formedness: the vertex count fits the index width and every
    /// index selects an existing vertex. [`Model::load`] establishes this
    /// for every model it builds.
    pub open spec fn wf(self) -> bool {
        &&& self.vertices@.len() <= u32::MAX
        &&& forall|i: int|
            0 <= i < self.effective_indices().len() ==> (self.effective_indices()[i] as int)
                < self.vertices@.len()
    }

    /// How many triangles the index list yields under this draw mode: the
    /// index count divided by three for independent triangles (a trailing
    /// partial triple is dropped), and two less than the index count for
    /// strips and fans (fewer than three indices yield no triangle).
    pub open spec fn triangle_count(self) -> int {
        let n = self.effective_indices().len() as int;
        match self.mode {
            Mode::Triangles => n / 3,
            Mode::TriangleStrip => if n >= 3 { n - 2 } else { 0 },
            Mode::TriangleFan => if n >= 3 { n - 2 } else { 0 },
            _ => 0,
        }
    }

    /// Corner `j` (0, 1 or 2) of triangle `k`. Independent triangles
    /// consume consecutive triples. A strip emits, for position `k`, the
    /// index-list positions `{k + k%2, k+1-k%2, k+2}`, alternating the
    /// first two corners to keep a consistent winding. A fan emits
    /// `{0, k+1, k+2}`.
    pub open spec fn triangle_corner(self, k: int, j: int) -> Vertex {
        match self.mode {
            Mode::Triangles => self.vertex_at(3 * k + j),
            Mode::TriangleStrip => {
                if j == 0 {
                    self.vertex_at(k + k % 2)
                } else if j == 1 {
                    self.vertex_at(k + 1 - k % 2)
                } else {
                    self.vertex_at(k + 2)
                }
            },
            _ => {
                if j == 0 {
                    self.vertex_at(0)
                } else if j == 1 {
                    self.vertex_at(k + 1)
                } else {
                    self.vertex_at(k + 2)
                }
            },
        }
    }

    /// How many lines the index list yields under this draw mode:
    /// consecutive pairs for independent lines (a trailing odd index is
    /// dropped), one less than the index count for a strip, and exactly
    /// the index count for a loop (the strip's pairs plus one closing
    /// pair). An empty index list yields no line.
    pub open spec fn line_count(self) -> int {
        let n = self.effective_indices().len() as int;
        match self.mode {
            Mode::Lines => n / 2,
            Mode::LineStrip => if n >= 1 { n - 1 } else { 0 },
            Mode::LineLoop => n,
            _ => 0,
        }
    }

    /// End `j` (0 or 1) of line `k`. Independent lines consume consecutive
    /// pairs; strips and loops emit overlapping pairs, and the loop's last
    /// line closes back from the last index to the first.
    pub open spec fn line_end(self, k: int, j: int) -> Vertex {
        let n = self.effective_indices().len() as int;
        match self.mode {
            Mode::Lines => self.vertex_at(2 * k + j),
            _ => {
                if self.mode is LineLoop && k == n - 1 {
                    if j == 0 {
                        self.vertex_at(n - 1)
                    } else {
                        self.vertex_at(0)
                    }
                } else {
                    self.vertex_at(k + j)
                }
            },
        }
    }

    /// Mesh name, when the source mesh carried one. A model corresponds to
    /// one primitive, so a mesh with several primitives yields several
    /// models with the same name; `primitive_index` tells them apart.
    pub fn mesh_name(&self) -> (r: Option<&str>)
        ensures
            match r {
                Some(s) => self.mesh_name matches Some(n) && n@ == s@,
                None => self.mesh_name is None,
            },
    {
        match &self.mesh_name {
            Some(s) => Some(s.as_str()),
            None => None,
        }
    }

    /// Mesh extra data, when the source mesh carried any: its raw JSON
    /// text, shared by every model of the mesh.
    pub fn mesh_extras(&self) -> (r: Option<&str>)
        ensures
            match r {
                Some(s) => self.mesh_extras matches Some(e) && e@ == s@,
                None => self.mesh_extras is None,
            },
    {
        match &self.mesh_extras {
            Some(s) => Some(s.as_str()),
            None => None,
        }
    }

    /// Primitive extra data, when the source primitive carried any: its
    /// raw JSON text.
    pub fn primitive_extras(&self) -> (r: Option<&str>)
        ensures
            match r {
                Some(s) => self.primitive_extras matches Some(e) && e@ == s@,
                None => self.primitive_extras is None,
            },
    {
        match &self.primitive_extras {
            Some(s) => Some(s.as_str()),
            None => None,
        }
    }

    /// Index of the primitive of the mesh that this model corresponds to.
    pub fn primitive_index(&self) -> (r: usize)
        ensures
            r == self.primitive_index,
    {
        self.primitive_index
    }

    /// Material to apply to the whole model. The handle is shared with
    /// every other model whose primitive named the same source material.
    pub fn material(&self) -> (r: Arc<Material>)
        ensures
            r == self.material,
    {
        self.material.clone()
    }

    /// List of raw vertices of the model. You might have to use the
    /// indices to render the model.
    pub fn vertices(&self) -> (r: &Vec<Vertex>)
        ensures
            r@ == self.vertices@,
    {
        &self.vertices
    }

    /// Potential list of indices to render the model using raw vertices.
    pub fn indices(&self) -> (r: Option<&Vec<u32>>)
        ensures
            match r {
                Some(v) => self.indices matches Some(w) && v@ == w@,
                None => self.indices is None,
            },
    {
        self.indices.as_ref()
    }

    /// The type of primitive to render. Check the mode, then use either
    /// `vertices()` and `indices()` to arrange the data yourself, or
    /// `triangles()`, `lines()` or `points()` according to the mode.
    pub fn mode(&self) -> (r: Mode)
        ensures
            r == self.mode,
    {
        self.mode
    }

    /// Indicates whether the vertices carry normal information. When this
    /// returns `false`, every vertex has a normal equal to the zero
    /// vector.
    pub fn has_normals(&self) -> (r: bool)
        ensures
            r == self.has_normals,
    {
        self.has_normals
    }

    /// Indicates whether the vertices carry tangent information. When this
    /// returns `false`, every vertex has a tangent equal to the zero
    /// vector.
    pub fn has_tangents(&self) -> (r: bool)
        ensures
            r == self.has_tangents,
    {
        self.has_tangents
    }

    /// Indicates whether the vertices carry texture coordinates. When this
    /// returns `false`, every vertex has texture coordinates equal to
    /// zero.
    pub fn has_tex_coords(&self) -> (r: bool)
        ensures
            r == self.has_tex_coords,
    {
        self.has_tex_coords
    }

    /// Indicates whether the vertices carry color information. When this
    /// returns `false`, every vertex has an all-zero color.
    pub fn has_colors(&self) -> (r: bool)
        ensures
            r == self.has_colors,
    {
        self.has_colors
    }

    /// Builds the model for one primitive of `mesh`: the material is
    /// resolved through the shared cache, one vertex is assembled per
    /// world-space position, absent attribute streams leave their vertex
    /// fields at the zero encoding, and the presence flags record which
    /// streams the source carried. The mesh's name and extra data are
    /// shared by every model built from it.
    pub fn load(
        mesh: &MeshDesc,
        primitive_index: usize,
        primitive: &PrimitiveDesc,
        data: &mut GltfData,
    ) -> (r: Result<Model, LoadError>)
        requires
            old(data).wf(),
            primitive.wf(),
            primitive.material matches Some(i) ==> i < old(data).material_descs@.len(),
        ensures
            final(data).wf(),
            final(data).same_doc(*old(data)),
            (r is Ok) == material::material_ok(*old(data), primitive.material),
            r matches Err(e) ==> e == LoadError::TextureDecode,
            r matches Ok(m) ==> {
                &&& m.vertices@.len() == primitive.positions@.len()
                &&& forall|i: int|
                    0 <= i < m.vertices@.len() ==> m.vertices@[i] == loaded_vertex(*primitive, i)
                &&& match m.indices {
                    Some(v) => primitive.indices matches Some(w) && v@ == w@,
                    None => primitive.indices is None,
                }
                &&& m.mode == primitive.mode
                &&& m.primitive_index == primitive_index
                &&& m.mesh_name == mesh.name
                &&& m.mesh_extras == mesh.extras
                &&& m.primitive_extras == primitive.extras
                &&& m.has_normals == (primitive.normals is Some)
                &&& m.has_tangents == (primitive.tangents is Some)
                &&& m.has_tex_coords == (primitive.tex_coords is Some)
                &&& m.has_colors == (primitive.colors is Some)
                &&& material::material_matches(*m.material, *final(data), primitive.material)
                &&& m.wf()
            },
    {
        let material = match Material::load(primitive.material, data) {
            Ok(m) => m,
            Err(e) => {
                return Err(e);
            },
        };
        let n = primitive.positions.len();
        let mut vertices: Vec<Vertex> = Vec::new();
        let mut i: usize = 0;
        while i < n
            invariant
                primitive.wf(),
                n == primitive.positions@.len(),
                i <= n,
                vertices@.len() == i,
                forall|j: int| 0 <= j < i ==> vertices@[j] == loaded_vertex(*primitive, j),
            decreases n - i,
        {
            let mut v = Vertex::default();
            v.position = primitive.positions[i];
            if let Some(ns) = &primitive.normals {
                if i < ns.len() {
                    v.normal = ns[i];
                }
            }
            if let Some(ts) = &primitive.tangents {
                if i < ts.len() {
                    v.tangent = Vec4 {
                        x: ts[i].direction.x,
                        y: ts[i].direction.y,
                        z: ts[i].direction.z,
                        w: ts[i].sign,
                    };
                }
            }
            if let Some(tc) = &primitive.tex_coords {
                if i < tc.len() {
                    v.tex_coords = tc[i];
                }
            }
            if let Some(cs) = &primitive.colors {
                if i < cs.len() {
                    v.color = cs[i];
                }
            }
            vertices.push(v);
            i = i + 1;
        }
        let indices: Option<Vec<u32>> = match &primitive.indices {
            Some(v) => Some(v.clone()),
            None => None,
        };
        let model = Model {
            mesh_name: crate::clone_opt_string(&mesh.name),
            mesh_extras: crate::clone_opt_string(&mesh.extras),
            primitive_extras: crate::clone_opt_string(&primitive.extras),
            primitive_index,
            vertices,
            indices,
            mode: primitive.mode,
            material,
            has_normals: primitive.normals.is_some(),
            has_tangents: primitive.tangents.is_some(),
            has_tex_coords: primitive.tex_coords.is_some(),
            has_colors: primitive.colors.is_some(),
        };
        proof {
            assert forall|k: int|
                0 <= k < model.effective_indices().len() implies (
            model.effective_indices()[k] as int) < model.vertices@.len() by {
                if model.indices is Some {
                    assert(model.effective_indices()[k] == primitive.indices->0@[k]);
                }
            }
        }
        Ok(model)
    }

    /// Materializes the index list the topology accessors consume.
    fn index_list(&self) -> (r: Vec<u32>)
        requires
            self.vertices@.len() <= u32::MAX,
        ensures
            r@ == self.effective_indices(),
    {
        match &self.indices {
            Some(v) => v.clone(),
            None => {
                let n = self.vertices.len();
                let mut r: Vec<u32> = Vec::new();
                let mut i: usize = 0;
                while i < n
                    invariant
                        n == self.vertices@.len() <= u32::MAX,
                        i <= n,
                        r@.len() == i,
                        forall|j: int| 0 <= j < i ==> r@[j] == j as u32,
                    decreases n - i,
                {
                    r.push(i as u32);
                    i = i + 1;
                }
                proof {
                    assert(r@ =~= self.effective_indices());
                }
                r
            },
        }
    }

    /// List of triangles ready to be rendered, or the draw-mode error when
    /// the mode is not `Triangles`, `TriangleFan` or `TriangleStrip`.
    pub fn triangles(&self) -> (r: Result<Vec<Triangle>, BadMode>)
        requires
            self.wf(),
        ensures
            match r {
                Ok(ts) => {
                    &&& self.mode.is_triangle_mode()
                    &&& ts@.len() == self.triangle_count()
                    &&& forall|k: int, j: int|
                        0 <= k < ts@.len() && 0 <= j < 3 ==> ts@[k][j] == self.triangle_corner(
                            k,
                            j,
                        )
                },
                Err(e) => !self.mode.is_triangle_mode() && e == (BadMode { mode: self.mode }),
            },
    {
        let mut triangles: Vec<Triangle> = Vec::new();
        let indices = match self.mode {
            Mode::Triangles | Mode::TriangleStrip | Mode::TriangleFan => self.index_list(),
            _ => {
                return Err(BadMode { mode: self.mode });
            },
        };
        let n = indices.len();
        match self.mode {
            Mode::Triangles => {
                let count = n / 3;
                let mut k: usize = 0;
                while k < count
                    invariant
                        self.wf(),
                        self.mode is Triangles,
                        indices@ == self.effective_indices(),
                        n == indices@.len(),
                        count == n / 3,
                        k <= count,
                        triangles@.len() == k,
                        forall|m: int, j: int|
                            0 <= m < k && 0 <= j < 3 ==> triangles@[m][j] == self.triangle_corner(
                                m,
                                j,
                            ),
                    decreases count - k,
                {
                    let t: Triangle = [
                        self.vertices[indices[3 * k] as usize],
                        self.vertices[indices[3 * k + 1] as usize],
                        self.vertices[indices[3 * k + 2] as usize],
                    ];
                    triangles.push(t);
                    k = k + 1;
                }
                Ok(triangles)
            },
            Mode::TriangleStrip => {
                if n < 3 {
                    return Ok(triangles);
                }
                let count = n - 2;
                let mut k: usize = 0;
                while k < count
                    invariant
                        self.wf(),
                        self.mode is TriangleStrip,
                        indices@ == self.effective_indices(),
                        n == indices@.len(),
                        3 <= n,
                        count == n - 2,
                        k <= count,
                        triangles@.len() == k,
                        forall|m: int, j: int|
                            0 <= m < k && 0 <= j < 3 ==> triangles@[m][j] == self.triangle_corner(
                                m,
                                j,
                            ),
                    decreases count - k,
                {
                    let t: Triangle = [
                        self.vertices[indices[k + k % 2] as usize],
                        self.vertices[indices[k + 1 - k % 2] as usize],
                        self.vertices[indices[k + 2] as usize],
                    ];
                    triangles.push(t);
                    k = k + 1;
                }
                Ok(triangles)
            },
            _ => {
                if n < 3 {
                    return Ok(triangles);
                }
                let count = n - 2;
                let mut k: usize = 0;
                while k < count
                    invariant
                        self.wf(),
                        self.mode is TriangleFan,
                        indices@ == self.effective_indices(),
                        n == indices@.len(),
                        3 <= n,
                        count == n - 2,
                        k <= count,
                        triangles@.len() == k,
                        forall|m: int, j: int|
                            0 <= m < k && 0 <= j < 3 ==> triangles@[m][j] == self.triangle_corner(
                                m,
                                j,
                            ),
                    decreases count - k,
                {
                    let t: Triangle = [
                        self.vertices[indices[0] as usize],
                        self.vertices[indices[k + 1] as usize],
                        self.vertices[indices[k + 2] as usize],
                    ];
                    triangles.push(t);
                    k = k + 1;
                }
                Ok(triangles)
            },
        }
    }

    /// List of lines ready to be rendered, or the draw-mode error when the
    /// mode is not `Lines`, `LineLoop` or `LineStrip`.
    pub fn lines(&self) -> (r: Result<Vec<Line>, BadMode>)
        requires
            self.wf(),
        ensures
            match r {
                Ok(ls) => {
                    &&& self.mode.is_line_mode()
                    &&& ls@.len() == self.line_count()
                    &&& forall|k: int, j: int|
                        0 <= k < ls@.len() && 0 <= j < 2 ==> ls@[k][j] == self.line_end(k, j)
                },
                Err(e) => !self.mode.is_line_mode() && e == (BadMode { mode: self.mode }),
            },
    {
        let mut lines: Vec<Line> = Vec::new();
        let indices = match self.mode {
            Mode::Lines | Mode::LineStrip | Mode::LineLoop => self.index_list(),
            _ => {
                return Err(BadMode { mode: self.mode });
            },
        };
        let n = indices.len();
        match self.mode {
            Mode::Lines => {
                let count = n / 2;
                let mut k: usize = 0;
                while k < count
                    invariant
                        self.wf(),
                        self.mode is Lines,
                        indices@ == self.effective_indices(),
                        n == indices@.len(),
                        count == n / 2,
                        k <= count,
                        lines@.len() == k,
                        forall|m: int, j: int|
                            0 <= m < k && 0 <= j < 2 ==> lines@[m][j] == self.line_end(m, j),
                    decreases count - k,
                {
                    let l: Line = [
                        self.vertices[indices[2 * k] as usize],
                        self.vertices[indices[2 * k + 1] as usize],
                    ];
                    lines.push(l);
                    k = k + 1;
                }
                Ok(lines)
            },
            _ => {
                if n == 0 {
                    return Ok(lines);
                }
                let count = n - 1;
                let mut k: usize = 0;
                while k < count
                    invariant
                        self.wf(),
                        self.mode is LineStrip || self.mode is LineLoop,
                        indices@ == self.effective_indices(),
                        n == indices@.len(),
                        1 <= n,
                        count == n - 1,
                        k <= count,
                        lines@.len() == k,
                        forall|m: int, j: int|
                            0 <= m < k && 0 <= j < 2 ==> lines@[m][j] == self.line_end(m, j),
                    decreases count - k,
                {
                    let l: Line = [
                        self.vertices[indices[k] as usize],
                        self.vertices[indices[k + 1] as usize],
                    ];
                    lines.push(l);
                    k = k + 1;
                }
                if let Mode::LineLoop = self.mode {
                    let l: Line = [
                        self.vertices[indices[n - 1] as usize],
                        self.vertices[indices[0] as usize],
                    ];
                    lines.push(l);
                }
                Ok(lines)
            },
        }
    }

    /// The raw vertex list, or the draw-mode error when the mode is not
    /// `Points`.
    pub fn points(&self) -> (r: Result<&Vec<Vertex>, BadMode>)
        ensures
            match r {
                Ok(vs) => self.mode is Points && vs@ == self.vertices@,
                Err(e) => !(self.mode is Points) && e == (BadMode { mode: self.mode }),
            },
    {
        match self.mode {
            Mode::Points => Ok(&self.vertices),
            _ => Err(BadMode { mode: self.mode }),
        }
    }
}

} // verus!
