//! The mesh: from parsed model data to the contents of a vertex buffer.

use vstd::prelude::*;
use crate::pod::{image_of, is_image, ONE, ZERO};
use crate::renderer::frame::{FrameResources, ObjectRenderResources};
use crate::renderer::plan::{FilterMode, SamplerPlan, TextureFormat, TexturePlan, TextureUsages};
use crate::renderer::vertex::{mesh_words, vertex_words, Vertex};

verus! {

/// The mesh that is shown when no file has been chosen.
pub const DEFAULT_OBJECT_PATH: &'static str = "./objects/test1.obj";

/// Why a mesh or its texture cannot be shown.
#[derive(Clone, Copy, PartialEq, Eq, Structural, Debug)]
pub enum AssetError {
    /// The file holds no model.
    NoModel,
    /// The mesh has more corners than a draw call can count.
    TooManyVertices,
    /// A corner refers to an attribute that the mesh does not hold.
    IndexOutOfRange,
    /// The pixel data is not four bytes for each pixel of the image.
    TextureSizeMismatch,
    /// A row of the image is longer than a copy can express.
    TextureTooWide,
}

impl AssetError {
    /// What the user is told.
    pub open spec fn message(self) -> Seq<char> {
        match self {
            AssetError::NoModel => "the file holds no model"@,
            AssetError::TooManyVertices => "the mesh has too many vertices"@,
            AssetError::IndexOutOfRange => "the mesh refers to a vertex it does not hold"@,
            AssetError::TextureSizeMismatch => "the texture's pixel data does not match its size"@,
            AssetError::TextureTooWide => "the texture is too wide"@,
        }
    }

    /// What the user is told.
    pub fn to_string(&self) -> (s: String)
        ensures
            s@ == self.message(),
    {
        match self {
            AssetError::NoModel => "the file holds no model".to_owned(),
            AssetError::TooManyVertices => "the mesh has too many vertices".to_owned(),
            AssetError::IndexOutOfRange => "the mesh refers to a vertex it does not hold".to_owned(),
            AssetError::TextureSizeMismatch => "the texture's pixel data does not match its size".to_owned(),
            AssetError::TextureTooWide => "the texture is too wide".to_owned(),
        }
    }
}

/// One model as a mesh file gives it: attribute arrays of binary32
/// encodings, and for every corner of every triangle an index into them.
/// `normals` and `texcoords` may be empty.
#[derive(PartialEq, Eq, Debug)]
pub struct MeshData {
    pub positions: Vec<u32>,
    pub normals: Vec<u32>,
    pub texcoords: Vec<u32>,
    pub indices: Vec<u32>,
}

impl MeshData {
    /// The attributes with index `i` are all there.
    pub open spec fn holds(self, i: int) -> bool {
        &&& 3 * i + 2 < self.positions@.len()
        &&& self.normals@.len() > 0 ==> 3 * i + 2 < self.normals@.len()
        &&& self.texcoords@.len() > 0 ==> 2 * i + 1 < self.texcoords@.len()
    }

    /// Every corner refers to attributes that are there.
    pub open spec fn well_indexed(self) -> bool {
        forall|k: int| 0 <= k < self.indices@.len() ==> self.holds(#[trigger] self.indices@[k] as int)
    }

    /// The vertex made of the attributes with index `i`. A mesh without
    /// normals gets the unit normal along +z, one without texture
    /// coordinates the origin.
    pub open spec fn corner(self, i: int) -> Vertex {
        Vertex {
            position: [
                self.positions@[3 * i],
                self.positions@[3 * i + 1],
                self.positions@[3 * i + 2],
            ],
            normal: if self.normals@.len() > 0 {
                [self.normals@[3 * i], self.normals@[3 * i + 1], self.normals@[3 * i + 2]]
            } else {
                [ZERO, ZERO, ONE]
            },
            texcoord: if self.texcoords@.len() > 0 {
                [self.texcoords@[2 * i], self.texcoords@[2 * i + 1]]
            } else {
                [ZERO, ZERO]
            },
        }
    }

    /// One vertex for each corner, in the order of `indices`: nothing is
    /// shared between corners.
    pub open spec fn flattened(self) -> Seq<Vertex> {
        Seq::new(self.indices@.len(), |k: int| self.corner(self.indices@[k] as int))
    }

    /// Whether the attributes with index `i` are all there.
    fn has(&self, i: u32) -> (b: bool)
        ensures
            b == self.holds(i as int),
    {
        let i: u64 = i as u64;
        3 * i + 2 < self.positions.len() as u64 && (self.normals.len() == 0 || 3 * i + 2
            < self.normals.len() as u64) && (self.texcoords.len() == 0 || 2 * i + 1
            < self.texcoords.len() as u64)
    }

    /// The vertex made of the attributes with index `i`.
    fn vertex(&self, i: u32) -> (v: Vertex)
        requires
            self.holds(i as int),
        ensures
            v == self.corner(i as int),
    {
        let i: usize = i as usize;
        assert(3 * i + 2 < self.positions.len());
        let position = [self.positions[3 * i], self.positions[3 * i + 1], self.positions[3 * i + 2]];
        let normal = if self.normals.len() > 0 {
            [self.normals[3 * i], self.normals[3 * i + 1], self.normals[3 * i + 2]]
        } else {
            [ZERO, ZERO, ONE]
        };
        let texcoord = if self.texcoords.len() > 0 {
            [self.texcoords[2 * i], self.texcoords[2 * i + 1]]
        } else {
            [ZERO, ZERO]
        };
        Vertex::new(position, normal, texcoord)
    }

    /// The vertices of the mesh, one for each corner.
    pub fn flatten(&self) -> (r: Result<Vec<Vertex>, AssetError>)
        ensures
            self.well_indexed() ==> r is Ok && r->Ok_0@ == self.flattened(),
            !self.well_indexed() ==> r == Err::<Vec<Vertex>, AssetError>(AssetError::IndexOutOfRange),
    {
        let mut vertices: Vec<Vertex> = Vec::new();
        let mut k: usize = 0;
        while k < self.indices.len()
            invariant
                k <= self.indices@.len(),
                forall|j: int| 0 <= j < k ==> self.holds(#[trigger] self.indices@[j] as int),
                vertices@ == Seq::new(k as nat, |j: int| self.corner(self.indices@[j] as int)),
            decreases self.indices@.len() - k,
        {
            let i = self.indices[k];
            if !self.has(i) {
                return Err(AssetError::IndexOutOfRange);
            }
            vertices.push(self.vertex(i));
            k += 1;
        }
        Ok(vertices)
    }
}

/// A decoded image: `rgba` holds four bytes for each pixel, row by row.
#[derive(PartialEq, Eq, Debug)]
pub struct TextureImage {
    pub width: u32,
    pub height: u32,
    pub rgba: Vec<u8>,
}

/// How the image of a material reaches the device.
#[derive(Clone, Copy, PartialEq, Eq, Structural, Debug)]
pub struct TextureUpload {
    pub texture: TexturePlan,
    pub bytes_per_row: u32,
    pub rows_per_image: u32,
    pub sampler: SamplerPlan,
}

/// What the device is given for a mesh.
#[derive(PartialEq, Eq, Debug)]
pub struct MeshUpload {
    /// Contents of the vertex buffer.
    pub vertices: Vec<u8>,
    /// Number of vertices in it.
    pub vertex_count: u32,
    pub texture: Option<TextureUpload>,
}

/// The upload of an image of `width` by `height` pixels.
pub open spec fn texture_upload(width: u32, height: u32) -> TextureUpload {
    TextureUpload {
        texture: TexturePlan {
            width,
            height,
            format: TextureFormat::Rgba8UnormSrgb,
            usage: TextureUsages { copy_dst: true, texture_binding: true, render_attachment: false },
            view_format: None,
        },
        bytes_per_row: (4 * width) as u32,
        rows_per_image: height,
        sampler: SamplerPlan {
            mag_filter: FilterMode::Linear,
            min_filter: FilterMode::Nearest,
            mipmap_filter: FilterMode::Nearest,
        },
    }
}

/// The error, if any, that keeps `image` from the device.
pub open spec fn texture_error(image: TextureImage) -> Option<AssetError> {
    if 4 * image.width > u32::MAX {
        Some(AssetError::TextureTooWide)
    } else if image.rgba@.len() != 4 * image.width * image.height {
        Some(AssetError::TextureSizeMismatch)
    } else {
        None
    }
}

/// The error, if any, that keeps the first of `models` from the device.
pub open spec fn mesh_error(models: Seq<MeshData>) -> Option<AssetError> {
    if models.len() == 0 {
        Some(AssetError::NoModel)
    } else if models[0].indices@.len() > u32::MAX {
        Some(AssetError::TooManyVertices)
    } else if !models[0].well_indexed() {
        Some(AssetError::IndexOutOfRange)
    } else {
        None
    }
}

/// The error, if any, that keeps the first of `models`, with the image of
/// its material if it has one, from the device. An error of the mesh comes
/// before any of the image.
pub open spec fn asset_error(models: Seq<MeshData>, image: Option<&TextureImage>) -> Option<
    AssetError,
> {
    if mesh_error(models) is Some {
        mesh_error(models)
    } else {
        match image {
            Some(i) => texture_error(*i),
            None => None,
        }
    }
}

/// `upload` is what the device is given for the first of `models`, with
/// the image of its material if it has one.
pub open spec fn is_upload(
    upload: MeshUpload,
    models: Seq<MeshData>,
    image: Option<&TextureImage>,
) -> bool {
    &&& is_image(upload.vertices@, mesh_words(models[0].flattened()))
    &&& upload.vertex_count == models[0].indices@.len()
    &&& upload.texture == match image {
        Some(i) => Some(texture_upload(i.width, i.height)),
        None => None,
    }
}

/// Describes the texture for `image` and its sampler.
pub fn describe_texture(image: &TextureImage) -> (r: Result<TextureUpload, AssetError>)
    ensures
        match texture_error(*image) {
            Some(e) => r == Err::<TextureUpload, AssetError>(e),
            None => r == Ok::<TextureUpload, AssetError>(texture_upload(image.width, image.height)),
        },
{
    if image.width > u32::MAX / 4 {
        return Err(AssetError::TextureTooWide);
    }
    let bytes_per_row: u32 = 4 * image.width;
    assert(bytes_per_row * image.height == 4 * image.width * image.height
        && bytes_per_row * image.height <= u64::MAX) by (nonlinear_arith)
        requires
            bytes_per_row == 4 * image.width,
            bytes_per_row <= u32::MAX,
            image.height <= u32::MAX,
    ;
    let expected: u64 = bytes_per_row as u64 * image.height as u64;
    if image.rgba.len() as u64 != expected {
        return Err(AssetError::TextureSizeMismatch);
    }
    Ok(
        TextureUpload {
            texture: TexturePlan {
                width: image.width,
                height: image.height,
                format: TextureFormat::Rgba8UnormSrgb,
                usage: TextureUsages {
                    copy_dst: true,
                    texture_binding: true,
                    render_attachment: false,
                },
                view_format: None,
            },
            bytes_per_row,
            rows_per_image: image.height,
            sampler: SamplerPlan {
                mag_filter: FilterMode::Linear,
                min_filter: FilterMode::Nearest,
                mipmap_filter: FilterMode::Nearest,
            },
        },
    )
}

/// The vertex buffer contents and vertex count of the first of `models`.
pub fn describe_mesh(models: &Vec<MeshData>) -> (r: Result<(Vec<u8>, u32), AssetError>)
    ensures
        match mesh_error(models@) {
            Some(e) => r == Err::<(Vec<u8>, u32), AssetError>(e),
            None => r matches Ok(m) && is_image(m.0@, mesh_words(models@[0].flattened()))
                && m.1 == models@[0].indices@.len(),
        },
{
    if models.len() == 0 {
        return Err(AssetError::NoModel);
    }
    let mesh = &models[0];
    if mesh.indices.len() > u32::MAX as usize {
        return Err(AssetError::TooManyVertices);
    }
    match mesh.flatten() {
        Err(e) => Err(e),
        Ok(vertices) => {
            let words = vertex_words(&vertices);
            let bytes = image_of(&words);
            Ok((bytes, vertices.len() as u32))
        },
    }
}

/// The image file the mesh is textured with: the diffuse texture of the
/// first of the file's materials, if it names one. `materials` holds the
/// diffuse texture of each material in the file's order.
pub fn diffuse_texture(materials: &Vec<Option<String>>) -> (texture: Option<&String>)
    ensures
        texture == if materials@.len() > 0 {
            match materials@[0] {
                Some(name) => Some(&name),
                None => None,
            }
        } else {
            None
        },
{
    if materials.len() == 0 {
        None
    } else {
        match &materials[0] {
            Some(name) => Some(name),
            None => None,
        }
    }
}

/// The mesh file the viewer shows.
#[derive(PartialEq, Eq, Debug)]
pub struct Object {
    pub opened_file: Option<String>,
}

impl Object {
    /// No file chosen yet.
    pub fn new() -> (o: Object)
        ensures
            o.opened_file is None,
    {
        Object { opened_file: None }
    }

    /// The path to load: the chosen file, or the default mesh where none was
    /// chosen.
    pub fn path(&self) -> (p: String)
        ensures
            p@ == match self.opened_file {
                Some(f) => f@,
                None => DEFAULT_OBJECT_PATH@,
            },
    {
        match &self.opened_file {
            Some(f) => f.clone(),
            None => DEFAULT_OBJECT_PATH.to_owned(),
        }
    }

    /// Takes what the file dialog reported this frame. A selection becomes
    /// the opened file, and the mesh must then be loaded again.
    pub fn build_widget(&mut self, selected: Option<String>) -> (reload: bool)
        ensures
            reload == selected is Some,
            final(self).opened_file == if selected is Some {
                selected
            } else {
                old(self).opened_file
            },
    {
        match selected {
            Some(file) => {
                self.opened_file = Some(file);
                true
            },
            None => false,
        }
    }

    /// Describes what the device is given for the first of `models`, with
    /// the image of its material if it has one.
    pub fn load_obj(models: &Vec<MeshData>, image: Option<&TextureImage>) -> (r: Result<
        MeshUpload,
        AssetError,
    >)
        ensures
            match asset_error(models@, image) {
                Some(e) => r == Err::<MeshUpload, AssetError>(e),
                None => r matches Ok(upload) && is_upload(upload, models@, image),
            },
    {
        let (vertices, vertex_count) = match describe_mesh(models) {
            Err(e) => { return Err(e); },
            Ok(m) => m,
        };
        let texture = match image {
            None => None,
            Some(i) => match describe_texture(i) {
                Err(e) => { return Err(e); },
                Ok(t) => Some(t),
            },
        };
        Ok(MeshUpload { vertices, vertex_count, texture })
    }

    /// Replaces the mesh by the first of `models`: returns the contents of
    /// the new vertex buffer and records its vertex count in `resources`.
    /// Where the mesh cannot be shown, the resources stay as they are, and
    /// with them the previous mesh.
    pub fn update_obj(resources: &mut ObjectRenderResources, models: &Vec<MeshData>) -> (r: Result<
        Vec<u8>,
        AssetError,
    >)
        ensures
            match mesh_error(models@) {
                Some(e) => r == Err::<Vec<u8>, AssetError>(e) && final(resources)@ == old(resources)@,
                None => {
                    &&& r matches Ok(vertices)
                    &&& is_image(vertices@, mesh_words(models@[0].flattened()))
                    &&& final(resources)@ == (FrameResources {
                        vertex_count: models@[0].indices@.len() as u32,
                        ..old(resources)@
                    })
                },
            },
    {
        match describe_mesh(models) {
            Err(e) => Err(e),
            Ok((vertices, vertex_count)) => {
                resources.set_vertex_buffer(vertex_count);
                Ok(vertices)
            },
        }
    }
}

} // verus!
