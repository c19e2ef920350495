//! The resource manager: one descriptor-keyed cache per resource kind
//! (mesh, shader, texture), plus stores of asset data loaded from outside.
//!
//! Internal descriptors are synthesized procedurally and cannot fail.
//! External descriptors are served from registered asset data; a request
//! with no matching registration fails with `ResourceLoadError::MissingFile`
//! and leaves the caches untouched. The three cache tables are independent:
//! a mesh and a texture may share descriptor values without collision.

use crate::cache::{acquire_post, live_at, strong_at, Cache, CacheKey, Handle};
use crate::mesh::{
    cube_vertices, gen_cube, gen_square, gen_triangle, square_vertices, triangle_vertices, Mesh,
    MeshView,
};
use crate::shader::{gen_internal_program, ShaderDescriptor, ShaderProgram, ShaderProgramView};
use crate::store::AssetStore;
use crate::texture::{flipped_spec, from_rgba_flipped, gen_crate_texture, Texture, TextureView};
use vstd::prelude::*;

verus! {

/// The procedurally generated meshes.
#[derive(Clone, Copy, PartialEq, Eq, Hash, Structural, Debug)]
pub enum InternalMesh {
    Triangle,
    Square,
    Cube,
}

/// The procedurally generated textures.
#[derive(Clone, Copy, PartialEq, Eq, Hash, Structural, Debug)]
pub enum InternalTexture {
    Crate,
}

/// The value of a mesh descriptor.
#[verifier::ext_equal]
pub enum MeshTypeView {
    Internal(InternalMesh),
    External(Seq<char>),
    Gltf(Seq<char>),
}

/// Identifies a mesh without loading it: a built-in shape, an external
/// mesh file, or a glTF file (first scene, first model).
#[derive(Debug)]
pub enum MeshType {
    Internal(InternalMesh),
    External(String),
    Gltf(String),
}

impl View for MeshType {
    type V = MeshTypeView;

    open spec fn view(&self) -> MeshTypeView {
        match self {
            MeshType::Internal(m) => MeshTypeView::Internal(*m),
            MeshType::External(p) => MeshTypeView::External(p@),
            MeshType::Gltf(p) => MeshTypeView::Gltf(p@),
        }
    }
}

impl CacheKey for MeshType {
    fn key_eq(&self, other: &Self) -> (r: bool)
        ensures
            r == (self@ == other@),
    {
        match (self, other) {
            (MeshType::Internal(a), MeshType::Internal(b)) => *a == *b,
            (MeshType::External(a), MeshType::External(b)) => *a == *b,
            (MeshType::Gltf(a), MeshType::Gltf(b)) => *a == *b,
            _ => false,
        }
    }

    fn dup(&self) -> (r: Self)
        ensures
            r@ == self@,
    {
        match self {
            MeshType::Internal(m) => MeshType::Internal(*m),
            MeshType::External(p) => MeshType::External(p.clone()),
            MeshType::Gltf(p) => MeshType::Gltf(p.clone()),
        }
    }
}

/// The value of a shader resource descriptor.
#[verifier::ext_equal]
pub enum ShaderTypeView {
    Internal,
    External(crate::shader::ShaderDescriptorView),
}

/// Identifies a shader program: the built-in pair, or explicit stage
/// sources named by a descriptor.
#[derive(Debug)]
pub enum ShaderType {
    Internal,
    External(ShaderDescriptor),
}

impl View for ShaderType {
    type V = ShaderTypeView;

    open spec fn view(&self) -> ShaderTypeView {
        match self {
            ShaderType::Internal => ShaderTypeView::Internal,
            ShaderType::External(d) => ShaderTypeView::External(d@),
        }
    }
}

impl CacheKey for ShaderType {
    fn key_eq(&self, other: &Self) -> (r: bool)
        ensures
            r == (self@ == other@),
    {
        match (self, other) {
            (ShaderType::Internal, ShaderType::Internal) => true,
            (ShaderType::External(a), ShaderType::External(b)) => a.key_eq(b),
            _ => false,
        }
    }

    fn dup(&self) -> (r: Self)
        ensures
            r@ == self@,
    {
        match self {
            ShaderType::Internal => ShaderType::Internal,
            ShaderType::External(d) => ShaderType::External(d.dup()),
        }
    }
}

/// The total order on shader resource descriptors: the internal tag
/// sorts before every external descriptor; external descriptors compare
/// lexicographically.
pub open spec fn shader_type_le(a: ShaderTypeView, b: ShaderTypeView) -> bool {
    match (a, b) {
        (ShaderTypeView::Internal, _) => true,
        (ShaderTypeView::External(_), ShaderTypeView::Internal) => false,
        (ShaderTypeView::External(x), ShaderTypeView::External(y)) => {
            crate::shader::shader_descriptor_le(x, y)
        },
    }
}

/// The shader descriptor order is total.
pub proof fn lemma_shader_type_le_total(a: ShaderTypeView, b: ShaderTypeView)
    ensures
        shader_type_le(a, b) || shader_type_le(b, a),
{
    match (a, b) {
        (ShaderTypeView::External(x), ShaderTypeView::External(y)) => {
            crate::shader::lemma_shader_descriptor_le_total(x, y);
        },
        _ => {},
    }
}

/// The shader descriptor order is antisymmetric.
pub proof fn lemma_shader_type_le_antisymmetric(a: ShaderTypeView, b: ShaderTypeView)
    requires
        shader_type_le(a, b),
        shader_type_le(b, a),
    ensures
        a == b,
{
    match (a, b) {
        (ShaderTypeView::External(x), ShaderTypeView::External(y)) => {
            crate::shader::lemma_shader_descriptor_le_antisymmetric(x, y);
        },
        _ => {},
    }
}

/// The shader descriptor order is transitive.
pub proof fn lemma_shader_type_le_transitive(
    a: ShaderTypeView,
    b: ShaderTypeView,
    c: ShaderTypeView,
)
    requires
        shader_type_le(a, b),
        shader_type_le(b, c),
    ensures
        shader_type_le(a, c),
{
    match (a, b, c) {
        (ShaderTypeView::External(x), ShaderTypeView::External(y), ShaderTypeView::External(z)) => {
            crate::shader::lemma_shader_descriptor_le_transitive(x, y, z);
        },
        _ => {},
    }
}

impl ShaderType {
    /// Whether this descriptor sorts at or before `other`, exact per
    /// `shader_type_le`.
    pub fn le(&self, other: &ShaderType) -> (r: bool)
        ensures
            r == shader_type_le(self@, other@),
    {
        match (self, other) {
            (ShaderType::Internal, _) => true,
            (ShaderType::External(_), ShaderType::Internal) => false,
            (ShaderType::External(x), ShaderType::External(y)) => x.le(y),
        }
    }
}

/// The value of a texture descriptor.
#[verifier::ext_equal]
pub enum TextureTypeView {
    Internal(InternalTexture),
    External(Seq<char>),
}

/// Identifies a texture: a built-in pattern or an external image file.
#[derive(Debug)]
pub enum TextureType {
    Internal(InternalTexture),
    External(String),
}

impl View for TextureType {
    type V = TextureTypeView;

    open spec fn view(&self) -> TextureTypeView {
        match self {
            TextureType::Internal(t) => TextureTypeView::Internal(*t),
            TextureType::External(p) => TextureTypeView::External(p@),
        }
    }
}

impl CacheKey for TextureType {
    fn key_eq(&self, other: &Self) -> (r: bool)
        ensures
            r == (self@ == other@),
    {
        match (self, other) {
            (TextureType::Internal(a), TextureType::Internal(b)) => *a == *b,
            (TextureType::External(a), TextureType::External(b)) => *a == *b,
            _ => false,
        }
    }

    fn dup(&self) -> (r: Self)
        ensures
            r@ == self@,
    {
        match self {
            TextureType::Internal(t) => TextureType::Internal(*t),
            TextureType::External(p) => TextureType::External(p.clone()),
        }
    }
}

/// Why loading a resource failed. Recoverable: surfaced to the caller
/// creating the entity, never substituted with a default resource.
#[derive(Clone, Copy, PartialEq, Eq, Structural, Debug)]
pub enum ResourceLoadError {
    /// No asset data is registered for the requested path.
    MissingFile,
    /// Registered data could not be decoded (reported by the loader).
    DecodeFailure,
    /// Registered data was malformed (reported by the loader).
    MalformedData,
}

/// The vertex table of each internal mesh.
pub open spec fn internal_mesh_view(m: InternalMesh) -> MeshView {
    match m {
        InternalMesh::Triangle => MeshView { vertices: triangle_vertices(), indices: None },
        InternalMesh::Square => MeshView {
            vertices: square_vertices(),
            indices: Some(seq![0u32, 1u32, 3u32, 1u32, 2u32, 3u32]),
        },
        InternalMesh::Cube => MeshView { vertices: cube_vertices(), indices: None },
    }
}

/// The pixel data of each internal texture.
pub open spec fn internal_texture_view(t: InternalTexture) -> TextureView {
    match t {
        InternalTexture::Crate => TextureView {
            width: 2,
            height: 2,
            rgba: seq![
                230u8, 230u8, 230u8, 255u8,
                90u8, 90u8, 90u8, 255u8,
                90u8, 90u8, 90u8, 255u8,
                230u8, 230u8, 230u8, 255u8,
            ],
        },
    }
}

/// The sources of the built-in shader program.
pub open spec fn internal_shader_view() -> ShaderProgramView {
    ShaderProgramView {
        vertex_src:
            "#version 330 core\nin vec3 position;\nin vec3 normal;\nin vec2 tex_coords;\nuniform mat4 camera_mat;\nuniform mat4 model_mat;\nout vec3 frag_normal;\nout vec2 frag_tex;\nvoid main() {\n    frag_normal = mat3(model_mat) * normal;\n    frag_tex = tex_coords;\n    gl_Position = camera_mat * model_mat * vec4(position, 1);\n}\n"@,
        fragment_src:
            "#version 330 core\nin vec3 frag_normal;\nin vec2 frag_tex;\nuniform sampler2D tex;\nuniform vec4 light_pos;\nout vec4 color;\nvoid main() {\n    color = texture(tex, frag_tex);\n}\n"@,
        geometry_src: None,
    }
}

/// Type-separated caches plus the registered asset data they draw from.
///
/// Not safe for concurrent mutation; callers hold it exclusively, which the
/// single-threaded frame loop gives for free.
pub struct ResourceManager {
    pub meshes: Cache<MeshType, Mesh>,
    pub shaders: Cache<ShaderType, ShaderProgram>,
    pub textures: Cache<TextureType, Texture>,
    pub mesh_assets: AssetStore<String, Mesh>,
    pub shader_assets: AssetStore<ShaderDescriptor, ShaderProgram>,
    pub texture_assets: AssetStore<String, Texture>,
}

impl ResourceManager {
    pub open spec fn wf(self) -> bool {
        &&& self.meshes.wf()
        &&& self.shaders.wf()
        &&& self.textures.wf()
        &&& self.mesh_assets.wf()
        &&& self.shader_assets.wf()
        &&& self.texture_assets.wf()
    }

    /// An empty manager: no cached instances, no registered assets.
    pub fn new() -> (m: ResourceManager)
        ensures
            m.wf(),
            m.meshes.table() == Map::<MeshTypeView, crate::cache::EntryModel<MeshView>>::empty(),
            m.shaders.table() == Map::<
                ShaderTypeView,
                crate::cache::EntryModel<ShaderProgramView>,
            >::empty(),
            m.textures.table() == Map::<
                TextureTypeView,
                crate::cache::EntryModel<TextureView>,
            >::empty(),
            m.mesh_assets.map() == Map::<Seq<char>, MeshView>::empty(),
            m.shader_assets.map() == Map::<
                crate::shader::ShaderDescriptorView,
                ShaderProgramView,
            >::empty(),
            m.texture_assets.map() == Map::<Seq<char>, TextureView>::empty(),
            m.meshes.next() == 0,
            m.shaders.next() == 0,
            m.textures.next() == 0,
    {
        ResourceManager {
            meshes: Cache::new(),
            shaders: Cache::new(),
            textures: Cache::new(),
            mesh_assets: AssetStore::new(),
            shader_assets: AssetStore::new(),
            texture_assets: AssetStore::new(),
        }
    }

    /// Room for one more mesh acquire: counters cannot overflow.
    pub open spec fn mesh_room(self, d: MeshTypeView) -> bool {
        strong_at(self.meshes.table(), d) < u64::MAX && self.meshes.next() < u64::MAX
    }

    pub open spec fn shader_room(self, d: ShaderTypeView) -> bool {
        strong_at(self.shaders.table(), d) < u64::MAX && self.shaders.next() < u64::MAX
    }

    pub open spec fn texture_room(self, d: TextureTypeView) -> bool {
        strong_at(self.textures.table(), d) < u64::MAX && self.textures.next() < u64::MAX
    }

    /// Acquiring `d` must fail: no live instance, and nothing to build one
    /// from.
    pub open spec fn mesh_missing(self, d: MeshTypeView) -> bool {
        !live_at(self.meshes.table(), d) && match d {
            MeshTypeView::Internal(_) => false,
            MeshTypeView::External(p) => !self.mesh_assets.map().contains_key(p),
            MeshTypeView::Gltf(p) => !self.mesh_assets.map().contains_key(p),
        }
    }

    pub open spec fn shader_missing(self, d: ShaderTypeView) -> bool {
        !live_at(self.shaders.table(), d) && match d {
            ShaderTypeView::Internal => false,
            ShaderTypeView::External(sd) => !self.shader_assets.map().contains_key(sd),
        }
    }

    pub open spec fn texture_missing(self, d: TextureTypeView) -> bool {
        !live_at(self.textures.table(), d) && match d {
            TextureTypeView::Internal(_) => false,
            TextureTypeView::External(p) => !self.texture_assets.map().contains_key(p),
        }
    }

    /// The mesh value a successful acquire of `d` hands out.
    pub open spec fn mesh_expected(self, d: MeshTypeView) -> MeshView {
        if live_at(self.meshes.table(), d) {
            self.meshes.table()[d].data->0
        } else {
            match d {
                MeshTypeView::Internal(m) => internal_mesh_view(m),
                MeshTypeView::External(p) => self.mesh_assets.map()[p],
                MeshTypeView::Gltf(p) => self.mesh_assets.map()[p],
            }
        }
    }

    pub open spec fn shader_expected(self, d: ShaderTypeView) -> ShaderProgramView {
        if live_at(self.shaders.table(), d) {
            self.shaders.table()[d].data->0
        } else {
            match d {
                ShaderTypeView::Internal => internal_shader_view(),
                ShaderTypeView::External(sd) => self.shader_assets.map()[sd],
            }
        }
    }

    pub open spec fn texture_expected(self, d: TextureTypeView) -> TextureView {
        if live_at(self.textures.table(), d) {
            self.textures.table()[d].data->0
        } else {
            match d {
                TextureTypeView::Internal(t) => internal_texture_view(t),
                TextureTypeView::External(p) => self.texture_assets.map()[p],
            }
        }
    }

    /// Everything but the mesh cache is untouched.
    pub open spec fn only_meshes_changed(pre: Self, post: Self) -> bool {
        &&& post.shaders == pre.shaders
        &&& post.textures == pre.textures
        &&& post.mesh_assets == pre.mesh_assets
        &&& post.shader_assets == pre.shader_assets
        &&& post.texture_assets == pre.texture_assets
    }

    pub open spec fn only_shaders_changed(pre: Self, post: Self) -> bool {
        &&& post.meshes == pre.meshes
        &&& post.textures == pre.textures
        &&& post.mesh_assets == pre.mesh_assets
        &&& post.shader_assets == pre.shader_assets
        &&& post.texture_assets == pre.texture_assets
    }

    pub open spec fn only_textures_changed(pre: Self, post: Self) -> bool {
        &&& post.meshes == pre.meshes
        &&& post.shaders == pre.shaders
        &&& post.mesh_assets == pre.mesh_assets
        &&& post.shader_assets == pre.shader_assets
        &&& post.texture_assets == pre.texture_assets
    }

    /// Acquire a mesh: return a strong reference to the live instance for
    /// `d`, or synthesize (internal) or copy from registered data
    /// (external) a fresh instance. Fails exactly when `d` is external and
    /// nothing is registered for its path.
    pub fn acquire_mesh(&mut self, d: &MeshType) -> (r: Result<Handle, ResourceLoadError>)
        requires
            old(self).wf(),
            old(self).mesh_room(d@),
        ensures
            final(self).wf(),
            Self::only_meshes_changed(*old(self), *final(self)),
            match r {
                Ok(h) => !old(self).mesh_missing(d@) && acquire_post(
                    old(self).meshes.table(),
                    old(self).meshes.next(),
                    d@,
                    final(self).meshes.table(),
                    final(self).meshes.next(),
                    h.id as int,
                    old(self).mesh_expected(d@),
                ),
                Err(e) => old(self).mesh_missing(d@) && e == ResourceLoadError::MissingFile
                    && final(self).meshes == old(self).meshes,
            },
    {
        match self.meshes.acquire_live(d) {
            Some(h) => Ok(h),
            None => {
                let data: Mesh = match d {
                    MeshType::Internal(m) => {
                        let data = match m {
                            InternalMesh::Triangle => gen_triangle(),
                            InternalMesh::Square => gen_square(),
                            InternalMesh::Cube => gen_cube(),
                        };
                        proof {
                            assert(data@ =~= internal_mesh_view(*m));
                        }
                        data
                    },
                    MeshType::External(p) => match self.mesh_assets.lookup(p) {
                        Some(mesh) => mesh.duplicate(),
                        None => {
                            return Err(ResourceLoadError::MissingFile);
                        },
                    },
                    MeshType::Gltf(p) => match self.mesh_assets.lookup(p) {
                        Some(mesh) => mesh.duplicate(),
                        None => {
                            return Err(ResourceLoadError::MissingFile);
                        },
                    },
                };
                Ok(self.meshes.install(d.dup(), data))
            },
        }
    }

    /// Acquire a shader program; fails exactly when `d` names external
    /// sources with no registered program.
    pub fn acquire_shader(&mut self, d: &ShaderType) -> (r: Result<Handle, ResourceLoadError>)
        requires
            old(self).wf(),
            old(self).shader_room(d@),
        ensures
            final(self).wf(),
            Self::only_shaders_changed(*old(self), *final(self)),
            match r {
                Ok(h) => !old(self).shader_missing(d@) && acquire_post(
                    old(self).shaders.table(),
                    old(self).shaders.next(),
                    d@,
                    final(self).shaders.table(),
                    final(self).shaders.next(),
                    h.id as int,
                    old(self).shader_expected(d@),
                ),
                Err(e) => old(self).shader_missing(d@) && e == ResourceLoadError::MissingFile
                    && final(self).shaders == old(self).shaders,
            },
    {
        match self.shaders.acquire_live(d) {
            Some(h) => Ok(h),
            None => {
                let data: ShaderProgram = match d {
                    ShaderType::Internal => {
                        let data = gen_internal_program();
                        proof {
                            assert(data@ =~= internal_shader_view());
                        }
                        data
                    },
                    ShaderType::External(sd) => match self.shader_assets.lookup(sd) {
                        Some(program) => program.duplicate(),
                        None => {
                            return Err(ResourceLoadError::MissingFile);
                        },
                    },
                };
                Ok(self.shaders.install(d.dup(), data))
            },
        }
    }

    /// Acquire a texture; fails exactly when `d` names an external image
    /// with no registered pixels.
    pub fn acquire_texture(&mut self, d: &TextureType) -> (r: Result<Handle, ResourceLoadError>)
        requires
            old(self).wf(),
            old(self).texture_room(d@),
        ensures
            final(self).wf(),
            Self::only_textures_changed(*old(self), *final(self)),
            match r {
                Ok(h) => !old(self).texture_missing(d@) && acquire_post(
                    old(self).textures.table(),
                    old(self).textures.next(),
                    d@,
                    final(self).textures.table(),
                    final(self).textures.next(),
                    h.id as int,
                    old(self).texture_expected(d@),
                ),
                Err(e) => old(self).texture_missing(d@) && e == ResourceLoadError::MissingFile
                    && final(self).textures == old(self).textures,
            },
    {
        match self.textures.acquire_live(d) {
            Some(h) => Ok(h),
            None => {
                let data: Texture = match d {
                    TextureType::Internal(t) => {
                        let data = match t {
                            InternalTexture::Crate => gen_crate_texture(),
                        };
                        proof {
                            assert(data@ =~= internal_texture_view(*t));
                        }
                        data
                    },
                    TextureType::External(p) => match self.texture_assets.lookup(p) {
                        Some(texture) => texture.duplicate(),
                        None => {
                            return Err(ResourceLoadError::MissingFile);
                        },
                    },
                };
                Ok(self.textures.install(d.dup(), data))
            },
        }
    }

    /// Register decoded mesh data for an external path.
    pub fn register_mesh_asset(&mut self, path: String, mesh: Mesh)
        requires
            old(self).wf(),
        ensures
            final(self).wf(),
            final(self).mesh_assets.map() == old(self).mesh_assets.map().insert(path@, mesh@),
            final(self).meshes == old(self).meshes,
            final(self).shaders == old(self).shaders,
            final(self).textures == old(self).textures,
            final(self).shader_assets == old(self).shader_assets,
            final(self).texture_assets == old(self).texture_assets,
    {
        self.mesh_assets.register(path, mesh);
    }

    /// Register shader sources for an external descriptor.
    pub fn register_shader_asset(&mut self, descriptor: ShaderDescriptor, program: ShaderProgram)
        requires
            old(self).wf(),
        ensures
            final(self).wf(),
            final(self).shader_assets.map() == old(self).shader_assets.map().insert(
                descriptor@,
                program@,
            ),
            final(self).meshes == old(self).meshes,
            final(self).shaders == old(self).shaders,
            final(self).textures == old(self).textures,
            final(self).mesh_assets == old(self).mesh_assets,
            final(self).texture_assets == old(self).texture_assets,
    {
        self.shader_assets.register(descriptor, program);
    }

    /// Register a decoded image for an external path, flipping its rows
    /// vertically to match the texture-coordinate convention.
    pub fn register_texture_asset(&mut self, path: String, width: u32, height: u32, raw: &Vec<u8>)
        requires
            old(self).wf(),
            1 <= width <= 4096,
            1 <= height <= 4096,
            raw@.len() == 4 * width * height,
        ensures
            final(self).wf(),
            final(self).texture_assets.map() == old(self).texture_assets.map().insert(
                path@,
                TextureView {
                    width,
                    height,
                    rgba: flipped_spec(width as int, height as int, raw@),
                },
            ),
            final(self).meshes == old(self).meshes,
            final(self).shaders == old(self).shaders,
            final(self).textures == old(self).textures,
            final(self).mesh_assets == old(self).mesh_assets,
            final(self).shader_assets == old(self).shader_assets,
    {
        let t = from_rgba_flipped(width, height, raw);
        proof {
            assert(t@ =~= (TextureView {
                width,
                height,
                rgba: flipped_spec(width as int, height as int, raw@),
            }));
        }
        self.texture_assets.register(path, t);
    }

    /// Acquire a mesh by external path.
    pub fn load_mesh(&mut self, path: &String) -> (r: Result<Handle, ResourceLoadError>)
        requires
            old(self).wf(),
            old(self).mesh_room(MeshTypeView::External(path@)),
        ensures
            final(self).wf(),
            Self::only_meshes_changed(*old(self), *final(self)),
            match r {
                Ok(h) => !old(self).mesh_missing(MeshTypeView::External(path@)) && acquire_post(
                    old(self).meshes.table(),
                    old(self).meshes.next(),
                    MeshTypeView::External(path@),
                    final(self).meshes.table(),
                    final(self).meshes.next(),
                    h.id as int,
                    old(self).mesh_expected(MeshTypeView::External(path@)),
                ),
                Err(e) => old(self).mesh_missing(MeshTypeView::External(path@)) && e
                    == ResourceLoadError::MissingFile && final(self).meshes == old(self).meshes,
            },
    {
        let d = MeshType::External(path.clone());
        self.acquire_mesh(&d)
    }

    /// Acquire a shader program by external descriptor.
    pub fn load_shader(&mut self, descriptor: &ShaderDescriptor) -> (r: Result<
        Handle,
        ResourceLoadError,
    >)
        requires
            old(self).wf(),
            old(self).shader_room(ShaderTypeView::External(descriptor@)),
        ensures
            final(self).wf(),
            Self::only_shaders_changed(*old(self), *final(self)),
            match r {
                Ok(h) => !old(self).shader_missing(ShaderTypeView::External(descriptor@))
                    && acquire_post(
                    old(self).shaders.table(),
                    old(self).shaders.next(),
                    ShaderTypeView::External(descriptor@),
                    final(self).shaders.table(),
                    final(self).shaders.next(),
                    h.id as int,
                    old(self).shader_expected(ShaderTypeView::External(descriptor@)),
                ),
                Err(e) => old(self).shader_missing(ShaderTypeView::External(descriptor@)) && e
                    == ResourceLoadError::MissingFile && final(self).shaders == old(self).shaders,
            },
    {
        let d = ShaderType::External(descriptor.dup());
        self.acquire_shader(&d)
    }

    /// Acquire a texture by external path.
    pub fn load_texture(&mut self, path: &String) -> (r: Result<Handle, ResourceLoadError>)
        requires
            old(self).wf(),
            old(self).texture_room(TextureTypeView::External(path@)),
        ensures
            final(self).wf(),
            Self::only_textures_changed(*old(self), *final(self)),
            match r {
                Ok(h) => !old(self).texture_missing(TextureTypeView::External(path@))
                    && acquire_post(
                    old(self).textures.table(),
                    old(self).textures.next(),
                    TextureTypeView::External(path@),
                    final(self).textures.table(),
                    final(self).textures.next(),
                    h.id as int,
                    old(self).texture_expected(TextureTypeView::External(path@)),
                ),
                Err(e) => old(self).texture_missing(TextureTypeView::External(path@)) && e
                    == ResourceLoadError::MissingFile && final(self).textures == old(
                    self,
                ).textures,
            },
    {
        let d = TextureType::External(path.clone());
        self.acquire_texture(&d)
    }

    /// Acquire an internal mesh; synthesis cannot fail.
    pub fn load_internal_mesh(&mut self, mesh: &InternalMesh) -> (h: Handle)
        requires
            old(self).wf(),
            old(self).mesh_room(MeshTypeView::Internal(*mesh)),
        ensures
            final(self).wf(),
            Self::only_meshes_changed(*old(self), *final(self)),
            acquire_post(
                old(self).meshes.table(),
                old(self).meshes.next(),
                MeshTypeView::Internal(*mesh),
                final(self).meshes.table(),
                final(self).meshes.next(),
                h.id as int,
                old(self).mesh_expected(MeshTypeView::Internal(*mesh)),
            ),
    {
        let d = MeshType::Internal(*mesh);
        match self.acquire_mesh(&d) {
            Ok(h) => h,
            Err(_) => {
                proof {
                    assert(false);
                }
                Handle { id: 0 }
            },
        }
    }

    /// Acquire the built-in shader program; synthesis cannot fail.
    pub fn load_internal_shader(&mut self) -> (h: Handle)
        requires
            old(self).wf(),
            old(self).shader_room(ShaderTypeView::Internal),
        ensures
            final(self).wf(),
            Self::only_shaders_changed(*old(self), *final(self)),
            acquire_post(
                old(self).shaders.table(),
                old(self).shaders.next(),
                ShaderTypeView::Internal,
                final(self).shaders.table(),
                final(self).shaders.next(),
                h.id as int,
                old(self).shader_expected(ShaderTypeView::Internal),
            ),
    {
        let d = ShaderType::Internal;
        match self.acquire_shader(&d) {
            Ok(h) => h,
            Err(_) => {
                proof {
                    assert(false);
                }
                Handle { id: 0 }
            },
        }
    }

    /// Acquire an internal texture; synthesis cannot fail.
    pub fn load_internal_texture(&mut self, texture: &InternalTexture) -> (h: Handle)
        requires
            old(self).wf(),
            old(self).texture_room(TextureTypeView::Internal(*texture)),
        ensures
            final(self).wf(),
            Self::only_textures_changed(*old(self), *final(self)),
            acquire_post(
                old(self).textures.table(),
                old(self).textures.next(),
                TextureTypeView::Internal(*texture),
                final(self).textures.table(),
                final(self).textures.next(),
                h.id as int,
                old(self).texture_expected(TextureTypeView::Internal(*texture)),
            ),
    {
        let d = TextureType::Internal(*texture);
        match self.acquire_texture(&d) {
            Ok(h) => h,
            Err(_) => {
                proof {
                    assert(false);
                }
                Handle { id: 0 }
            },
        }
    }

    /// Read the mesh a live handle refers to.
    pub fn get_mesh(&self, h: Handle) -> (r: Option<&Mesh>)
        requires
            self.wf(),
        ensures
            match r {
                Some(m) => crate::cache::has_live_id(self.meshes.table(), h.id as int) && m@
                    == self.meshes.table()[crate::cache::owner_of(
                    self.meshes.table(),
                    h.id as int,
                )].data->0,
                None => !crate::cache::has_live_id(self.meshes.table(), h.id as int),
            },
    {
        self.meshes.get(h)
    }

    /// Read the shader program a live handle refers to.
    pub fn get_shader(&self, h: Handle) -> (r: Option<&ShaderProgram>)
        requires
            self.wf(),
        ensures
            match r {
                Some(p) => crate::cache::has_live_id(self.shaders.table(), h.id as int) && p@
                    == self.shaders.table()[crate::cache::owner_of(
                    self.shaders.table(),
                    h.id as int,
                )].data->0,
                None => !crate::cache::has_live_id(self.shaders.table(), h.id as int),
            },
    {
        self.shaders.get(h)
    }

    /// Read the texture a live handle refers to.
    pub fn get_texture(&self, h: Handle) -> (r: Option<&Texture>)
        requires
            self.wf(),
        ensures
            match r {
                Some(t) => crate::cache::has_live_id(self.textures.table(), h.id as int) && t@
                    == self.textures.table()[crate::cache::owner_of(
                    self.textures.table(),
                    h.id as int,
                )].data->0,
                None => !crate::cache::has_live_id(self.textures.table(), h.id as int),
            },
    {
        self.textures.get(h)
    }

    /// Drop one strong mesh reference.
    pub fn release_mesh(&mut self, h: Handle)
        requires
            old(self).wf(),
        ensures
            final(self).wf(),
            Self::only_meshes_changed(*old(self), *final(self)),
            crate::cache::release_post(
                old(self).meshes.table(),
                old(self).meshes.next(),
                final(self).meshes.table(),
                final(self).meshes.next(),
                h.id as int,
            ),
    {
        self.meshes.release(h);
    }

    /// Drop one strong shader reference.
    pub fn release_shader(&mut self, h: Handle)
        requires
            old(self).wf(),
        ensures
            final(self).wf(),
            Self::only_shaders_changed(*old(self), *final(self)),
            crate::cache::release_post(
                old(self).shaders.table(),
                old(self).shaders.next(),
                final(self).shaders.table(),
                final(self).shaders.next(),
                h.id as int,
            ),
    {
        self.shaders.release(h);
    }

    /// Drop one strong texture reference.
    pub fn release_texture(&mut self, h: Handle)
        requires
            old(self).wf(),
        ensures
            final(self).wf(),
            Self::only_textures_changed(*old(self), *final(self)),
            crate::cache::release_post(
                old(self).textures.table(),
                old(self).textures.next(),
                final(self).textures.table(),
                final(self).textures.next(),
                h.id as int,
            ),
    {
        self.textures.release(h);
    }

    /// The strong count recorded for a mesh descriptor.
    pub fn mesh_strong_count(&self, d: &MeshType) -> (r: u64)
        requires
            self.wf(),
        ensures
            r == strong_at(self.meshes.table(), d@),
    {
        self.meshes.strong_count(d)
    }

    /// The strong count recorded for a shader descriptor.
    pub fn shader_strong_count(&self, d: &ShaderType) -> (r: u64)
        requires
            self.wf(),
        ensures
            r == strong_at(self.shaders.table(), d@),
    {
        self.shaders.strong_count(d)
    }

    /// The strong count recorded for a texture descriptor.
    pub fn texture_strong_count(&self, d: &TextureType) -> (r: u64)
        requires
            self.wf(),
        ensures
            r == strong_at(self.textures.table(), d@),
    {
        self.textures.strong_count(d)
    }
}

} // verus!
