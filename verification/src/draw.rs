//! Draw descriptors and their resolution into per-entity components.
//!
//! A draw descriptor asks for "this entity draws mesh M with shader S and
//! texture T". Resolution acquires all three through the resource manager
//! once, at entity-creation time; on any failure the handles already
//! acquired are released again, so every strong count is exactly what it
//! was before the call, and the first error is returned.

use crate::cache::{acquire_post, lemma_acquire_release_strongs, strong_at, Handle};
use crate::resource_manager::{
    InternalMesh, InternalTexture, MeshType, MeshTypeView, ResourceLoadError, ResourceManager,
    ShaderType, ShaderTypeView, TextureType, TextureTypeView,
};
use vstd::prelude::*;

verus! {

/// What an entity wants to draw: one descriptor per resource kind.
#[derive(Debug)]
pub struct DrawDescriptor {
    pub mesh: MeshType,
    pub shader: ShaderType,
    pub texture: TextureType,
}

impl Default for DrawDescriptor {
    /// The default drawable: the internal cube with the built-in shader
    /// and the internal container texture.
    fn default() -> (d: DrawDescriptor)
        ensures
            d.mesh@ == MeshTypeView::Internal(InternalMesh::Cube),
            d.shader@ == ShaderTypeView::Internal,
            d.texture@ == TextureTypeView::Internal(InternalTexture::Crate),
    {
        DrawDescriptor {
            mesh: MeshType::Internal(InternalMesh::Cube),
            shader: ShaderType::Internal,
            texture: TextureType::Internal(InternalTexture::Crate),
        }
    }
}

/// A resolved drawable: strong references to a mesh, a shader program and
/// a texture, shared transparently between entities whose descriptors
/// match.
#[derive(Clone, Copy, PartialEq, Eq, Structural, Debug)]
pub struct DrawComponent {
    pub mesh: Handle,
    pub shader: Handle,
    pub texture: Handle,
}

impl DrawComponent {
    /// Resolve `descriptor` through the manager: three independent
    /// acquires, bundled. On failure the whole resolution fails with the
    /// first error, and every strong count is restored.
    pub fn load(manager: &mut ResourceManager, descriptor: &DrawDescriptor) -> (r: Result<
        DrawComponent,
        ResourceLoadError,
    >)
        requires
            old(manager).wf(),
            old(manager).mesh_room(descriptor.mesh@),
            old(manager).shader_room(descriptor.shader@),
            old(manager).texture_room(descriptor.texture@),
        ensures
            final(manager).wf(),
            final(manager).mesh_assets == old(manager).mesh_assets,
            final(manager).shader_assets == old(manager).shader_assets,
            final(manager).texture_assets == old(manager).texture_assets,
            match r {
                Ok(dc) => {
                    &&& !old(manager).mesh_missing(descriptor.mesh@)
                    &&& !old(manager).shader_missing(descriptor.shader@)
                    &&& !old(manager).texture_missing(descriptor.texture@)
                    &&& acquire_post(
                        old(manager).meshes.table(),
                        old(manager).meshes.next(),
                        descriptor.mesh@,
                        final(manager).meshes.table(),
                        final(manager).meshes.next(),
                        dc.mesh.id as int,
                        old(manager).mesh_expected(descriptor.mesh@),
                    )
                    &&& acquire_post(
                        old(manager).shaders.table(),
                        old(manager).shaders.next(),
                        descriptor.shader@,
                        final(manager).shaders.table(),
                        final(manager).shaders.next(),
                        dc.shader.id as int,
                        old(manager).shader_expected(descriptor.shader@),
                    )
                    &&& acquire_post(
                        old(manager).textures.table(),
                        old(manager).textures.next(),
                        descriptor.texture@,
                        final(manager).textures.table(),
                        final(manager).textures.next(),
                        dc.texture.id as int,
                        old(manager).texture_expected(descriptor.texture@),
                    )
                },
                Err(e) => {
                    &&& e == ResourceLoadError::MissingFile
                    &&& (old(manager).mesh_missing(descriptor.mesh@) || old(
                        manager,
                    ).shader_missing(descriptor.shader@) || old(manager).texture_missing(
                        descriptor.texture@,
                    ))
                    &&& forall|dv: MeshTypeView| #[trigger]
                        strong_at(final(manager).meshes.table(), dv) == strong_at(
                            old(manager).meshes.table(),
                            dv,
                        )
                    &&& forall|dv: ShaderTypeView| #[trigger]
                        strong_at(final(manager).shaders.table(), dv) == strong_at(
                            old(manager).shaders.table(),
                            dv,
                        )
                    &&& forall|dv: TextureTypeView| #[trigger]
                        strong_at(final(manager).textures.table(), dv) == strong_at(
                            old(manager).textures.table(),
                            dv,
                        )
                },
            },
    {
        let ghost m0 = *manager;
        let mesh = match manager.acquire_mesh(&descriptor.mesh) {
            Ok(h) => h,
            Err(e) => {
                return Err(e);
            },
        };
        let ghost m1 = *manager;
        let shader = match manager.acquire_shader(&descriptor.shader) {
            Ok(h) => h,
            Err(e) => {
                proof {
                    m0.meshes.lemma_wf_table();
                }
                manager.release_mesh(mesh);
                proof {
                    lemma_acquire_release_strongs(
                        m0.meshes.table(),
                        m0.meshes.next(),
                        descriptor.mesh@,
                        m1.meshes.table(),
                        m1.meshes.next(),
                        mesh.id as int,
                        m0.mesh_expected(descriptor.mesh@),
                        manager.meshes.table(),
                        manager.meshes.next(),
                    );
                }
                return Err(e);
            },
        };
        let ghost m2 = *manager;
        let texture = match manager.acquire_texture(&descriptor.texture) {
            Ok(h) => h,
            Err(e) => {
                proof {
                    m0.meshes.lemma_wf_table();
                    m1.shaders.lemma_wf_table();
                }
                manager.release_shader(shader);
                let ghost m3 = *manager;
                manager.release_mesh(mesh);
                proof {
                    lemma_acquire_release_strongs(
                        m1.shaders.table(),
                        m1.shaders.next(),
                        descriptor.shader@,
                        m2.shaders.table(),
                        m2.shaders.next(),
                        shader.id as int,
                        m1.shader_expected(descriptor.shader@),
                        m3.shaders.table(),
                        m3.shaders.next(),
                    );
                    lemma_acquire_release_strongs(
                        m0.meshes.table(),
                        m0.meshes.next(),
                        descriptor.mesh@,
                        m1.meshes.table(),
                        m1.meshes.next(),
                        mesh.id as int,
                        m0.mesh_expected(descriptor.mesh@),
                        manager.meshes.table(),
                        manager.meshes.next(),
                    );
                }
                return Err(e);
            },
        };
        Ok(DrawComponent { mesh, shader, texture })
    }

    /// The mesh handle.
    pub fn get_mesh(&self) -> (h: Handle)
        ensures
            h == self.mesh,
    {
        self.mesh
    }

    /// The shader handle.
    pub fn get_shader(&self) -> (h: Handle)
        ensures
            h == self.shader,
    {
        self.shader
    }

    /// The texture handle.
    pub fn get_texture(&self) -> (h: Handle)
        ensures
            h == self.texture,
    {
        self.texture
    }

    /// All three handles at once.
    pub fn get_all(&self) -> (r: (Handle, Handle, Handle))
        ensures
            r == (self.mesh, self.shader, self.texture),
    {
        (self.mesh, self.shader, self.texture)
    }
}

} // verus!
