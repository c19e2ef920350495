//! The resource cache: identity, renewal, discrimination, the internal
//! generators, missing external assets, and resolution rollback.

use rendercore::draw::{DrawComponent, DrawDescriptor};
use rendercore::mesh::Mesh;
use rendercore::resource_manager::{
    InternalMesh, InternalTexture, MeshType, ResourceLoadError, ResourceManager, ShaderType,
    TextureType,
};
use rendercore::shader::ShaderDescriptor;

#[test]
fn cache_identity_same_instance_while_alive() {
    let mut m = ResourceManager::new();
    let h1 = m.load_internal_mesh(&InternalMesh::Triangle);
    let h2 = m.load_internal_mesh(&InternalMesh::Triangle);
    assert_eq!(h1.id, h2.id);
    assert_eq!(
        m.mesh_strong_count(&MeshType::Internal(InternalMesh::Triangle)),
        2
    );
}

#[test]
fn cache_renewal_new_instance_after_all_released() {
    let mut m = ResourceManager::new();
    let h1 = m.load_internal_mesh(&InternalMesh::Square);
    m.release_mesh(h1);
    assert_eq!(
        m.mesh_strong_count(&MeshType::Internal(InternalMesh::Square)),
        0
    );
    let h2 = m.load_internal_mesh(&InternalMesh::Square);
    assert_ne!(h1.id, h2.id);
    assert!(m.get_mesh(h2).is_some());
    assert!(m.get_mesh(h1).is_none());
}

#[test]
fn cache_discrimination_distinct_descriptors_distinct_instances() {
    let mut m = ResourceManager::new();
    let ht = m.load_internal_mesh(&InternalMesh::Triangle);
    let hs = m.load_internal_mesh(&InternalMesh::Square);
    let hc = m.load_internal_mesh(&InternalMesh::Cube);
    assert_ne!(ht.id, hs.id);
    assert_ne!(ht.id, hc.id);
    assert_ne!(hs.id, hc.id);
}

#[test]
fn type_separated_tables_share_descriptor_values() {
    let mut m = ResourceManager::new();
    m.register_mesh_asset("shared.bin".to_string(), rendercore::mesh::gen_triangle());
    let raw = vec![1u8, 2, 3, 4];
    m.register_texture_asset("shared.bin".to_string(), 1, 1, &raw);
    let hm = m.load_mesh(&"shared.bin".to_string()).unwrap();
    let ht = m.load_texture(&"shared.bin".to_string()).unwrap();
    assert!(m.get_mesh(hm).is_some());
    assert!(m.get_texture(ht).is_some());
}

#[test]
fn triangle_mesh_three_vertices_no_indices() {
    let mut m = ResourceManager::new();
    let h = m.load_internal_mesh(&InternalMesh::Triangle);
    let mesh = m.get_mesh(h).unwrap();
    assert_eq!(mesh.vertices.len(), 3);
    assert!(mesh.indices.is_none());
}

#[test]
fn square_mesh_four_vertices_six_indices() {
    let mut m = ResourceManager::new();
    let h = m.load_internal_mesh(&InternalMesh::Square);
    let mesh = m.get_mesh(h).unwrap();
    assert_eq!(mesh.vertices.len(), 4);
    assert_eq!(mesh.indices.as_ref().unwrap(), &vec![0u32, 1, 3, 1, 2, 3]);
}

#[test]
fn cube_mesh_thirty_six_vertices_no_indices() {
    let mesh = rendercore::mesh::gen_cube();
    assert_eq!(mesh.vertices.len(), 36);
    assert!(mesh.indices.is_none());
}

#[test]
fn missing_external_mesh_fails_with_load_error() {
    let mut m = ResourceManager::new();
    let r = m.load_mesh(&"nonexistent.obj".to_string());
    assert_eq!(r, Err(ResourceLoadError::MissingFile));
}

#[test]
fn registered_external_mesh_loads() {
    let mut m = ResourceManager::new();
    let data = Mesh {
        vertices: rendercore::mesh::gen_triangle().vertices,
        indices: Some(vec![0, 1, 2]),
    };
    m.register_mesh_asset("tri.obj".to_string(), data);
    let h = m.load_mesh(&"tri.obj".to_string()).unwrap();
    let mesh = m.get_mesh(h).unwrap();
    assert_eq!(mesh.vertices.len(), 3);
    assert_eq!(mesh.indices.as_ref().unwrap(), &vec![0u32, 1, 2]);
}

#[test]
fn gltf_descriptor_reads_registered_asset() {
    let mut m = ResourceManager::new();
    m.register_mesh_asset("teapot.gltf".to_string(), rendercore::mesh::gen_cube());
    let d = MeshType::Gltf("teapot.gltf".to_string());
    let h = m.acquire_mesh(&d).unwrap();
    assert_eq!(m.get_mesh(h).unwrap().vertices.len(), 36);
}

#[test]
fn internal_texture_is_two_by_two() {
    let mut m = ResourceManager::new();
    let h = m.load_internal_texture(&InternalTexture::Crate);
    let t = m.get_texture(h).unwrap();
    assert_eq!((t.width, t.height), (2, 2));
    assert_eq!(t.rgba.len(), 16);
    assert_eq!(&t.rgba[0..4], &[230, 230, 230, 255]);
    assert_eq!(&t.rgba[4..8], &[90, 90, 90, 255]);
}

#[test]
fn internal_shader_sources_are_glsl() {
    let mut m = ResourceManager::new();
    let h = m.load_internal_shader();
    let p = m.get_shader(h).unwrap();
    assert!(p.vertex_src.starts_with("#version 330 core"));
    assert!(p.fragment_src.starts_with("#version 330 core"));
    assert!(p.geometry_src.is_none());
}

#[test]
fn draw_component_resolution_bundles_three_handles() {
    let mut m = ResourceManager::new();
    let d = DrawDescriptor::default();
    let dc = DrawComponent::load(&mut m, &d).unwrap();
    assert!(m.get_mesh(dc.get_mesh()).is_some());
    assert!(m.get_shader(dc.get_shader()).is_some());
    assert!(m.get_texture(dc.get_texture()).is_some());
    let (hm, hs, ht) = dc.get_all();
    assert_eq!(hm, dc.mesh);
    assert_eq!(hs, dc.shader);
    assert_eq!(ht, dc.texture);
}

#[test]
fn failed_resolution_releases_acquired_handles() {
    let mut m = ResourceManager::new();
    let d = DrawDescriptor {
        mesh: MeshType::Internal(InternalMesh::Cube),
        shader: ShaderType::Internal,
        texture: TextureType::External("missing.png".to_string()),
    };
    let r = DrawComponent::load(&mut m, &d);
    assert_eq!(r, Err(ResourceLoadError::MissingFile));
    assert_eq!(
        m.mesh_strong_count(&MeshType::Internal(InternalMesh::Cube)),
        0
    );
    assert_eq!(m.shader_strong_count(&ShaderType::Internal), 0);
    assert_eq!(
        m.texture_strong_count(&TextureType::External("missing.png".to_string())),
        0
    );
}

#[test]
fn shared_descriptors_share_the_instance() {
    let mut m = ResourceManager::new();
    let d = DrawDescriptor::default();
    let a = DrawComponent::load(&mut m, &d).unwrap();
    let b = DrawComponent::load(&mut m, &d).unwrap();
    assert_eq!(a.mesh.id, b.mesh.id);
    assert_eq!(a.shader.id, b.shader.id);
    assert_eq!(a.texture.id, b.texture.id);
    assert_eq!(
        m.mesh_strong_count(&MeshType::Internal(InternalMesh::Cube)),
        2
    );
}

#[test]
fn texture_registration_flips_rows() {
    let mut m = ResourceManager::new();
    // one column, two rows: top row 1..4, bottom row 5..8
    let raw = vec![1u8, 2, 3, 4, 5, 6, 7, 8];
    m.register_texture_asset("img.png".to_string(), 1, 2, &raw);
    let h = m.load_texture(&"img.png".to_string()).unwrap();
    let t = m.get_texture(h).unwrap();
    assert_eq!(t.rgba, vec![5u8, 6, 7, 8, 1, 2, 3, 4]);
}

#[test]
fn shader_descriptors_order_lexicographically() {
    let a = ShaderDescriptor {
        vertex: "a.glsl".to_string(),
        fragment: "f.glsl".to_string(),
        geometry: None,
    };
    let b = ShaderDescriptor {
        vertex: "b.glsl".to_string(),
        fragment: "f.glsl".to_string(),
        geometry: None,
    };
    assert!(a.le(&b));
    assert!(!b.le(&a));
    assert!(a.le(&a));
    // the geometry stage breaks ties, absent first
    let with_geom = ShaderDescriptor {
        vertex: "a.glsl".to_string(),
        fragment: "f.glsl".to_string(),
        geometry: Some("g.glsl".to_string()),
    };
    assert!(a.le(&with_geom));
    assert!(!with_geom.le(&a));
}

#[test]
fn internal_shader_tag_sorts_first() {
    let internal = ShaderType::Internal;
    let external = ShaderType::External(ShaderDescriptor {
        vertex: "v.glsl".to_string(),
        fragment: "f.glsl".to_string(),
        geometry: None,
    });
    assert!(internal.le(&external));
    assert!(!external.le(&internal));
    assert!(internal.le(&internal));
}
