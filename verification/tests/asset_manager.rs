use asset_manager::cache::NameCache;
use asset_manager::kind::{AaMode, TextureKind};
use asset_manager::manager::{
    AssetManager, BackendTexture, FactoryImpl, Mesh, MeshImpl, TextureImpl,
};

#[test]
fn empty_manager_returns_nothing() {
    let mut manager = AssetManager::new(FactoryImpl::Null);
    assert!(manager.get_mesh("cube").is_none());
    assert!(manager.get_texture("grass").is_none());
}

#[test]
fn constant_texture_round_trip() {
    let mut manager = AssetManager::new(FactoryImpl::Null);
    let red: [u32; 4] = [
        1.0f32.to_bits(),
        0.0f32.to_bits(),
        0.0f32.to_bits(),
        1.0f32.to_bits(),
    ];
    manager.create_constant_texture("red", red);
    let texture = manager.get_texture("red").expect("texture was cached");
    match texture.texture_impl {
        TextureImpl::OpenGL { texture: BackendTexture::Constant { color } } => {
            assert_eq!(color, red);
        }
        _ => panic!("expected the constant color back"),
    }
}

#[test]
fn constant_texture_replaces_previous() {
    let mut manager = AssetManager::new(FactoryImpl::Null);
    manager.create_constant_texture("c", [1, 1, 1, 1]);
    manager.create_constant_texture("c", [2, 2, 2, 2]);
    let texture = manager.get_texture("c").expect("texture was cached");
    match texture.texture_impl {
        TextureImpl::OpenGL { texture: BackendTexture::Constant { color } } => {
            assert_eq!(color, [2, 2, 2, 2]);
        }
        _ => panic!("expected the constant color back"),
    }
}

#[test]
fn distinct_names_kept_separately() {
    let mut manager = AssetManager::new(FactoryImpl::Null);
    manager.create_constant_texture("a", [1, 0, 0, 0]);
    manager.create_constant_texture("b", [0, 1, 0, 0]);
    let a = manager.get_texture("a").expect("texture was cached");
    let b = manager.get_texture("b").expect("texture was cached");
    match (a.texture_impl, b.texture_impl) {
        (
            TextureImpl::OpenGL { texture: BackendTexture::Constant { color: ca } },
            TextureImpl::OpenGL { texture: BackendTexture::Constant { color: cb } },
        ) => {
            assert_eq!(ca, [1, 0, 0, 0]);
            assert_eq!(cb, [0, 1, 0, 0]);
        }
        _ => panic!("expected two constant colors back"),
    }
}

#[test]
fn null_backend_drops_mesh_load() {
    let mut manager = AssetManager::new(FactoryImpl::Null);
    let data = vec![[0u32; 8], [1u32; 8], [2u32; 8]];
    manager.load_mesh("triangle", &data);
    assert!(manager.get_mesh("triangle").is_none());
}

#[test]
fn null_backend_drops_texture_load() {
    let mut manager = AssetManager::new(FactoryImpl::Null);
    let kind = TextureKind::D2(1, 1, AaMode::Single);
    let pixels: [[u8; 4]; 1] = [[255, 0, 0, 255]];
    let data: [&[[u8; 4]]; 1] = [&pixels];
    manager.load_texture("pixel", kind, &data);
    assert!(manager.get_texture("pixel").is_none());
}

#[test]
fn texture_data_shape_is_checked() {
    let pixel: [[u8; 4]; 1] = [[255, 0, 0, 255]];
    let four: [[u8; 4]; 4] = [[0; 4]; 4];
    let kind = TextureKind::D2(2, 2, AaMode::Single);
    // A full mip chain: four pixels at the base level, one at the next.
    let full: [&[[u8; 4]]; 2] = [&four, &pixel];
    assert!(kind.data_valid(&full));
    // The base level of a two-by-two texture needs four pixels, not one.
    let short: [&[[u8; 4]]; 1] = [&pixel];
    assert!(!kind.data_valid(&short));
}

#[test]
fn texture_array_needs_a_layer() {
    let pixel: [[u8; 4]; 1] = [[0, 255, 0, 255]];
    let none = TextureKind::D2Array(1, 1, 0, AaMode::Single);
    assert!(!none.data_valid(&[&pixel]));
    let two = TextureKind::D2Array(1, 1, 2, AaMode::Single);
    assert!(two.data_valid(&[&pixel, &pixel]));
    assert!(!two.data_valid(&[&pixel]));
}

#[test]
fn texture_data_chunk_count_is_capped() {
    let pixel: [[u8; 4]; 1] = [[0, 0, 255, 255]];
    let rows: Vec<&[[u8; 4]]> = vec![&pixel; 257];
    assert!(!TextureKind::D1(1).data_valid(&rows));
}

#[test]
fn inserted_mesh_is_returned() {
    let mut manager = AssetManager::new(FactoryImpl::Null);
    manager.insert_mesh("stub", Mesh { mesh_impl: MeshImpl::Null });
    let mesh = manager.get_mesh("stub").expect("mesh was cached");
    assert!(matches!(mesh.mesh_impl, MeshImpl::Null));
    assert!(manager.get_mesh("other").is_none());
}

#[test]
fn fragment_needs_opengl_backend() {
    let mut manager = AssetManager::new(FactoryImpl::Null);
    manager.insert_mesh("m", Mesh { mesh_impl: MeshImpl::Null });
    manager.create_constant_texture("ka", [0, 0, 0, 0]);
    manager.create_constant_texture("kd", [0, 0, 0, 0]);
    let fragment = manager.get_fragment("m", "ka", "kd", [[0u32; 4]; 4]);
    assert!(fragment.is_none());
}

#[test]
fn cache_returns_what_was_inserted() {
    let mut cache: NameCache<u32> = NameCache::new();
    assert!(cache.get("one").is_none());
    cache.insert("one", 1);
    cache.insert("two", 2);
    assert_eq!(cache.get("one"), Some(&1));
    assert_eq!(cache.get("two"), Some(&2));
    assert!(cache.get("three").is_none());
}

#[test]
fn cache_insert_replaces() {
    let mut cache: NameCache<u32> = NameCache::new();
    cache.insert("k", 1);
    cache.insert("k", 7);
    assert_eq!(cache.get("k"), Some(&7));
}
