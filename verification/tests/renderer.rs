use tubereng::graphics::WindowSize;
use tubereng::renderer::pass_2d::{batches_metadata, queue_quad, PendingBatch};
use tubereng::renderer::ui::{push_quad, QuadBatch};
use tubereng::renderer::{material, mesh, texture};

#[test]
fn texture_cache_gives_back_inserted_textures() {
    let mut cache = texture::Cache::new();
    let a = cache.insert(texture::Info::new(16, 8), "a");
    let b = cache.insert(texture::Info::new(32, 4), "b");
    assert_eq!((*a, *b), (0, 1));
    assert_eq!(cache.info(a).width(), 16);
    assert_eq!(cache.info(b).height(), 4);
    assert_eq!(*cache.get(b), "b");
    let c = cache.insert(texture::Info::new(64, 2), "c");
    assert_eq!(*c, 2);
    assert_eq!((cache.info(c).width(), cache.info(c).height()), (64, 2));
    assert_eq!((cache.info(a).width(), cache.info(a).height()), (16, 8));
}

#[test]
fn mesh_and_material_caches_count_up() {
    let mut meshes = mesh::Cache::new();
    let m = meshes.insert(10u32);
    assert_eq!(*m, 0);
    assert_eq!(*meshes.get(m), 10);
    let mut materials = material::Cache::default();
    let id = materials.insert('x');
    assert_eq!(materials.get(id), Some(&'x'));
    let other = material::Cache::<char>::new();
    assert!(other.get(id).is_none());
}

#[test]
fn window_size_new() {
    let size = WindowSize::new(800, 600);
    assert_eq!((size.width, size.height), (800, 600));
}

#[test]
fn quads_are_batched_by_texture() {
    let mut textures = texture::Cache::new();
    let font = textures.insert(texture::Info::new(8, 8), ());
    let icon = textures.insert(texture::Info::new(4, 4), ());
    let mut batches: Vec<QuadBatch> = vec![];
    assert_eq!(push_quad(&mut batches, font), 0);
    assert_eq!(push_quad(&mut batches, font), 6);
    assert_eq!(push_quad(&mut batches, icon), 12);
    assert_eq!(push_quad(&mut batches, font), 18);
    assert_eq!(batches.len(), 3);
    assert_eq!((batches[0].start_vertex_offset(), batches[0].end_vertex_offset()), (0, 12));
    assert_eq!((batches[1].start_vertex_offset(), batches[1].end_vertex_offset()), (12, 18));
    assert_eq!((batches[2].start_vertex_offset(), batches[2].end_vertex_offset()), (18, 24));
    assert_eq!(batches[1].texture_id(), icon);
    let fresh = QuadBatch::new(30, icon);
    assert_eq!((fresh.start_vertex_offset(), fresh.end_vertex_offset()), (30, 30));
}

#[test]
fn pending_quads_become_contiguous_vertex_ranges() {
    let mut textures = texture::Cache::new();
    let grass = textures.insert(texture::Info::new(8, 8), ());
    let water = textures.insert(texture::Info::new(8, 8), ());
    let mut pending: Vec<PendingBatch<u8>> = vec![];
    queue_quad(&mut pending, grass, [1, 2, 3, 4, 5, 6]);
    queue_quad(&mut pending, grass, [7, 8, 9, 10, 11, 12]);
    queue_quad(&mut pending, water, [0; 6]);
    assert_eq!(pending.len(), 2);
    assert_eq!(pending[0].vertices.len(), 12);
    assert_eq!(pending[0].vertices[6], 7);
    let metadata = batches_metadata(&pending);
    assert_eq!((metadata[0].start_vertex_index, metadata[0].end_vertex_index), (0, 12));
    assert_eq!((metadata[1].start_vertex_index, metadata[1].end_vertex_index), (12, 18));
    assert_eq!(metadata[1].texture_id, water);
    assert!(PendingBatch::<u8>::new(water).vertices.is_empty());
}
