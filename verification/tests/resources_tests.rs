use rust_cube::renderer::commands::plan_draw;
use rust_cube::renderer::descriptors::PerFrame;
use rust_cube::resources::textures::texture_extent;
use rust_cube::scene::mesh::element_count_u32;

#[test]
fn draw_plan_uses_image_extent_and_all_vertices() {
    let plan = plan_draw([800, 600, 1], 24);
    assert_eq!(plan.render_area_extent, [800, 600]);
    assert_eq!(plan.layer_count, 1);
    assert_eq!(plan.vertex_count, 24);
    assert_eq!(plan.instance_count, 1);
    assert_eq!(plan.first_vertex, 0);
    assert_eq!(plan.first_instance, 0);
}

#[test]
fn per_frame_items_by_slot() {
    let items = PerFrame::from_fn(|i: usize| i * 10 + 1);
    assert_eq!(*items.get(0), 1);
    assert_eq!(*items.get(1), 11);
    let doubled = items.map_ref(|x: &usize| *x * 2);
    assert_eq!(*doubled.get(0), 2);
    assert_eq!(*doubled.get(1), 22);
}

#[test]
fn element_counts_truncate() {
    assert_eq!(element_count_u32(24), 24);
    assert_eq!(element_count_u32(u32::MAX as u64), u32::MAX);
    assert_eq!(element_count_u32((1u64 << 32) + 3), 3);
}

#[test]
fn texture_extent_single_layer() {
    assert_eq!(texture_extent(512, 256), [512, 256, 1]);
}
