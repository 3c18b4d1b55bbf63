use prng_visualizer::renderer::gpu::{
    MathBuffers, MeshWrite, MAX_CURVE_VERTICES, MAX_GRID_VERTICES, MAX_HEATMAP_VERTICES,
    MAX_SURFACE_INDICES, MAX_SURFACE_VERTICES,
};
use prng_visualizer::renderer::point_cloud::{
    PointCloudBuffers, SlotWrite, BYTES_PER_POINT, MAX_POINTS_PER_BUFFER, NUM_BUFFERS,
};
use prng_visualizer::renderer::CameraMode;

#[test]
fn new_point_buffers_read_slot_zero_and_hold_nothing() {
    let buffers = PointCloudBuffers::new();
    assert_eq!(buffers.current_3d_buffer(), 0);
    assert_eq!(buffers.current_2d_buffer(), 0);
    assert_eq!(buffers.points_count_3d(), 0);
    assert_eq!(buffers.points_count_2d(), 0);
    assert_eq!(NUM_BUFFERS, 3);
    assert_eq!(BYTES_PER_POINT, 12);
    assert_eq!(MAX_POINTS_PER_BUFFER, 10_000_000);
}

#[test]
fn after_k_uploads_the_active_slot_is_k_mod_three() {
    let mut buffers = PointCloudBuffers::new();
    for k in 1..=20usize {
        let before = buffers.current_3d_buffer();
        let write = buffers.upload_3d(3 * k).unwrap();
        assert_ne!(write.slot, before);
        assert_eq!(write.slot, k % 3);
        assert_eq!(buffers.current_3d_buffer(), k % 3);
        assert_eq!(buffers.current_2d_buffer(), k % 3);
        assert_eq!(buffers.points_count_3d(), k as u32);
    }
}

#[test]
fn both_shapes_share_the_rotation() {
    let mut buffers = PointCloudBuffers::new();
    assert_eq!(buffers.upload_3d(9), Some(SlotWrite { slot: 1, point_count: 3, byte_len: 36 }));
    assert_eq!(buffers.upload_2d(6), Some(SlotWrite { slot: 2, point_count: 2, byte_len: 24 }));
    assert_eq!(buffers.upload_2d(3), Some(SlotWrite { slot: 0, point_count: 1, byte_len: 12 }));
    assert_eq!(buffers.upload_3d(30), Some(SlotWrite { slot: 1, point_count: 10, byte_len: 120 }));
    assert_eq!(buffers.points_count_3d(), 10);
    assert_eq!(buffers.points_count_2d(), 1);
    assert_eq!(buffers.current_3d_buffer(), 1);
}

#[test]
fn an_empty_upload_changes_nothing() {
    let mut buffers = PointCloudBuffers::new();
    assert_eq!(buffers.upload_3d(12), Some(SlotWrite { slot: 1, point_count: 4, byte_len: 48 }));
    assert_eq!(buffers.upload_3d(0), None);
    assert_eq!(buffers.upload_2d(0), None);
    assert_eq!(buffers.current_3d_buffer(), 1);
    assert_eq!(buffers.points_count_3d(), 4);
    assert_eq!(buffers.points_count_2d(), 0);
}

#[test]
fn an_upload_of_less_than_a_point_rotates_and_writes_nothing() {
    let mut buffers = PointCloudBuffers::new();
    assert_eq!(buffers.upload_3d(2), Some(SlotWrite { slot: 1, point_count: 0, byte_len: 0 }));
    assert_eq!(buffers.upload_3d(5), Some(SlotWrite { slot: 2, point_count: 1, byte_len: 12 }));
    assert_eq!(buffers.points_count_3d(), 1);
}

#[test]
fn an_upload_beyond_the_slot_capacity_is_cut_to_it() {
    let mut buffers = PointCloudBuffers::new();
    let exact = buffers.upload_3d(30_000_000).unwrap();
    assert_eq!(exact, SlotWrite { slot: 1, point_count: 10_000_000, byte_len: 120_000_000 });
    let over = buffers.upload_3d(30_000_003).unwrap();
    assert_eq!(over, SlotWrite { slot: 2, point_count: 10_000_000, byte_len: 120_000_000 });
    let under = buffers.upload_2d(29_999_999).unwrap();
    assert_eq!(under, SlotWrite { slot: 0, point_count: 9_999_999, byte_len: 119_999_988 });
    let huge = buffers.upload_2d(usize::MAX).unwrap();
    assert_eq!(huge.point_count, 10_000_000);
    assert_eq!(buffers.points_count_3d(), 10_000_000);
    assert_eq!(buffers.points_count_2d(), 10_000_000);
}

#[test]
fn new_mesh_buffers_hold_nothing() {
    let buffers = MathBuffers::new();
    assert_eq!(buffers.surface_vertex_count(), 0);
    assert_eq!(buffers.surface_index_count(), 0);
    assert_eq!(buffers.curve_vertex_count(), 0);
    assert_eq!(buffers.grid_vertex_count(), 0);
    assert_eq!(buffers.heatmap_vertex_count(), 0);
    assert_eq!(buffers.curve_2d_vertex_count(), 0);
}

#[test]
fn a_surface_upload_that_fits_is_taken_whole() {
    let mut buffers = MathBuffers::new();
    let write = buffers.upload_surface(30_000, 58_806);
    assert_eq!(write, MeshWrite { vertex_values: 30_000, index_count: 58_806 });
    assert_eq!(buffers.surface_vertex_count(), 10_000);
    assert_eq!(buffers.surface_index_count(), 58_806);
}

#[test]
fn a_surface_upload_is_cut_to_the_buffer_limits() {
    assert_eq!(MAX_SURFACE_VERTICES, 500_000);
    assert_eq!(MAX_SURFACE_INDICES, 1_000_000);
    let mut buffers = MathBuffers::new();
    let write = buffers.upload_surface(1_500_003, 1_000_001);
    assert_eq!(write, MeshWrite { vertex_values: 1_500_000, index_count: 1_000_000 });
    assert_eq!(buffers.surface_vertex_count(), 500_000);
    assert_eq!(buffers.surface_index_count(), 1_000_000);
    let write = buffers.upload_parametric_surface(7_500, 14_406);
    assert_eq!(write, MeshWrite { vertex_values: 7_500, index_count: 14_406 });
    assert_eq!(buffers.surface_vertex_count(), 2_500);
    assert_eq!(buffers.surface_index_count(), 14_406);
}

#[test]
fn flat_uploads_are_cut_to_their_buffers() {
    assert_eq!(MAX_CURVE_VERTICES, 10_000);
    assert_eq!(MAX_GRID_VERTICES, 2000);
    assert_eq!(MAX_HEATMAP_VERTICES, 500_000);
    let mut buffers = MathBuffers::new();
    assert_eq!(buffers.upload_curve(3_000), 3_000);
    assert_eq!(buffers.curve_vertex_count(), 1_000);
    assert_eq!(buffers.upload_curve(30_001), 30_000);
    assert_eq!(buffers.curve_vertex_count(), 10_000);

    assert_eq!(buffers.upload_curve_2d(2_001), 2_001);
    assert_eq!(buffers.curve_2d_vertex_count(), 1_000);
    assert_eq!(buffers.upload_curve_2d(20_001), 20_000);
    assert_eq!(buffers.curve_2d_vertex_count(), 10_000);

    assert_eq!(buffers.upload_grid(282), 282);
    assert_eq!(buffers.grid_vertex_count(), 94);
    assert_eq!(buffers.upload_grid(6_001), 6_000);
    assert_eq!(buffers.grid_vertex_count(), 2_000);

    assert_eq!(buffers.upload_heatmap(30_000), 30_000);
    assert_eq!(buffers.heatmap_vertex_count(), 10_000);
    assert_eq!(buffers.upload_heatmap(usize::MAX), 1_500_000);
    assert_eq!(buffers.heatmap_vertex_count(), 500_000);

    assert_eq!(buffers.surface_vertex_count(), 0);
    assert_eq!(buffers.curve_vertex_count(), 10_000);
}

#[test]
fn a_partial_vertex_is_uploaded_but_not_counted() {
    let mut buffers = MathBuffers::new();
    assert_eq!(buffers.upload_curve(8), 8);
    assert_eq!(buffers.curve_vertex_count(), 2);
    assert_eq!(buffers.upload_curve_2d(5), 5);
    assert_eq!(buffers.curve_2d_vertex_count(), 2);
}

#[test]
fn camera_modes_compare_by_variant() {
    assert_eq!(CameraMode::Free, CameraMode::Free);
    assert_ne!(CameraMode::Free, CameraMode::Orbital);
    let copy = CameraMode::Orbital;
    assert_eq!(copy, CameraMode::Orbital);
}
