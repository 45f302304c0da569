use simuverse_field::geometry::{
    div_ceil, field_buffer_size, field_workgroup_count, lattice_size, Extent2, FieldLayout,
    FIELD_CELL_STRIDE, PIXEL_DISTANCE,
};
use simuverse_field::simulator::{FieldSimulator, KernelUpdate, UpdateOutcome};

fn canvas(x: u32, y: u32) -> Extent2 {
    Extent2 { x, y }
}

#[test]
fn div_ceil_rounds_up() {
    assert_eq!(div_ceil(0, 16), 0);
    assert_eq!(div_ceil(16, 16), 1);
    assert_eq!(div_ceil(17, 16), 2);
    assert_eq!(div_ceil(150, 16), 10);
    assert_eq!(div_ceil(u32::MAX, 1), u32::MAX);
    assert_eq!(div_ceil(u32::MAX, 4), 1 << 30);
}

#[test]
fn scenario_800_by_600() {
    let layout = FieldLayout::for_canvas(canvas(800, 600));
    assert_eq!(layout.lattice_size, canvas(200, 150));
    assert_eq!(layout.lattice_pixel_size, PIXEL_DISTANCE);
    assert_eq!(layout.canvas_size, canvas(800, 600));
    assert_eq!(layout.speed_ty, 0);
    assert_eq!(layout.field_workgroup_count(), (13, 10, 1));
    assert_eq!(layout.field_buffer_size(), Some(200 * 150 * 16));
}

#[test]
fn lattice_size_rounds_partial_cells_up() {
    assert_eq!(lattice_size(canvas(801, 599)), canvas(201, 150));
    assert_eq!(lattice_size(canvas(0, 3)), canvas(0, 1));
    assert_eq!(lattice_size(canvas(u32::MAX, 4)), canvas(1 << 30, 1));
}

#[test]
fn buffer_size_is_cells_times_stride() {
    for (w, h) in [(800u32, 600u32), (801, 599), (1, 1), (1920, 1080)] {
        let l = lattice_size(canvas(w, h));
        let cells = ((w as u64 + 3) / 4) * ((h as u64 + 3) / 4);
        assert_eq!(field_buffer_size(l), Some(cells * FIELD_CELL_STRIDE));
    }
    assert_eq!(field_buffer_size(canvas(0, 5)), Some(0));
}

#[test]
fn buffer_size_too_large_is_none() {
    let l = lattice_size(canvas(u32::MAX, u32::MAX));
    assert_eq!(l, canvas(1 << 30, 1 << 30));
    assert_eq!(field_buffer_size(l), None);
    assert_eq!(field_buffer_size(canvas(1 << 30, (1 << 30) - 1)), Some(((1u64 << 60) - (1u64 << 30)) * 16));
}

#[test]
fn workgroup_count_covers_lattice() {
    assert_eq!(field_workgroup_count(canvas(200, 150)), (13, 10, 1));
    assert_eq!(field_workgroup_count(canvas(16, 32)), (1, 2, 1));
    assert_eq!(field_workgroup_count(canvas(0, 1)), (0, 1, 1));
}

#[test]
fn new_seeds_field_and_starts_at_frame_zero() {
    let (sim, seed) = FieldSimulator::new(canvas(800, 600), (64, 1, 1), "stage-a");
    assert_eq!(seed, (13, 10, 1));
    assert_eq!(sim.frame_num(), 0);
    assert_eq!(sim.reset(), (13, 10, 1));
    assert_eq!(sim.update_field_by_cpass(), (13, 10, 1));
    assert_eq!(sim.compute(), (64, 1, 1));
    assert_eq!(*sim.field_setting_node(), "stage-a");
    assert_eq!(sim.layout(), FieldLayout::for_canvas(canvas(800, 600)));
}

#[test]
fn two_frames_count_two() {
    let (mut sim, _) = FieldSimulator::new(canvas(800, 600), (8, 8, 1), 0u8);
    assert_eq!(sim.compute(), (8, 8, 1));
    sim.draw_by_rpass();
    assert_eq!(sim.frame_num(), 1);
    assert_eq!(sim.compute(), (8, 8, 1));
    sim.draw_by_rpass();
    assert_eq!(sim.frame_num(), 2);
}

#[test]
fn unchanged_source_is_a_no_op() {
    let (mut sim, _) = FieldSimulator::new(canvas(800, 600), (8, 1, 1), "stage-a");
    let out = sim.update_by(KernelUpdate::Unchanged);
    assert!(matches!(out, UpdateOutcome::Unchanged));
    assert_eq!(*sim.field_setting_node(), "stage-a");
    assert_eq!(sim.field_workgroup_count(), (13, 10, 1));
    assert_eq!(sim.compute(), (8, 1, 1));
}

#[test]
fn compiled_source_replaces_stage_and_reseeds() {
    let (mut sim, _) = FieldSimulator::new(canvas(800, 600), (8, 1, 1), "stage-a");
    sim.update_workgroup_count((32, 2, 1));
    let out = sim.update_by(KernelUpdate::Compiled("stage-b"));
    assert!(matches!(out, UpdateOutcome::Reloaded((13, 10, 1))));
    assert_eq!(*sim.field_setting_node(), "stage-b");
    assert_eq!(sim.compute(), (32, 2, 1));
    assert_eq!(sim.reset(), (13, 10, 1));
}

#[test]
fn rejected_source_keeps_previous_stage() {
    let (mut sim, _) = FieldSimulator::new(canvas(800, 600), (8, 1, 1), "stage-a");
    let out = sim.update_by(KernelUpdate::Rejected);
    assert!(matches!(out, UpdateOutcome::KernelRejected));
    assert_eq!(*sim.field_setting_node(), "stage-a");
    assert_eq!(sim.reset(), (13, 10, 1));
    assert_eq!(sim.frame_num(), 0);
}

#[test]
fn particle_dispatch_size_leaves_field_stage_alone() {
    let (mut sim, _) = FieldSimulator::new(canvas(640, 480), (8, 1, 1), 7u32);
    sim.update_workgroup_count((100, 3, 1));
    assert_eq!(sim.compute(), (100, 3, 1));
    assert_eq!(sim.field_workgroup_count(), (10, 8, 1));
    assert_eq!(sim.reset(), (10, 8, 1));
    assert_eq!(*sim.field_setting_node(), 7);
}
