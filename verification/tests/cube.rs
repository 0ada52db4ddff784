use graphics_examples::cube::{
    advance_model, clear_data, cube_camera, frame_commands, react, ClearData, Command, Comparison,
    CubeResources, DepthTest, IndexSlice, Matrix4, Vector4,
};
use graphics_examples::mesh::{cube_indices, cube_vertices};
use graphics_examples::scalar::Tenths;
use graphics_examples::texture::{FilterMethod, ImageInfo, TextureInfo, WrapMode};
use graphics_examples::window::{Event, RenderArgs};

fn float(t: Tenths) -> f32 {
    t.0 as f32 / 10.0
}

fn full_slice() -> IndexSlice {
    IndexSlice { start: 0, end: 36 }
}

fn sample_matrix() -> Matrix4 {
    Matrix4 {
        x: Vector4 { x: Tenths(1), y: Tenths(2), z: Tenths(3), w: Tenths(4) },
        y: Vector4 { x: Tenths(5), y: Tenths(6), z: Tenths(7), w: Tenths(8) },
        z: Vector4 { x: Tenths(9), y: Tenths(-10), z: Tenths(11), w: Tenths(12) },
        w: Vector4 { x: Tenths(13), y: Tenths(14), z: Tenths(15), w: Tenths(-16) },
    }
}

fn count_clears(commands: &[Command]) -> usize {
    commands.iter().filter(|c| matches!(c, Command::Clear(_))).count()
}

fn count_draws(commands: &[Command]) -> usize {
    commands.iter().filter(|c| matches!(c, Command::Draw(_))).count()
}

#[test]
fn identity_has_ones_on_the_diagonal() {
    let m = Matrix4::identity();
    let columns = [m.x, m.y, m.z, m.w];
    for (c, column) in columns.iter().enumerate() {
        let entries = [column.x, column.y, column.z, column.w];
        for (r, entry) in entries.iter().enumerate() {
            let expected: f32 = if r == c { 1.0 } else { 0.0 };
            assert_eq!(float(*entry), expected);
        }
    }
}

#[test]
fn advancing_sets_one_entry_to_one() {
    let model = sample_matrix();
    let next = advance_model(model);
    assert_eq!(float(next.x.x), 1.0);
    assert_eq!(next.x.x, Tenths(10));
    assert_eq!((next.x.y, next.x.z, next.x.w), (model.x.y, model.x.z, model.x.w));
    assert_eq!(next.y, model.y);
    assert_eq!(next.z, model.z);
    assert_eq!(next.w, model.w);
    assert_ne!(next, model);
}

#[test]
fn advancing_twice_is_advancing_once() {
    let once = advance_model(sample_matrix());
    assert_eq!(advance_model(once), once);
    assert_eq!(advance_model(Matrix4::identity()), Matrix4::identity());
}

#[test]
fn frame_is_cleared_to_grey_at_full_depth() {
    let clear = clear_data();
    let color = clear.color.unwrap();
    assert_eq!([float(color[0]), float(color[1]), float(color[2]), float(color[3])], [
        0.3f32, 0.3, 0.3, 1.0
    ]);
    assert_eq!(float(clear.depth.unwrap()), 1.0f32);
    assert_eq!(clear.stencil, None);
    assert_eq!(
        clear,
        ClearData {
            color: Some([Tenths(3), Tenths(3), Tenths(3), Tenths(10)]),
            depth: Some(Tenths(10)),
            stencil: None
        }
    );
}

#[test]
fn frame_runs_five_commands_in_order() {
    let model = sample_matrix();
    let commands = frame_commands(model, full_slice());
    assert_eq!(
        commands,
        vec![
            Command::Reset,
            Command::Clear(clear_data()),
            Command::SetTransform(model),
            Command::Draw(IndexSlice { start: 0, end: 36 }),
            Command::Submit,
        ]
    );
}

#[test]
fn frame_clears_once_and_draws_once() {
    let commands = frame_commands(Matrix4::identity(), full_slice());
    assert_eq!(count_clears(&commands), 1);
    assert_eq!(count_draws(&commands), 1);
    assert_eq!(commands.first(), Some(&Command::Reset));
    assert_eq!(commands.last(), Some(&Command::Submit));
}

#[test]
fn frame_draws_the_slice_it_is_given() {
    let slice = IndexSlice { start: 6, end: 12 };
    let commands = frame_commands(Matrix4::identity(), slice);
    assert_eq!(commands[3], Command::Draw(slice));
}

#[test]
fn render_event_draws_a_frame_with_the_advanced_model() {
    let model = sample_matrix();
    let event = Event::Render(RenderArgs { width: 640, height: 480 });
    let (next, commands) = react(true, &event, model, full_slice());
    assert_eq!(next, advance_model(model));
    assert_eq!(commands, frame_commands(advance_model(model), full_slice()));
    assert_eq!(commands[2], Command::SetTransform(next));
    assert_eq!(count_clears(&commands), 1);
    assert_eq!(count_draws(&commands), 1);
}

#[test]
fn other_events_are_ignored() {
    let model = sample_matrix();
    let (after_update, update_commands) = react(true, &Event::Update, model, full_slice());
    assert_eq!(after_update, model);
    assert!(update_commands.is_empty());
    let (after_other, other_commands) = react(true, &Event::Other, model, full_slice());
    assert_eq!(after_other, model);
    assert!(other_commands.is_empty());
}

#[test]
fn nothing_is_drawn_before_the_setup_is_ready() {
    let model = sample_matrix();
    let event = Event::Render(RenderArgs { width: 640, height: 480 });
    let (next, commands) = react(false, &event, model, full_slice());
    assert_eq!(next, model);
    assert!(commands.is_empty());
    let (unchanged, none) = react(false, &Event::Update, model, full_slice());
    assert_eq!(unchanged, model);
    assert!(none.is_empty());
}

#[test]
fn cube_resources_hold_the_mesh() {
    let resources = CubeResources::new();
    assert_eq!(resources.vertices, cube_vertices());
    assert_eq!(resources.indices, cube_indices());
    assert_eq!(resources.slice, IndexSlice { start: 0, end: 36 });
    assert_eq!(resources.indices.len(), 36);
    assert_eq!(resources.vertices.len(), 24);
}

#[test]
fn cube_resources_hold_a_one_texel_texture() {
    let resources = CubeResources::new();
    assert_eq!(resources.texture, TextureInfo { width: 1, height: 1, levels: 1 });
    assert_eq!(
        resources.image,
        ImageInfo { xoffset: 0, yoffset: 0, zoffset: 0, width: 1, height: 1, depth: 1, mipmap: 0 }
    );
    assert_eq!(resources.texels, vec![0x20u8, 0xA0u8, 0xC0u8, 0x00u8]);
    assert_eq!(resources.sampler.filter, FilterMethod::Bilinear);
    assert_eq!(resources.sampler.wrap, WrapMode::Clamp);
}

#[test]
fn cube_resources_fit_each_other() {
    let resources = CubeResources::new();
    let start: usize = resources.slice.start as usize;
    let end: usize = resources.slice.end as usize;
    assert!(start <= end && end <= resources.indices.len());
    assert_eq!((end - start) % 3, 0);
    assert_eq!((end - start) / 3, 12);
    for index in &resources.indices[start..end] {
        assert!(usize::from(*index) < resources.vertices.len());
    }
    let texel_count: usize = usize::from(resources.image.width)
        * usize::from(resources.image.height)
        * usize::from(resources.image.depth);
    assert_eq!(resources.texels.len(), 4 * texel_count);
}

#[test]
fn cube_resources_test_depth_and_start_at_identity() {
    let resources = CubeResources::new();
    assert_eq!(resources.state, DepthTest { function: Comparison::LessEqual, write: true });
    assert_eq!(resources.model, Matrix4::identity());
}

#[test]
fn setting_up_twice_gives_the_same_resources() {
    let first = CubeResources::new();
    let second = CubeResources::new();
    assert_eq!(first, second);
    let mut changed = CubeResources::new();
    changed.texels[0] = 0;
    changed.model = advance_model(sample_matrix());
    assert_eq!(CubeResources::new(), first);
    assert_ne!(changed, first);
}

#[test]
fn camera_stands_off_the_cube() {
    let camera = cube_camera();
    assert_eq!([float(camera.eye[0]), float(camera.eye[1]), float(camera.eye[2])], [
        1.5f32, -5.0, 3.0
    ]);
    assert_eq!([float(camera.target[0]), float(camera.target[1]), float(camera.target[2])], [
        0.0f32, 0.0, 0.0
    ]);
    assert_eq!([float(camera.up[0]), float(camera.up[1]), float(camera.up[2])], [0.0f32, 0.0, 1.0]);
    assert_eq!(float(camera.fov_degrees), 45.0f32);
    assert_eq!(float(camera.near), 1.0f32);
    assert_eq!(float(camera.far), 10.0f32);
}
