//! Input folding, timing, and the per-tick systems: camera rotation,
//! shutdown, spinning, and the frame plan.

use rendercore::camera::CameraResource;
use rendercore::draw::{DrawComponent, DrawDescriptor};
use rendercore::fx::FX_ONE;
use rendercore::input::{
    mouse_button_to_usize, DeviceEventData, ElementStateData, InputResource, MouseButtonData,
    MouseScrollDeltaData, WindowEventData, KEY_ESCAPE, KEY_W,
};
use rendercore::mat::Vec4;
use rendercore::render::{build_frame, DepthTest};
use rendercore::resource_manager::ResourceManager;
use rendercore::resources::{ExitResource, SunResource};
use rendercore::systems::{wrap_angle, CameraSystem, CloseSystem, SpinCube, PI_FX, TWO_PI_FX};
use rendercore::time::TimerResource;
use rendercore::transform::TransformComponent;

#[test]
fn key_events_toggle_key_state() {
    let mut input = InputResource::new(true);
    assert!(!input.key_pressed(KEY_W));
    input.window_event(&WindowEventData::KeyboardInput {
        key_code: Some(KEY_W),
        state: ElementStateData::Pressed,
    });
    assert!(input.key_pressed(KEY_W));
    input.window_event(&WindowEventData::KeyboardInput {
        key_code: Some(KEY_W),
        state: ElementStateData::Released,
    });
    assert!(!input.key_pressed(KEY_W));
}

#[test]
fn unknown_key_codes_are_ignored() {
    let mut input = InputResource::new(true);
    input.window_event(&WindowEventData::KeyboardInput {
        key_code: None,
        state: ElementStateData::Pressed,
    });
    assert!(!input.key_pressed(KEY_W));
}

#[test]
fn mouse_motion_accumulates_only_while_focused() {
    let mut input = InputResource::new(true);
    input.device_event(&DeviceEventData::MouseMotion { dx: 10, dy: -3 });
    input.device_event(&DeviceEventData::MouseMotion { dx: 5, dy: 1 });
    assert_eq!(input.get_mouse_delta(), (15, -2));
    input.window_event(&WindowEventData::Focused(false));
    input.device_event(&DeviceEventData::MouseMotion { dx: 100, dy: 100 });
    assert_eq!(input.get_mouse_delta(), (15, -2));
}

#[test]
fn pixel_scroll_accumulates_line_scroll_is_ignored() {
    let mut input = InputResource::new(true);
    input.window_event(&WindowEventData::MouseWheel {
        delta: MouseScrollDeltaData::PixelDelta { x: 7, y: 9 },
    });
    input.window_event(&WindowEventData::MouseWheel {
        delta: MouseScrollDeltaData::LineDelta { x: 100, y: 100 },
    });
    assert_eq!(input.get_scroll_delta(), (7, 9));
}

#[test]
fn tick_resets_deltas_but_not_keys() {
    let mut input = InputResource::new(true);
    input.window_event(&WindowEventData::KeyboardInput {
        key_code: Some(KEY_W),
        state: ElementStateData::Pressed,
    });
    input.device_event(&DeviceEventData::MouseMotion { dx: 4, dy: 4 });
    input.tick();
    assert_eq!(input.get_mouse_delta(), (0, 0));
    assert_eq!(input.get_scroll_delta(), (0, 0));
    assert!(input.key_pressed(KEY_W));
}

#[test]
fn mouse_buttons_map_to_distinct_slots() {
    let slots = [
        mouse_button_to_usize(&MouseButtonData::Left),
        mouse_button_to_usize(&MouseButtonData::Right),
        mouse_button_to_usize(&MouseButtonData::Middle),
        mouse_button_to_usize(&MouseButtonData::Back),
        mouse_button_to_usize(&MouseButtonData::Forward),
    ];
    assert_eq!(slots, [1, 2, 3, 4, 5]);
    assert_eq!(mouse_button_to_usize(&MouseButtonData::Other(17)), 6);
}

#[test]
fn cursor_position_is_latest() {
    let mut input = InputResource::new(true);
    input.window_event(&WindowEventData::CursorMoved { x: 11, y: 22 });
    input.window_event(&WindowEventData::CursorMoved { x: 33, y: 44 });
    assert_eq!((input.cursor_x, input.cursor_y), (33, 44));
}

#[test]
fn timer_caps_the_delta() {
    let mut t = TimerResource::new(1_000_000);
    assert_eq!(t.get_dt_nanos(), 0);
    t.apply_tick(500_000);
    assert_eq!(t.get_dt_nanos(), 500_000);
    t.apply_tick(5_000_000);
    assert_eq!(t.get_dt_nanos(), 1_000_000);
    t.tick();
    assert!(t.get_dt_nanos() <= 1_000_000);
    let _ = t.get_runtime();
}

#[test]
fn wrap_angle_folds_into_pi_range() {
    assert_eq!(wrap_angle(0), 0);
    assert_eq!(wrap_angle(TWO_PI_FX), 0);
    assert_eq!(wrap_angle(-TWO_PI_FX), 0);
    assert_eq!(wrap_angle(PI_FX + 1), 1 - PI_FX);
    assert_eq!(wrap_angle(1000), 1000);
    assert_eq!(wrap_angle(-1000), -1000);
}

#[test]
fn close_system_raises_and_keeps_the_flag() {
    let mut input = InputResource::new(true);
    let mut exit = ExitResource(false);
    CloseSystem::run(&input, &mut exit);
    assert!(!exit.0);
    input.window_event(&WindowEventData::KeyboardInput {
        key_code: Some(KEY_ESCAPE),
        state: ElementStateData::Pressed,
    });
    CloseSystem::run(&input, &mut exit);
    assert!(exit.0);
    input.window_event(&WindowEventData::KeyboardInput {
        key_code: Some(KEY_ESCAPE),
        state: ElementStateData::Released,
    });
    CloseSystem::run(&input, &mut exit);
    assert!(exit.0);
}

#[test]
fn camera_rotation_input_changes_only_the_view_rotation() {
    let mut camera = CameraResource::new(68629, FX_ONE);
    let mut sys = CameraSystem::default();
    let timer = TimerResource::new(100_000_000);
    let model = TransformComponent::from_position(0, 0, 5 * FX_ONE);
    let before_projection = camera.projection;
    let before_rotation = camera.rotation;
    let mvp_before = camera.transform_model(&model);

    let mut input = InputResource::new(true);
    input.device_event(&DeviceEventData::MouseMotion {
        dx: 400_000,
        dy: 150_000,
    });
    sys.run(&mut camera, &input, &timer);

    // only the rotational component of the view moved
    assert_eq!(camera.projection, before_projection);
    assert_eq!(camera.translation, rendercore::mat::Vec3 { x: 0, y: 0, z: 0 });
    assert_eq!(camera.scale, rendercore::mat::Vec3 { x: FX_ONE, y: FX_ONE, z: FX_ONE });
    assert_ne!(camera.rotation, before_rotation);
    let mvp_after = camera.transform_model(&model);
    assert_ne!(mvp_before, mvp_after);
}

#[test]
fn camera_moves_along_held_keys() {
    let mut camera = CameraResource::new(68629, FX_ONE);
    let mut sys = CameraSystem::default();
    let mut timer = TimerResource::new(1_000_000_000);
    timer.apply_tick(500_000_000);  // half a second
    let mut input = InputResource::new(true);
    input.window_event(&WindowEventData::KeyboardInput {
        key_code: Some(KEY_W),
        state: ElementStateData::Pressed,
    });
    sys.run(&mut camera, &input, &timer);
    // forward at five units per second for half a second: two and a half
    let z = camera.translation.z;
    assert!(z > 2 * FX_ONE && z < 3 * FX_ONE, "z = {}", z);
    assert_eq!(camera.translation.x, 0);
    assert_eq!(camera.translation.y, 0);
}

#[test]
fn spin_with_zero_delta_spins_nothing() {
    let timer = TimerResource::new(1_000_000_000);
    let mut transforms = vec![TransformComponent::from_position(FX_ONE, 0, 0)];
    let before = transforms[0];
    SpinCube::run(&mut transforms, &timer);
    assert_eq!(transforms[0], before);
}

#[test]
fn spin_changes_rotation_but_not_position() {
    let mut timer = TimerResource::new(1_000_000_000);
    timer.apply_tick(250_000_000);
    let mut transforms = vec![TransformComponent::from_position(FX_ONE, 0, 0)];
    let before = transforms[0];
    SpinCube::run(&mut transforms, &timer);
    assert_ne!(transforms[0].rotation, before.rotation);
    assert_eq!(transforms[0].translation, before.translation);
    assert_eq!(transforms[0].scale, before.scale);
}

#[test]
fn frame_plan_has_one_draw_per_entity() {
    let mut m = ResourceManager::new();
    let camera = CameraResource::new(68629, FX_ONE);
    let sun = SunResource(Vec4 { x: 0, y: FX_ONE, z: 0, w: FX_ONE });
    let d = DrawDescriptor::default();
    let a = DrawComponent::load(&mut m, &d).unwrap();
    let b = DrawComponent::load(&mut m, &d).unwrap();
    let entities = vec![
        (TransformComponent::from_position(0, 0, 3 * FX_ONE), a),
        (TransformComponent::from_position(FX_ONE, 0, 4 * FX_ONE), b),
    ];
    let plan = build_frame(&camera, &sun, &entities, &m);
    assert_eq!(plan.draws.len(), 2);
    assert_eq!(plan.depth_test, DepthTest::IfLess);
    assert_eq!(plan.light_pos, sun.0);
    // the cube has no index buffer
    assert!(!plan.draws[0].indexed);
    assert_eq!(plan.draws[0].mesh, entities[0].1.mesh);
    // per-entity matrices differ, the camera matrix is shared
    assert_ne!(plan.draws[0].mvp, plan.draws[1].mvp);
    assert_eq!(
        plan.draws[0].mvp,
        camera.transform_model(&entities[0].0)
    );
}

#[test]
fn indexed_meshes_request_indexed_draws() {
    let mut m = ResourceManager::new();
    let camera = CameraResource::new(68629, FX_ONE);
    let sun = SunResource(Vec4 { x: 0, y: 0, z: 0, w: FX_ONE });
    let d = DrawDescriptor {
        mesh: rendercore::resource_manager::MeshType::Internal(
            rendercore::resource_manager::InternalMesh::Square,
        ),
        shader: rendercore::resource_manager::ShaderType::Internal,
        texture: rendercore::resource_manager::TextureType::Internal(
            rendercore::resource_manager::InternalTexture::Crate,
        ),
    };
    let dc = DrawComponent::load(&mut m, &d).unwrap();
    let entities = vec![(TransformComponent::new(), dc)];
    let plan = build_frame(&camera, &sun, &entities, &m);
    assert!(plan.draws[0].indexed);
}
