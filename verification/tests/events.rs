use chaos_vk::camera::{Camera, CameraKey, ProjectionType};
use chaos_vk::events::{
    Action, EventHandler, MouseButton, Reaction, WindowEvent, WindowMode, KEY_ESCAPE,
    WINDOWED_ORIGIN, WINDOWED_SIZE,
};
use chaos_vk::swapchain::Extent;

const KEY_W: u64 = 87;
const KEY_F11: u64 = chaos_vk::events::KEY_F11;

#[test]
fn new_handler_has_seen_nothing() {
    let handler = EventHandler::new();
    assert!(!handler.key_just_pressed(KEY_W));
    assert!(!handler.key_just_released(KEY_W));
    assert!(!handler.lmb());
    assert!(!handler.rmb());
    assert_eq!(handler.extent(), Extent { width: 1, height: 1 });
}

#[test]
fn key_is_just_pressed_until_the_next_frame() {
    let mut handler = EventHandler::new();
    handler.on_key_press(KEY_F11);
    assert!(handler.key_just_pressed(KEY_F11));
    assert!(!handler.key_just_pressed(KEY_W));
    handler.update();
    assert!(!handler.key_just_pressed(KEY_F11));
    handler.on_key_press(KEY_F11);
    assert!(!handler.key_just_pressed(KEY_F11));
    handler.on_key_release(KEY_F11);
    assert!(handler.key_just_released(KEY_F11));
    assert!(!handler.key_just_pressed(KEY_F11));
    handler.update();
    assert!(!handler.key_just_released(KEY_F11));
    handler.on_key_press(KEY_F11);
    assert!(handler.key_just_pressed(KEY_F11));
    assert!(!handler.key_just_released(KEY_F11));
}

#[test]
fn release_without_press_counts_as_released() {
    let mut handler = EventHandler::new();
    handler.on_key_release(KEY_W);
    assert!(handler.key_just_released(KEY_W));
    handler.on_key_press(KEY_W);
    assert!(!handler.key_just_released(KEY_W));
    assert!(handler.key_just_pressed(KEY_W));
}

#[test]
fn mouse_buttons_follow_press_and_release() {
    let mut handler = EventHandler::new();
    handler.on_lmb_press();
    assert!(handler.lmb() && !handler.rmb());
    handler.on_rmb_press();
    handler.on_lmb_release();
    assert!(!handler.lmb() && handler.rmb());
    handler.on_rmb_release();
    assert!(!handler.lmb() && !handler.rmb());
}

#[test]
fn window_size_becomes_the_extent() {
    let mut handler = EventHandler::new();
    handler.on_window_resize(1200, 900);
    assert_eq!(handler.extent(), Extent { width: 1200, height: 900 });
    handler.on_window_resize(-5, 900);
    assert_eq!(handler.extent(), Extent { width: 0, height: 900 });
    handler.on_window_resize(0, i32::MIN);
    assert_eq!(handler.extent(), Extent { width: 0, height: 0 });
    handler.on_window_resize(i32::MAX, 1);
    assert_eq!(handler.extent(), Extent { width: 2147483647, height: 1 });
}

#[test]
fn dispatch_routes_events() {
    let mut handler = EventHandler::new();
    assert_eq!(KEY_ESCAPE, 256);
    assert_eq!(
        handler.dispatch(WindowEvent::Key { key: KEY_ESCAPE, action: Action::Press }),
        Reaction::Close
    );
    assert!(!handler.key_just_pressed(KEY_ESCAPE));
    assert_eq!(
        handler.dispatch(WindowEvent::Key { key: KEY_W, action: Action::Press }),
        Reaction::Nothing
    );
    assert!(handler.key_just_pressed(KEY_W));
    assert_eq!(
        handler.dispatch(WindowEvent::Key { key: KEY_W, action: Action::Repeat }),
        Reaction::Nothing
    );
    assert_eq!(
        handler.dispatch(WindowEvent::Key { key: KEY_ESCAPE, action: Action::Release }),
        Reaction::Nothing
    );
    assert!(handler.key_just_released(KEY_ESCAPE));
    assert_eq!(
        handler.dispatch(WindowEvent::MouseButton { button: MouseButton::Left, action: Action::Press }),
        Reaction::Nothing
    );
    assert!(handler.lmb());
    handler.dispatch(WindowEvent::MouseButton { button: MouseButton::Right, action: Action::Press });
    handler.dispatch(WindowEvent::MouseButton { button: MouseButton::Left, action: Action::Release });
    handler.dispatch(WindowEvent::MouseButton { button: MouseButton::Other, action: Action::Press });
    handler.dispatch(WindowEvent::MouseButton { button: MouseButton::Right, action: Action::Repeat });
    assert!(!handler.lmb() && handler.rmb());
    assert_eq!(
        handler.dispatch(WindowEvent::FramebufferSize { width: 640, height: 480 }),
        Reaction::Resized
    );
    assert_eq!(handler.extent(), Extent { width: 640, height: 480 });
    assert_eq!(handler.dispatch(WindowEvent::Other), Reaction::Nothing);
}

#[test]
fn f11_toggles_full_screen_once_per_press() {
    let mut handler = EventHandler::new();
    let mut fullscreen = false;
    assert_eq!(handler.set_fullscreen(&mut fullscreen), None);
    assert!(!fullscreen);
    handler.on_key_press(KEY_F11);
    assert_eq!(handler.set_fullscreen(&mut fullscreen), Some(WindowMode::FullScreen));
    assert!(fullscreen);
    handler.update();
    assert_eq!(handler.set_fullscreen(&mut fullscreen), None);
    assert!(fullscreen);
    handler.on_key_release(KEY_F11);
    handler.update();
    handler.on_key_press(KEY_F11);
    assert_eq!(
        handler.set_fullscreen(&mut fullscreen),
        Some(WindowMode::Windowed { x: 200, y: 200, width: 800, height: 800 })
    );
    assert_eq!((WINDOWED_ORIGIN, WINDOWED_SIZE), (200, 800));
    assert!(!fullscreen);
    assert_eq!(KEY_F11, 300);
}

#[test]
fn camera_keymap_follows_the_keys() {
    let mut camera = Camera::new();
    assert_eq!(camera.keymap, [false; 7]);
    assert_eq!(camera.projection_type, ProjectionType::Perspective);
    camera.input(CameraKey::W, true);
    camera.input(CameraKey::LShift, true);
    camera.input(CameraKey::Space, true);
    camera.input(CameraKey::Space, false);
    assert_eq!(camera.keymap, [true, false, false, false, false, false, true]);
    assert!(camera.key_held(CameraKey::W));
    assert!(!camera.key_held(CameraKey::A));
    let slots: Vec<usize> = [
        CameraKey::W,
        CameraKey::A,
        CameraKey::S,
        CameraKey::D,
        CameraKey::Space,
        CameraKey::LControl,
        CameraKey::LShift,
    ]
    .iter()
    .map(|key| key.index())
    .collect();
    assert_eq!(slots, vec![0, 1, 2, 3, 4, 5, 6]);
}

#[test]
fn camera_switches_projection_and_sees_the_mouse_once() {
    let mut camera = Camera::new();
    camera.set_projection(ProjectionType::Oblique);
    assert_eq!(camera.projection_type, ProjectionType::Oblique);
    camera.set_projection(ProjectionType::Isometric);
    assert_eq!(camera.projection_type, ProjectionType::Isometric);
    assert!(camera.mouse_callback());
    assert!(!camera.mouse_callback());
    assert!(!camera.first_mouse);
}
