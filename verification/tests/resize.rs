use gfx_toybox::context::State;
use gfx_toybox::event::{Key, Signal};
use gfx_toybox::surface::{Size, SurfaceCapabilities};
use wgpu::{CompositeAlphaMode, PresentMode, TextureFormat};

fn state_at(width: u32, height: u32) -> State {
    let caps = SurfaceCapabilities {
        formats: vec![TextureFormat::Bgra8UnormSrgb],
        present_modes: vec![PresentMode::Fifo],
        alpha_modes: vec![CompositeAlphaMode::Opaque],
    };
    State::new(3, Size::new(width, height), &caps)
}

#[test]
fn resize_with_area_updates_size_and_configuration() {
    let mut state = state_at(640, 480);
    let before = state.config();
    let applied = state.resize(Size::new(800, 600));
    let config = state.config();
    assert_eq!(applied, Some(config));
    assert_eq!(config.width, 800);
    assert_eq!(config.height, 600);
    assert_eq!(state.size(), Size::new(800, 600));
    assert_eq!(config.format, before.format);
    assert_eq!(config.present_mode, before.present_mode);
    assert_eq!(config.alpha_mode, before.alpha_mode);
    assert_eq!(config.frame_latency, 2);
    assert_eq!(state.window(), 3);
}

#[test]
fn resize_to_extremes() {
    let mut state = state_at(640, 480);
    assert!(state.resize(Size::new(1, 1)).is_some());
    assert_eq!(state.size(), Size::new(1, 1));
    assert!(state.resize(Size::new(u32::MAX, u32::MAX)).is_some());
    assert_eq!(state.config().width, u32::MAX);
    assert_eq!(state.config().height, u32::MAX);
}

#[test]
fn resize_without_area_is_ignored() {
    let mut state = state_at(640, 480);
    let before = state.config();
    assert_eq!(state.resize(Size::new(0, 600)), None);
    assert_eq!(state.config(), before);
    assert_eq!(state.size(), Size::new(640, 480));
    assert_eq!(state.resize(Size::new(800, 0)), None);
    assert_eq!(state.config(), before);
    assert_eq!(state.resize(Size::new(0, 0)), None);
    assert_eq!(state.config(), before);
    assert_eq!(state.size(), Size::new(640, 480));
}

#[test]
fn resize_without_area_after_valid_resize_keeps_the_valid_one() {
    let mut state = state_at(640, 480);
    state.resize(Size::new(1024, 768));
    state.resize(Size::new(0, 0));
    assert_eq!(state.config().width, 1024);
    assert_eq!(state.config().height, 768);
    assert_eq!(state.size(), Size::new(1024, 768));
}

#[test]
fn input_declines_every_signal() {
    let mut state = state_at(640, 480);
    let before = state.config();
    assert!(!state.input(&Signal::Resized(Size::new(10, 10))));
    assert!(!state.input(&Signal::RedrawRequested));
    assert!(!state.input(&Signal::CloseRequested));
    assert!(!state.input(&Signal::KeyboardInput { pressed: true, key: Key::Escape }));
    assert!(!state.input(&Signal::Other));
    assert_eq!(state.config(), before);
    assert_eq!(state.size(), Size::new(640, 480));
}

#[test]
fn update_changes_nothing() {
    let mut state = state_at(640, 480);
    let before = state.config();
    state.update();
    assert_eq!(state.config(), before);
    assert_eq!(state.size(), Size::new(640, 480));
    assert_eq!(state.window(), 3);
}
