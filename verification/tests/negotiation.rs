use gfx_toybox::context::State;
use gfx_toybox::format::{preferred_index, select_format};
use gfx_toybox::surface::{Size, SurfaceCapabilities, MAX_FRAME_LATENCY};
use wgpu::{CompositeAlphaMode, PresentMode, TextureFormat};

fn caps(formats: Vec<TextureFormat>) -> SurfaceCapabilities {
    SurfaceCapabilities {
        formats,
        present_modes: vec![PresentMode::Mailbox, PresentMode::Fifo],
        alpha_modes: vec![CompositeAlphaMode::PreMultiplied, CompositeAlphaMode::Opaque],
    }
}

#[test]
fn preferred_index_is_first_set_flag() {
    assert_eq!(preferred_index(&vec![false, true, true]), 1);
    assert_eq!(preferred_index(&vec![true, false]), 0);
    assert_eq!(preferred_index(&vec![false, false, false, true]), 3);
}

#[test]
fn preferred_index_falls_back_to_zero() {
    assert_eq!(preferred_index(&vec![false]), 0);
    assert_eq!(preferred_index(&vec![false, false, false]), 0);
}

#[test]
fn select_format_prefers_first_gamma_corrected() {
    let formats = vec![
        TextureFormat::Bgra8Unorm,
        TextureFormat::Rgba16Float,
        TextureFormat::Rgba8UnormSrgb,
        TextureFormat::Bgra8UnormSrgb,
    ];
    assert_eq!(select_format(&formats), TextureFormat::Rgba8UnormSrgb);
}

#[test]
fn select_format_takes_gamma_corrected_at_front() {
    let formats = vec![TextureFormat::Bgra8UnormSrgb, TextureFormat::Rgba8UnormSrgb];
    assert_eq!(select_format(&formats), TextureFormat::Bgra8UnormSrgb);
}

#[test]
fn select_format_takes_gamma_corrected_at_back() {
    let formats = vec![
        TextureFormat::Rgba8Unorm,
        TextureFormat::Bgra8Unorm,
        TextureFormat::Rgb10a2Unorm,
        TextureFormat::Bc7RgbaUnormSrgb,
    ];
    assert_eq!(select_format(&formats), TextureFormat::Bc7RgbaUnormSrgb);
}

#[test]
fn select_format_falls_back_to_first() {
    let formats = vec![
        TextureFormat::Rgba16Float,
        TextureFormat::Bgra8Unorm,
        TextureFormat::Rgba8Unorm,
    ];
    assert_eq!(select_format(&formats), TextureFormat::Rgba16Float);
    assert_eq!(select_format(&vec![TextureFormat::Bgra8Unorm]), TextureFormat::Bgra8Unorm);
}

#[test]
fn select_format_is_repeatable() {
    let formats = vec![TextureFormat::Bgra8Unorm, TextureFormat::Bgra8UnormSrgb];
    assert_eq!(select_format(&formats), select_format(&formats));
}

#[test]
fn new_takes_size_and_first_modes() {
    let caps = caps(vec![TextureFormat::Bgra8Unorm, TextureFormat::Bgra8UnormSrgb]);
    let state = State::new(42, Size::new(1280, 720), &caps);
    let config = state.config();
    assert_eq!(state.window(), 42);
    assert_eq!(state.size(), Size { width: 1280, height: 720 });
    assert_eq!(config.format, TextureFormat::Bgra8UnormSrgb);
    assert_eq!(config.width, 1280);
    assert_eq!(config.height, 720);
    assert_eq!(config.present_mode, PresentMode::Mailbox);
    assert_eq!(config.alpha_mode, CompositeAlphaMode::PreMultiplied);
    assert_eq!(config.frame_latency, 2);
    assert_eq!(MAX_FRAME_LATENCY, 2);
}

#[test]
fn new_without_gamma_corrected_format_takes_first() {
    let caps = caps(vec![TextureFormat::Rgba8Unorm, TextureFormat::Bgra8Unorm]);
    let state = State::new(1, Size::new(1, 1), &caps);
    assert_eq!(state.config().format, TextureFormat::Rgba8Unorm);
}

#[test]
fn capabilities_are_usable_only_with_every_list_filled() {
    assert!(caps(vec![TextureFormat::Bgra8Unorm]).usable());
    assert!(!caps(vec![]).usable());
    let no_present = SurfaceCapabilities {
        formats: vec![TextureFormat::Bgra8Unorm],
        present_modes: vec![],
        alpha_modes: vec![CompositeAlphaMode::Opaque],
    };
    assert!(!no_present.usable());
    let no_alpha = SurfaceCapabilities {
        formats: vec![TextureFormat::Bgra8Unorm],
        present_modes: vec![PresentMode::Fifo],
        alpha_modes: vec![],
    };
    assert!(!no_alpha.usable());
}

#[test]
fn size_is_presentable_only_with_area() {
    assert!(Size::new(1, 1).is_presentable());
    assert!(Size::new(800, 600).is_presentable());
    assert!(!Size::new(0, 600).is_presentable());
    assert!(!Size::new(800, 0).is_presentable());
    assert!(!Size::new(0, 0).is_presentable());
}

#[test]
fn presentable_config_needs_area() {
    let caps = caps(vec![TextureFormat::Bgra8UnormSrgb]);
    let state = State::new(1, Size::new(320, 200), &caps);
    assert_eq!(state.presentable_config(), Some(state.config()));
    let minimized = State::new(1, Size::new(0, 200), &caps);
    assert_eq!(minimized.presentable_config(), None);
    assert_eq!(minimized.config().width, 0);
    assert_eq!(minimized.config().height, 200);
    let flat = State::new(1, Size::new(320, 0), &caps);
    assert_eq!(flat.presentable_config(), None);
}
