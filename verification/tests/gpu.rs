use heatwave::gpu::PresentPolicy;
use heatwave::gpu::SurfaceFormat;
use heatwave::gpu::SurfaceState;
use heatwave::gpu::select_alpha_mode;
use heatwave::gpu::select_surface_format;
use heatwave::gpu::RENDER_ATTACHMENT_USAGE_BITS;
use heatwave::BUFFER_USAGES_ALL_BITS;

fn fmt(raw: wgpu::TextureFormat) -> SurfaceFormat {
    SurfaceFormat { raw, srgb: raw.is_srgb() }
}

#[test]
fn first_srgb_format_is_preferred() {
    let formats = vec![
        fmt(wgpu::TextureFormat::Bgra8Unorm),
        fmt(wgpu::TextureFormat::Bgra8UnormSrgb),
        fmt(wgpu::TextureFormat::Rgba8UnormSrgb),
    ];
    let selected = select_surface_format(&formats).expect("formats were supplied");
    assert_eq!(selected.raw, wgpu::TextureFormat::Bgra8UnormSrgb);
    assert!(selected.srgb);
}

#[test]
fn falls_back_to_first_supported_format() {
    let formats = vec![
        fmt(wgpu::TextureFormat::Bgra8Unorm),
        fmt(wgpu::TextureFormat::Rgba8Unorm),
    ];
    let selected = select_surface_format(&formats).expect("formats were supplied");
    assert_eq!(selected.raw, wgpu::TextureFormat::Bgra8Unorm);
    assert!(!selected.srgb);
}

#[test]
fn no_supported_format_selects_nothing() {
    let formats: Vec<SurfaceFormat> = Vec::new();
    assert!(select_surface_format(&formats).is_none());
}

#[test]
fn buffer_usage_bits_match_the_backend() {
    assert_eq!(BUFFER_USAGES_ALL_BITS, wgpu::BufferUsages::all().bits());
}

#[test]
fn alpha_mode_takes_the_first_reported_option() {
    let modes = vec![
        wgpu::CompositeAlphaMode::PostMultiplied,
        wgpu::CompositeAlphaMode::Auto,
    ];
    assert_eq!(
        select_alpha_mode(&modes),
        Some(wgpu::CompositeAlphaMode::PostMultiplied)
    );
    assert_eq!(select_alpha_mode(&Vec::new()), None);
}

#[test]
fn fresh_surface_state_fixes_vsync_and_latency() {
    let state = SurfaceState::new(
        fmt(wgpu::TextureFormat::Bgra8UnormSrgb),
        wgpu::CompositeAlphaMode::Auto,
        800,
        600,
    );
    assert_eq!(state.width, 800);
    assert_eq!(state.height, 600);
    assert_eq!(state.frame_latency, 2);
    assert!(matches!(state.present, PresentPolicy::Vsync));
    assert_eq!(state.usage_bits, RENDER_ATTACHMENT_USAGE_BITS);
    assert_eq!(
        state.usage_bits,
        wgpu::TextureUsages::RENDER_ATTACHMENT.bits()
    );
}

#[test]
fn zero_area_resize_is_rejected_without_mutating_state() {
    let mut state = SurfaceState::new(
        fmt(wgpu::TextureFormat::Bgra8UnormSrgb),
        wgpu::CompositeAlphaMode::Auto,
        800,
        600,
    );
    let rejected = state.resize(0, 0);
    assert!(rejected.is_err());
    assert_eq!(state.width, 800);
    assert_eq!(state.height, 600);

    let accepted = state.resize(1024, 768);
    assert!(accepted.is_ok());
    assert_eq!(state.width, 1024);
    assert_eq!(state.height, 768);
}

#[test]
fn one_zero_dimension_is_enough_to_reject() {
    let mut state = SurfaceState::new(
        fmt(wgpu::TextureFormat::Rgba8UnormSrgb),
        wgpu::CompositeAlphaMode::Auto,
        320,
        240,
    );
    let err = state.resize(0, 240).unwrap_err();
    assert_eq!(err.width, 0);
    assert_eq!(err.height, 240);
    assert!(state.resize(320, 0).is_err());
    assert_eq!(state.width, 320);
    assert_eq!(state.height, 240);
}
