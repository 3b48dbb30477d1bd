use heatwave::gpu::SurfaceFormat;
use heatwave::rendering::BlendSetting;
use heatwave::rendering::ColorTargetConfig;
use heatwave::rendering::CullFace;
use heatwave::rendering::DepthCompare;
use heatwave::rendering::DepthFormat;
use heatwave::rendering::PolygonFill;
use heatwave::rendering::SimpleComputePipelineDescriptor;
use heatwave::rendering::SimpleRenderPipelineDescriptor;
use heatwave::rendering::Topology;
use heatwave::rendering::WindingOrder;
use heatwave::rendering::COLOR_WRITES_ALL_BITS;

type TestDescriptor<'a> = SimpleRenderPipelineDescriptor<'a, String, u32, ()>;

fn surface_format() -> SurfaceFormat {
    SurfaceFormat {
        raw: wgpu::TextureFormat::Bgra8UnormSrgb,
        srgb: true,
    }
}

fn descriptor<'a>(vertex: &'a String, layout: Option<&'a u32>) -> TestDescriptor<'a> {
    SimpleRenderPipelineDescriptor {
        name: String::from("test pipeline"),
        vertex,
        fragment: None,
        vertex_entry_point: String::from("vs_main"),
        fragment_entry_point: None,
        vertex_buffer_format: Vec::new(),
        layout,
        fragment_targets: Vec::new(),
    }
}

#[test]
fn missing_layout_inherits_the_shared_layout() {
    let vertex = String::from("vertex module");
    let shared: u32 = 7;
    let resolved = descriptor(&vertex, None).resolve(&shared, surface_format());
    assert!(std::ptr::eq(resolved.layout, &shared));
}

#[test]
fn explicit_layout_is_kept() {
    let vertex = String::from("vertex module");
    let shared: u32 = 7;
    let own: u32 = 13;
    let resolved = descriptor(&vertex, Some(&own)).resolve(&shared, surface_format());
    assert!(std::ptr::eq(resolved.layout, &own));
    assert_eq!(*resolved.layout, 13);
}

#[test]
fn empty_fragment_targets_synthesize_exactly_one() {
    let vertex = String::from("vertex module");
    let fragment = String::from("fragment module");
    let shared: u32 = 7;
    let mut desc = descriptor(&vertex, None);
    desc.fragment = Some(&fragment);
    desc.fragment_entry_point = Some(String::from("fs_main"));
    let resolved = desc.resolve(&shared, surface_format());

    let frag = resolved.fragment.expect("fragment stage was supplied");
    assert_eq!(frag.entry_point, "fs_main");
    assert_eq!(frag.targets.len(), 1);
    let target = &frag.targets[0];
    assert_eq!(target.format.raw, wgpu::TextureFormat::Bgra8UnormSrgb);
    assert!(matches!(target.blend, BlendSetting::Replace));
    assert_eq!(target.write_mask_bits, COLOR_WRITES_ALL_BITS);
    assert_eq!(target.write_mask_bits, wgpu::ColorWrites::ALL.bits());
}

#[test]
fn supplied_fragment_targets_pass_through_unchanged() {
    let vertex = String::from("vertex module");
    let fragment = String::from("fragment module");
    let shared: u32 = 7;
    let own_target = ColorTargetConfig {
        format: SurfaceFormat {
            raw: wgpu::TextureFormat::Rgba8Unorm,
            srgb: false,
        },
        blend: BlendSetting::Disabled,
        write_mask_bits: 0x3,
    };
    let mut desc = descriptor(&vertex, None);
    desc.fragment = Some(&fragment);
    desc.fragment_entry_point = Some(String::from("fs_main"));
    desc.fragment_targets = vec![own_target];
    let resolved = desc.resolve(&shared, surface_format());

    let frag = resolved.fragment.expect("fragment stage was supplied");
    assert_eq!(frag.targets.len(), 1);
    assert_eq!(frag.targets[0].format.raw, wgpu::TextureFormat::Rgba8Unorm);
    assert!(matches!(frag.targets[0].blend, BlendSetting::Disabled));
    assert_eq!(frag.targets[0].write_mask_bits, 0x3);
}

#[test]
fn no_fragment_stage_stays_absent() {
    let vertex = String::from("vertex module");
    let shared: u32 = 7;
    let resolved = descriptor(&vertex, None).resolve(&shared, surface_format());
    assert!(resolved.fragment.is_none());
    assert_eq!(resolved.name, "test pipeline");
    assert_eq!(resolved.vertex_entry_point, "vs_main");
}

#[test]
fn fixed_function_defaults_are_applied() {
    let vertex = String::from("vertex module");
    let shared: u32 = 7;
    let resolved = descriptor(&vertex, None).resolve(&shared, surface_format());

    assert_eq!(resolved.primitive.topology, Topology::TriangleList);
    assert_eq!(resolved.primitive.strip_index, None);
    assert_eq!(resolved.primitive.front_face, WindingOrder::CounterClockwise);
    assert_eq!(resolved.primitive.cull, Some(CullFace::Back));
    assert!(!resolved.primitive.unclipped_depth);
    assert_eq!(resolved.primitive.polygon_mode, PolygonFill::Fill);
    assert!(!resolved.primitive.conservative);

    assert_eq!(resolved.depth.format, DepthFormat::Depth32Float);
    assert!(resolved.depth.write_enabled);
    assert_eq!(resolved.depth.compare, DepthCompare::Less);

    assert_eq!(resolved.multisample.count, 8);
    assert_eq!(resolved.multisample.mask, u64::MAX);
    assert!(!resolved.multisample.alpha_to_coverage);
}

#[test]
fn compute_pipeline_defaults_only_the_layout() {
    let module = String::from("compute module");
    let shared: u32 = 7;
    let desc: SimpleComputePipelineDescriptor<'_, String, u32> = SimpleComputePipelineDescriptor {
        name: String::from("test compute"),
        module: &module,
        entry_point: String::from("cs_main"),
        layout: None,
    };
    let resolved = desc.resolve(&shared);
    assert!(std::ptr::eq(resolved.layout, &shared));
    assert_eq!(resolved.name, "test compute");
    assert_eq!(resolved.entry_point, "cs_main");

    let own: u32 = 99;
    let desc: SimpleComputePipelineDescriptor<'_, String, u32> = SimpleComputePipelineDescriptor {
        name: String::from("explicit"),
        module: &module,
        entry_point: String::from("cs_main"),
        layout: Some(&own),
    };
    let resolved = desc.resolve(&shared);
    assert!(std::ptr::eq(resolved.layout, &own));
}
