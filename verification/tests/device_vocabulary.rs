use instanced_mesh::pipeline::{PipelineState, TextureFormat};

fn pipeline() -> PipelineState {
    PipelineState::instanced_mesh(TextureFormat::Bgra8UnormSrgb, vec![1], vec![2])
}

#[test]
fn replace_blending_is_the_device_constant() {
    let p = pipeline();
    let replace = wgpu::BlendDescriptor::REPLACE;
    for blend in [p.color_states[0].color_blend, p.color_states[0].alpha_blend] {
        assert_eq!(format!("{:?}", blend.src_factor), format!("{:?}", replace.src_factor));
        assert_eq!(format!("{:?}", blend.dst_factor), format!("{:?}", replace.dst_factor));
        assert_eq!(format!("{:?}", blend.operation), format!("{:?}", replace.operation));
    }
}

#[test]
fn ignored_stencil_is_the_device_constant() {
    let p = pipeline();
    let depth_stencil = p.depth_stencil_state.unwrap();
    let ignore = wgpu::StencilStateFaceDescriptor::IGNORE;
    for face in [depth_stencil.stencil_front, depth_stencil.stencil_back] {
        assert_eq!(format!("{:?}", face.compare), format!("{:?}", ignore.compare));
        assert_eq!(format!("{:?}", face.fail_op), format!("{:?}", ignore.fail_op));
        assert_eq!(format!("{:?}", face.depth_fail_op), format!("{:?}", ignore.depth_fail_op));
        assert_eq!(format!("{:?}", face.pass_op), format!("{:?}", ignore.pass_op));
    }
}

#[test]
fn fixed_state_uses_device_names() {
    let p = pipeline();
    let rasterization = p.rasterization_state.unwrap();
    let depth_stencil = p.depth_stencil_state.unwrap();
    assert_eq!(format!("{:?}", rasterization.front_face), format!("{:?}", wgpu::FrontFace::Ccw));
    assert_eq!(format!("{:?}", rasterization.cull_mode), format!("{:?}", wgpu::CullMode::Back));
    assert_eq!(
        format!("{:?}", p.primitive_topology),
        format!("{:?}", wgpu::PrimitiveTopology::TriangleList)
    );
    assert_eq!(format!("{:?}", p.index_format), format!("{:?}", wgpu::IndexFormat::Uint32));
    assert_eq!(
        format!("{:?}", depth_stencil.format),
        format!("{:?}", wgpu::TextureFormat::Depth32Float)
    );
    assert_eq!(
        format!("{:?}", depth_stencil.depth_compare),
        format!("{:?}", wgpu::CompareFunction::Less)
    );
    assert_eq!(
        format!("{:?}", p.color_states[0].format),
        format!("{:?}", wgpu::TextureFormat::Bgra8UnormSrgb)
    );
    let formats: Vec<String> = p
        .vertex_buffers
        .iter()
        .flat_map(|layout| layout.attributes.iter())
        .map(|attribute| format!("{:?}", attribute.format))
        .collect();
    assert_eq!(
        formats,
        vec![
            format!("{:?}", wgpu::VertexFormat::Float4),
            format!("{:?}", wgpu::VertexFormat::Float2),
            format!("{:?}", wgpu::VertexFormat::Float3),
        ]
    );
}

#[test]
fn every_color_channel_is_written() {
    let mask = pipeline().color_states[0].write_mask;
    let mut bits = wgpu::ColorWrite::empty();
    if mask.red {
        bits |= wgpu::ColorWrite::RED;
    }
    if mask.green {
        bits |= wgpu::ColorWrite::GREEN;
    }
    if mask.blue {
        bits |= wgpu::ColorWrite::BLUE;
    }
    if mask.alpha {
        bits |= wgpu::ColorWrite::ALPHA;
    }
    assert_eq!(bits, wgpu::ColorWrite::ALL);
}
