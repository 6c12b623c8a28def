use shader_quad::geometry::{quad_index_list, quad_vertex_bytes, quad_vertices};
use shader_quad::layer::{pack, records_of, CustomShaderQuad, CustomShaderQuadWithHandle};
use shader_quad::layout::{
    describe_pipeline, BlendComponent, BlendFactor, BlendOperation, FrontFace, PrimitiveTopology,
    StepMode, VertexAttribute, VertexFormat,
};
use shader_quad::primitive::Float;
use shader_quad::shader::{Handle, ShaderContent};
use shader_quad::uniforms::{identity_transformation, Uniforms};
use shader_quad::wire::memory_image;

fn num(value: f32) -> Float {
    Float::from_bits(value.to_bits())
}

fn sample(seed: u32) -> CustomShaderQuadWithHandle {
    let base = seed as f32;
    CustomShaderQuadWithHandle {
        position: [num(base + 0.5), num(base + 1.5)],
        size: [num(base + 2.5), num(base + 3.5)],
        color: [num(0.125), num(0.25), num(0.5), num(1.0)],
        mouse_position: [num(base + 4.5), num(base + 5.5)],
        mouse_click: seed % 8,
        time: num(base * 0.25),
        frame: seed + 100,
        handle: Handle::from(ShaderContent::Memory("shader")),
    }
}

fn expected_bytes(quad: &CustomShaderQuadWithHandle) -> Vec<u8> {
    let mut bytes: Vec<u8> = Vec::new();
    for value in [quad.position[0], quad.position[1], quad.size[0], quad.size[1]] {
        bytes.extend_from_slice(&f32::from_bits(value.to_bits()).to_ne_bytes());
    }
    for value in quad.color {
        bytes.extend_from_slice(&f32::from_bits(value.to_bits()).to_ne_bytes());
    }
    for value in quad.mouse_position {
        bytes.extend_from_slice(&f32::from_bits(value.to_bits()).to_ne_bytes());
    }
    bytes.extend_from_slice(&quad.mouse_click.to_ne_bytes());
    bytes.extend_from_slice(&f32::from_bits(quad.time.to_bits()).to_ne_bytes());
    bytes.extend_from_slice(&quad.frame.to_ne_bytes());
    bytes
}

#[test]
fn record_keeps_every_field_but_the_shader() {
    let quad = sample(3);
    let record = CustomShaderQuad::from(&quad);
    assert_eq!(record.position, quad.position);
    assert_eq!(record.size, quad.size);
    assert_eq!(record.color, quad.color);
    assert_eq!(record.mouse_position, quad.mouse_position);
    assert_eq!(record.mouse_click, 3);
    assert_eq!(record.time, quad.time);
    assert_eq!(record.frame, 103);
}

#[test]
fn words_of_a_record_in_order() {
    let record = CustomShaderQuad::from(&sample(1));
    let mut words: Vec<u32> = vec![7];
    record.append_words(&mut words);
    assert_eq!(
        words,
        vec![
            7,
            1.5f32.to_bits(),
            2.5f32.to_bits(),
            3.5f32.to_bits(),
            4.5f32.to_bits(),
            0.125f32.to_bits(),
            0.25f32.to_bits(),
            0.5f32.to_bits(),
            1.0f32.to_bits(),
            5.5f32.to_bits(),
            6.5f32.to_bits(),
            1,
            0.25f32.to_bits(),
            101,
        ]
    );
}

#[test]
fn words_lie_in_memory_byte_by_byte() {
    let bytes = memory_image(&[0x0403_0201, 0xdead_beef]);
    let mut expected: Vec<u8> = Vec::new();
    expected.extend_from_slice(&0x0403_0201u32.to_ne_bytes());
    expected.extend_from_slice(&0xdead_beefu32.to_ne_bytes());
    assert_eq!(bytes, expected);
    let little = vec![1u8, 2, 3, 4, 0xef, 0xbe, 0xad, 0xde];
    let big = vec![4u8, 3, 2, 1, 0xde, 0xad, 0xbe, 0xef];
    assert!(bytes == little || bytes == big);
    assert_eq!(memory_image(&[]), Vec::<u8>::new());
}

#[test]
fn packed_record_is_fifty_two_bytes() {
    let quad = sample(2);
    let bytes = pack(&[CustomShaderQuad::from(&quad)]);
    assert_eq!(bytes.len(), 52);
    assert_eq!(bytes, expected_bytes(&quad));
}

#[test]
fn packing_keeps_the_order_of_the_records() {
    let quads = vec![sample(1), sample(2), sample(3)];
    let records = records_of(&quads);
    assert_eq!(records.len(), 3);
    let bytes = pack(&records);
    assert_eq!(bytes.len(), 3 * 52);
    let mut expected: Vec<u8> = Vec::new();
    for quad in &quads {
        expected.extend_from_slice(&expected_bytes(quad));
    }
    assert_eq!(bytes, expected);
    let mut parts = pack(&records[..1]);
    parts.extend_from_slice(&pack(&records[1..]));
    assert_eq!(parts, bytes);
    assert_eq!(pack(&[]), Vec::<u8>::new());
}

#[test]
fn clone_of_a_quad_is_the_quad() {
    let quad = sample(5);
    let copy = quad.clone();
    assert_eq!(expected_bytes(&copy), expected_bytes(&quad));
    assert_eq!(copy.handle.id(), quad.handle.id());
}

#[test]
fn unit_quad() {
    let vertices = quad_vertices();
    let corners: Vec<[f32; 2]> = vertices
        .iter()
        .map(|v| [f32::from_bits(v._position[0].to_bits()), f32::from_bits(v._position[1].to_bits())])
        .collect();
    assert_eq!(corners, vec![[0.0, 0.0], [1.0, 0.0], [1.0, 1.0], [0.0, 1.0]]);
    assert_eq!(quad_index_list(), [0, 1, 2, 0, 2, 3]);
    let mut expected: Vec<u8> = Vec::new();
    for corner in corners {
        expected.extend_from_slice(&corner[0].to_ne_bytes());
        expected.extend_from_slice(&corner[1].to_ne_bytes());
    }
    assert_eq!(quad_vertex_bytes(), expected);
}

#[test]
fn uniform_block() {
    let mut matrix = identity_transformation();
    matrix[12] = num(-1.0);
    matrix[13] = num(1.0);
    matrix[0] = num(0.01);
    let bytes = Uniforms::new(matrix, num(2.0)).bytes();
    assert_eq!(bytes.len(), 80);
    let mut expected: Vec<u8> = Vec::new();
    for value in [
        0.01f32, 0.0, 0.0, 0.0, 0.0, 1.0, 0.0, 0.0, 0.0, 0.0, 1.0, 0.0, -1.0, 1.0, 0.0, 1.0, 2.0,
        0.0, 0.0, 0.0,
    ] {
        expected.extend_from_slice(&value.to_ne_bytes());
    }
    assert_eq!(bytes, expected);
}

#[test]
fn default_uniforms_change_nothing() {
    let bytes = Uniforms::default().bytes();
    let mut expected: Vec<u8> = Vec::new();
    for index in 0..16 {
        let value: f32 = if index % 5 == 0 { 1.0 } else { 0.0 };
        expected.extend_from_slice(&value.to_ne_bytes());
    }
    for value in [1.0f32, 0.0, 0.0, 0.0] {
        expected.extend_from_slice(&value.to_ne_bytes());
    }
    assert_eq!(bytes, expected);
}

#[test]
fn layout_of_the_vertex_buffers() {
    let description = describe_pipeline(Some(9));
    assert_eq!(description.shader, Some(9));
    assert_eq!(description.vertex_entry_point, "vs_main");
    assert_eq!(description.fragment_entry_point, "fs_main");
    assert_eq!(description.vertices.array_stride, 8);
    assert_eq!(description.vertices.step_mode, StepMode::Vertex);
    assert_eq!(
        description.vertices.attributes,
        vec![VertexAttribute { shader_location: 0, format: VertexFormat::Float32x2, offset: 0 }]
    );
    assert_eq!(description.instances.array_stride, 52);
    assert_eq!(description.instances.step_mode, StepMode::Instance);
    assert_eq!(
        description.instances.attributes,
        vec![
            VertexAttribute { shader_location: 1, format: VertexFormat::Float32x2, offset: 0 },
            VertexAttribute { shader_location: 2, format: VertexFormat::Float32x2, offset: 8 },
            VertexAttribute { shader_location: 3, format: VertexFormat::Float32x4, offset: 16 },
            VertexAttribute { shader_location: 4, format: VertexFormat::Float32x2, offset: 32 },
            VertexAttribute { shader_location: 5, format: VertexFormat::Uint32, offset: 40 },
            VertexAttribute { shader_location: 6, format: VertexFormat::Float32, offset: 44 },
            VertexAttribute { shader_location: 7, format: VertexFormat::Uint32, offset: 48 },
        ]
    );
    assert_eq!(VertexFormat::Float32x2.size(), 8);
    assert_eq!(VertexFormat::Float32x4.size(), 16);
    assert_eq!(VertexFormat::Float32.size(), 4);
    assert_eq!(VertexFormat::Uint32.size(), 4);
    assert_eq!(
        description.fixed.color_blend,
        BlendComponent {
            src_factor: BlendFactor::SrcAlpha,
            dst_factor: BlendFactor::OneMinusSrcAlpha,
            operation: BlendOperation::Add,
        }
    );
    assert_eq!(
        description.fixed.alpha_blend,
        BlendComponent {
            src_factor: BlendFactor::One,
            dst_factor: BlendFactor::OneMinusSrcAlpha,
            operation: BlendOperation::Add,
        }
    );
    assert_eq!(description.fixed.topology, PrimitiveTopology::TriangleList);
    assert_eq!(description.fixed.front_face, FrontFace::Cw);
    assert_eq!(description.fixed.sample_count, 1);
    assert_eq!(description.fixed.sample_mask, !0);
    let built_in = describe_pipeline(None);
    assert_eq!(built_in.fixed, description.fixed);
    assert_eq!(built_in.shader, None);
    assert_eq!(built_in.instances.attributes, description.instances.attributes);
}
