use shader_quad::batch::Batch;
use shader_quad::layer::{pack, records_of, CustomShaderQuadWithHandle};
use shader_quad::pipeline::{ConfigurationError, Frame, Pipeline, MAX_INSTANCES};
use shader_quad::primitive::{Float, Rectangle};
use shader_quad::shader::{Handle, ShaderContent};
use shader_quad::uniforms::{identity_transformation, Uniforms};

const SHADER_A: &str = "@fragment fn fs_main() -> @location(0) vec4<f32> { return vec4<f32>(1.0); }";
const SHADER_B: &str = "@fragment fn fs_main() -> @location(0) vec4<f32> { return vec4<f32>(0.5); }";
const SHADER_C: &str = "@fragment fn fs_main() -> @location(0) vec4<f32> { return vec4<f32>(0.0); }";

fn value(number: f32) -> Float {
    Float::from_bits(number.to_bits())
}

fn clip() -> Rectangle<u32> {
    Rectangle { x: 1, y: 2, width: 640, height: 480 }
}

fn instance(index: usize, code: &'static str) -> CustomShaderQuadWithHandle {
    let base = index as f32;
    CustomShaderQuadWithHandle {
        position: [value(base), value(base + 1.0)],
        size: [value(10.0), value(20.0)],
        color: [value(0.0), value(0.0), value(0.0), value(1.0)],
        mouse_position: [value(3.0), value(4.0)],
        mouse_click: (index % 8) as u32,
        time: value(0.5),
        frame: index as u32,
        handle: Handle::from(ShaderContent::Memory(code)),
    }
}

fn frame_of(codes: &[&'static str]) -> Vec<CustomShaderQuadWithHandle> {
    codes.iter().enumerate().map(|(index, code)| instance(index, code)).collect()
}

fn id_of(code: &'static str) -> u64 {
    Handle::from(ShaderContent::Memory(code)).id()
}

fn draw(pipeline: &mut Pipeline, instances: &[CustomShaderQuadWithHandle]) -> Frame {
    pipeline.draw(instances, identity_transformation(), value(1.0), clip())
}

fn plan(pipeline: &mut Pipeline, instances: &[CustomShaderQuadWithHandle]) -> Vec<Batch> {
    draw(pipeline, instances).batches
}

fn batch(first: usize, count: u32, code: &'static str, compile: bool, bind: bool) -> Batch {
    Batch { first, count, shader: id_of(code), compile, bind, clip: clip() }
}

#[test]
fn new_pipeline_is_empty() {
    let pipeline = Pipeline::new();
    assert_eq!(pipeline.bound_shader(), None);
    assert_eq!(pipeline.batch_limit(), 100_000);
    assert_eq!(MAX_INSTANCES, 100_000);
    assert_eq!(pipeline.instance_buffer_size(), 5_200_000);
    assert!(!pipeline.has_shader_module(&Handle::from(ShaderContent::Memory(SHADER_A))));
}

#[test]
fn no_pipeline_draws_nothing_at_a_time() {
    assert!(Pipeline::with_max_instances(0).is_none());
    let pipeline = Pipeline::with_max_instances(3).unwrap();
    assert_eq!(pipeline.batch_limit(), 3);
    assert_eq!(pipeline.instance_buffer_size(), 156);
    let widest = Pipeline::with_max_instances(u32::MAX).unwrap();
    assert_eq!(widest.instance_buffer_size(), 52 * 4_294_967_295u64);
}

#[test]
fn resolving_twice_compiles_once() {
    let mut pipeline = Pipeline::new();
    let handle = Handle::from(ShaderContent::Memory(SHADER_A));
    assert!(pipeline.insert_shader_module(&handle));
    assert!(pipeline.has_shader_module(&handle));
    assert!(!pipeline.insert_shader_module(&handle));
    assert!(pipeline.has_shader_module(&handle));
    let again = Handle::from(ShaderContent::Memory(SHADER_A));
    assert!(!pipeline.insert_shader_module(&again));
    let other = Handle::from(ShaderContent::Memory(SHADER_B));
    assert!(!pipeline.has_shader_module(&other));
    assert!(pipeline.insert_shader_module(&other));
    assert!(pipeline.has_shader_module(&handle));
    assert_eq!(pipeline.bound_shader(), None);
}

#[test]
fn cache_goes_by_identity_alone() {
    let mut pipeline = Pipeline::new();
    let first = Handle { id: 42, shader_content: ShaderContent::Memory(SHADER_A) };
    let second = Handle { id: 42, shader_content: ShaderContent::Memory(SHADER_B) };
    assert!(pipeline.insert_shader_module(&first));
    assert!(!pipeline.insert_shader_module(&second));
    assert!(pipeline.has_shader_module(&second));
}

#[test]
fn empty_frame_draws_nothing() {
    let mut pipeline = Pipeline::new();
    let frame = pipeline.draw(&[], identity_transformation(), value(1.0), clip());
    assert!(frame.batches.is_empty());
    assert!(frame.instances.is_empty());
    assert_eq!(frame.uniforms, Uniforms::default().bytes());
    assert_eq!(pipeline.bound_shader(), None);
}

#[test]
fn frame_writes_the_uniforms() {
    let mut pipeline = Pipeline::new();
    let mut matrix = identity_transformation();
    matrix[0] = value(0.5);
    let frame = pipeline.draw(&frame_of(&[SHADER_A]), matrix, value(2.0), clip());
    assert_eq!(frame.uniforms.len(), 80);
    assert_eq!(frame.uniforms, Uniforms::new(matrix, value(2.0)).bytes());
    assert_eq!(&frame.uniforms[..4], &0.5f32.to_ne_bytes()[..]);
    assert_eq!(&frame.uniforms[64..68], &2.0f32.to_ne_bytes()[..]);
}

#[test]
fn one_shader_is_cut_at_the_batch_size() {
    for (total, size, expected) in
        [(0usize, 3u32, 0usize), (1, 3, 1), (3, 3, 1), (4, 3, 2), (7, 3, 3), (9, 3, 3), (10, 1, 10)]
    {
        let mut pipeline = Pipeline::with_max_instances(size).unwrap();
        let instances = frame_of(&vec![SHADER_A; total]);
        let frame = draw(&mut pipeline, &instances);
        let batches = &frame.batches;
        assert_eq!(frame.instances, pack(&records_of(&instances)));
        assert_eq!(batches.len(), expected);
        assert_eq!(batches.len(), (total + size as usize - 1) / size as usize);
        let mut uploaded: Vec<u8> = Vec::new();
        for (index, batch) in batches.iter().enumerate() {
            assert_eq!(batch.first, index * size as usize);
            assert!(batch.count >= 1 && batch.count <= size);
            if index + 1 < batches.len() {
                assert_eq!(batch.count, size);
            } else {
                assert_eq!(batch.first + batch.count as usize, total);
            }
            assert_eq!(batch.shader, id_of(SHADER_A));
            assert_eq!(batch.compile, index == 0);
            assert_eq!(batch.bind, index == 0);
            assert_eq!(batch.clip, clip());
            let bytes = frame.instance_bytes(batch).unwrap();
            assert_eq!(bytes.len(), 52 * batch.count as usize);
            assert!(bytes.len() as u64 <= pipeline.instance_buffer_size());
            let end = batch.first + batch.count as usize;
            assert_eq!(bytes, &pack(&records_of(&instances[batch.first..end]))[..]);
            uploaded.extend_from_slice(bytes);
        }
        assert_eq!(uploaded, pack(&records_of(&instances)));
    }
}

#[test]
fn seven_instances_three_at_a_time() {
    let mut pipeline = Pipeline::with_max_instances(3).unwrap();
    let batches = plan(&mut pipeline, &frame_of(&[SHADER_A; 7]));
    assert_eq!(
        batches,
        vec![
            batch(0, 3, SHADER_A, true, true),
            batch(3, 3, SHADER_A, false, false),
            batch(6, 1, SHADER_A, false, false),
        ]
    );
}

#[test]
fn shader_switch_starts_a_new_batch() {
    let mut pipeline = Pipeline::new();
    let instances = frame_of(&[SHADER_A, SHADER_A, SHADER_B, SHADER_A]);
    let frame = draw(&mut pipeline, &instances);
    let batches = frame.batches.clone();
    assert!(batches.len() >= 3);
    assert_eq!(
        batches,
        vec![
            batch(0, 2, SHADER_A, true, true),
            batch(2, 1, SHADER_B, true, true),
            batch(3, 1, SHADER_A, false, true),
        ]
    );
    assert_eq!(pipeline.bound_shader(), Some(id_of(SHADER_A)));
    assert!(pipeline.has_shader_module(&Handle::from(ShaderContent::Memory(SHADER_A))));
    assert!(pipeline.has_shader_module(&Handle::from(ShaderContent::Memory(SHADER_B))));
    assert!(!pipeline.has_shader_module(&Handle::from(ShaderContent::Memory(SHADER_C))));

    let mut uploaded: Vec<u8> = Vec::new();
    for batch in &batches {
        uploaded.extend_from_slice(frame.instance_bytes(batch).unwrap());
    }
    assert_eq!(uploaded, pack(&records_of(&instances)));
    assert_eq!(frame.instance_bytes(&batches[1]).unwrap(), &pack(&records_of(&instances[2..3]))[..]);
}

#[test]
fn next_frame_finds_modules_and_binding() {
    let mut pipeline = Pipeline::with_max_instances(2).unwrap();
    let first = plan(&mut pipeline, &frame_of(&[SHADER_A, SHADER_B, SHADER_B, SHADER_B]));
    assert_eq!(
        first,
        vec![
            batch(0, 1, SHADER_A, true, true),
            batch(1, 2, SHADER_B, true, true),
            batch(3, 1, SHADER_B, false, false),
        ]
    );
    assert_eq!(pipeline.bound_shader(), Some(id_of(SHADER_B)));
    let second = plan(&mut pipeline, &frame_of(&[SHADER_B, SHADER_C, SHADER_A]));
    assert_eq!(
        second,
        vec![
            batch(0, 1, SHADER_B, false, false),
            batch(1, 1, SHADER_C, true, true),
            batch(2, 1, SHADER_A, false, true),
        ]
    );
    assert_eq!(pipeline.bound_shader(), Some(id_of(SHADER_A)));
    let third = plan(&mut pipeline, &[]);
    assert!(third.is_empty());
    assert_eq!(pipeline.bound_shader(), Some(id_of(SHADER_A)));
}

#[test]
fn resolved_shader_is_bound_but_not_compiled_again() {
    let mut pipeline = Pipeline::new();
    assert!(pipeline.insert_shader_module(&Handle::from(ShaderContent::Memory(SHADER_A))));
    let batches = plan(&mut pipeline, &frame_of(&[SHADER_A]));
    assert_eq!(batches, vec![batch(0, 1, SHADER_A, false, true)]);
}

#[test]
fn large_frame_uses_the_default_batch_size() {
    let mut pipeline = Pipeline::new();
    let instances = frame_of(&vec![SHADER_A; 250_001]);
    let frame = draw(&mut pipeline, &instances);
    let batches = frame.batches.clone();
    assert_eq!(
        batches,
        vec![
            batch(0, 100_000, SHADER_A, true, true),
            batch(100_000, 100_000, SHADER_A, false, false),
            batch(200_000, 50_001, SHADER_A, false, false),
        ]
    );
    let bytes = frame.instance_bytes(&batches[2]).unwrap();
    assert_eq!(bytes.len(), 52 * 50_001);
    assert_eq!(bytes, &pack(&records_of(&instances[200_000..]))[..]);
}

#[test]
fn no_bytes_beyond_the_frame() {
    let mut pipeline = Pipeline::new();
    let instances = frame_of(&[SHADER_A, SHADER_A]);
    let frame = draw(&mut pipeline, &instances);
    assert_eq!(frame.instances.len(), 104);
    assert!(frame.instance_bytes(&batch(0, 2, SHADER_A, false, false)).is_some());
    assert!(frame.instance_bytes(&batch(1, 2, SHADER_A, false, false)).is_none());
    assert!(frame.instance_bytes(&batch(3, 0, SHADER_A, false, false)).is_none());
    assert!(frame.instance_bytes(&batch(usize::MAX, 2, SHADER_A, false, false)).is_none());
    assert!(frame.instance_bytes(&batch(usize::MAX / 52 + 1, 0, SHADER_A, false, false)).is_none());
    assert!(frame.instance_bytes(&batch(0, u32::MAX, SHADER_A, false, false)).is_none());
    let nothing: &[u8] = &[];
    assert_eq!(frame.instance_bytes(&batch(2, 0, SHADER_A, false, false)), Some(nothing));
    assert_eq!(
        frame.instance_bytes(&batch(1, 1, SHADER_A, false, false)),
        Some(&pack(&records_of(&instances[1..]))[..])
    );
}

#[test]
fn shader_in_memory_is_its_own_text() {
    let pipeline = Pipeline::new();
    let handle = Handle::from(ShaderContent::Memory(SHADER_A));
    assert_eq!(pipeline.read_shader(&handle, None), Ok(SHADER_A.to_string()));
    assert_eq!(pipeline.read_shader(&handle, Some(vec![0xff])), Ok(SHADER_A.to_string()));
}

#[test]
fn shader_in_a_file_is_what_the_file_holds() {
    let pipeline = Pipeline::new();
    let handle = Handle::from(ShaderContent::Path("shaders/quad.wgsl".to_string()));
    assert_eq!(
        pipeline.read_shader(&handle, Some(SHADER_B.as_bytes().to_vec())),
        Ok(SHADER_B.to_string())
    );
    assert_eq!(
        pipeline.read_shader(&handle, Some("// héllo".as_bytes().to_vec())),
        Ok("// héllo".to_string())
    );
    assert_eq!(pipeline.read_shader(&handle, Some(Vec::new())), Ok(String::new()));
}

#[test]
fn missing_file_is_a_configuration_error() {
    let pipeline = Pipeline::new();
    let handle = Handle::from(ShaderContent::Path("shaders/none.wgsl".to_string()));
    assert_eq!(pipeline.read_shader(&handle, None), Err(ConfigurationError::Unreadable));
}

#[test]
fn file_that_is_no_text_is_a_configuration_error() {
    let pipeline = Pipeline::new();
    let handle = Handle::from(ShaderContent::Path("shaders/quad.wgsl".to_string()));
    assert_eq!(
        pipeline.read_shader(&handle, Some(vec![0x66, 0x6e, 0xff, 0x20])),
        Err(ConfigurationError::NotText)
    );
    assert_eq!(
        pipeline.read_shader(&handle, Some(vec![0xc3])),
        Err(ConfigurationError::NotText)
    );
}

#[test]
fn pipeline_object_needs_a_module() {
    let mut pipeline = Pipeline::new();
    let handle = Handle::from(ShaderContent::Memory(SHADER_A));
    assert!(pipeline.make_pipeline(&handle).is_none());
    assert!(pipeline.insert_shader_module(&handle));
    let description = pipeline.make_pipeline(&handle).unwrap();
    assert_eq!(description.shader, Some(handle.id()));
    assert_eq!(description.instances.array_stride, 52);
    assert_eq!(description.instances.attributes.len(), 7);
    let other = Handle::from(ShaderContent::Memory(SHADER_B));
    assert!(pipeline.insert_shader_module(&other));
    let second = pipeline.make_pipeline(&other).unwrap();
    assert_eq!(second.shader, Some(other.id()));
    assert_eq!(second.vertices.attributes, description.vertices.attributes);
    assert_eq!(second.instances.attributes, description.instances.attributes);
    assert_eq!(second.vertex_entry_point, description.vertex_entry_point);
    assert_eq!(second.fragment_entry_point, description.fragment_entry_point);
}
