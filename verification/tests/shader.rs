use shader_quad::shader::{compute_identity, Handle, ShaderContent};
use std::hash::{Hash, Hasher};

const FRAGMENT: &str =
    "@fragment fn fs_main() -> @location(0) vec4<f32> { return vec4<f32>(1.0); }";

#[test]
fn identity_of_memory_is_the_hash_of_the_text() {
    let handle = Handle::from(ShaderContent::Memory(FRAGMENT));
    assert_eq!(handle.id, 0x6b0b_4593_d28c_359f);
    assert_eq!(handle.id(), 0x6b0b_4593_d28c_359f);
}

#[test]
fn identity_of_path_is_the_hash_of_the_path() {
    let handle = Handle::from(ShaderContent::Path("shaders/quad.wgsl".to_string()));
    assert_eq!(handle.id(), 0x5cca_da6f_73bc_7361);
}

#[test]
fn identity_of_short_and_empty_texts() {
    assert_eq!(compute_identity(&ShaderContent::Memory("")), 0x9563_4172_a60b_7544);
    assert_eq!(compute_identity(&ShaderContent::Memory("a")), 0x3ff5_008a_504a_5280);
    assert_eq!(compute_identity(&ShaderContent::Memory("héllo")), 0xb601_58b3_5c4c_2fd7);
}

#[test]
fn identity_is_what_hashing_the_string_gives() {
    let mut hasher = twox_hash::XxHash64::default();
    FRAGMENT.hash(&mut hasher);
    assert_eq!(compute_identity(&ShaderContent::Memory(FRAGMENT)), hasher.finish());
}

#[test]
fn identity_is_deterministic() {
    let first = Handle::from(ShaderContent::Memory(FRAGMENT));
    let second = Handle::from(ShaderContent::Memory(FRAGMENT));
    assert_eq!(first.id(), second.id());
    assert!(first == second);
    let owned = String::from("shaders/") + "quad.wgsl";
    let third = Handle::from(ShaderContent::Path(owned));
    let fourth = Handle::from(ShaderContent::Path("shaders/quad.wgsl".to_string()));
    assert_eq!(third.id(), fourth.id());
}

#[test]
fn different_paths_have_different_identities() {
    let quad = Handle::from(ShaderContent::Path("shaders/quad.wgsl".to_string()));
    let other = Handle::from(ShaderContent::Path("shaders/other.wgsl".to_string()));
    assert_eq!(other.id(), 0x3bc0_b44a_70ff_6ae2);
    assert_ne!(quad.id(), other.id());
    assert!(quad != other);
}

#[test]
fn identity_depends_on_the_text_alone() {
    let path = Handle::from(ShaderContent::Path("a".to_string()));
    let memory = Handle::from(ShaderContent::Memory("a"));
    assert_eq!(path.id(), memory.id());
}

#[test]
fn handles_are_compared_by_identity_only() {
    let one = Handle { id: 7, shader_content: ShaderContent::Memory("first") };
    let two = Handle { id: 7, shader_content: ShaderContent::Path("second".to_string()) };
    let three = Handle { id: 8, shader_content: ShaderContent::Memory("first") };
    assert!(one == two);
    assert!(one != three);
}

#[test]
fn handle_keeps_its_source() {
    let handle = Handle::from(ShaderContent::Path("shaders/quad.wgsl".to_string()));
    assert_eq!(handle.shader_content.as_str(), "shaders/quad.wgsl");
    assert_eq!(handle.shader_content.path(), Some("shaders/quad.wgsl"));
    let memory = Handle::from(ShaderContent::Memory(FRAGMENT));
    assert_eq!(memory.shader_content.as_str(), FRAGMENT);
    assert_eq!(memory.shader_content.path(), None);
}

#[test]
fn clone_of_a_handle_is_the_handle() {
    let handle = Handle::from(ShaderContent::Path("shaders/quad.wgsl".to_string()));
    let copy = handle.clone();
    assert_eq!(copy.id, handle.id);
    assert_eq!(copy.shader_content.as_str(), "shaders/quad.wgsl");
    assert!(matches!(copy.shader_content, ShaderContent::Path(_)));
    let memory = ShaderContent::Memory(FRAGMENT).clone();
    assert!(matches!(memory, ShaderContent::Memory(text) if text == FRAGMENT));
}
