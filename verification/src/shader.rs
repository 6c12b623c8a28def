//! Shader sources and the handles that identify them.
//!
//! A shader is known by a 64-bit identity, the xxHash of the text that names
//! it. Everything downstream (the module cache, the batcher) tells shaders
//! apart by that number and by nothing else.

use vstd::prelude::*;
use vstd::std_specs::cmp::PartialEqSpec;
use vstd::std_specs::convert::FromSpec;
use vstd::string::*;
use vstd::utf8::*;
use crate::outside::{xxhash64, xxhash64_of};

verus! {

/// The seed under which identities are hashed.
pub const IDENTITY_SEED: u64 = 0;

/// The byte that closes the hashed text. No UTF-8 text holds it, so that the
/// hashed bytes of one text are never the beginning of those of another.
pub const TEXT_END: u8 = 0xff;

/// Where the text of a shader comes from.
#[derive(Debug)]
pub enum ShaderContent {
    /// The shader is the content of the file at this path.
    Path(String),
    /// The shader is this text.
    Memory(&'static str),
}

impl ShaderContent {
    /// The text that names the source: the path, or the shader code itself.
    pub open spec fn text(&self) -> Seq<char> {
        match self {
            ShaderContent::Path(path) => path@,
            ShaderContent::Memory(code) => code@,
        }
    }

    /// The text that names the source.
    pub fn as_str(&self) -> (text: &str)
        ensures
            text@ == self.text(),
    {
        match self {
            ShaderContent::Path(path) => path.as_str(),
            ShaderContent::Memory(code) => code,
        }
    }

    /// The path of the file to read, for a shader that lives in a file.
    pub fn path(&self) -> (path: Option<&str>)
        ensures
            match *self {
                ShaderContent::Path(p) => path.is_some() && path.unwrap()@ == p@,
                ShaderContent::Memory(_) => path.is_none(),
            },
    {
        match self {
            ShaderContent::Path(path) => Some(path.as_str()),
            ShaderContent::Memory(_) => None,
        }
    }
}

impl Clone for ShaderContent {
    fn clone(&self) -> (copy: Self)
        ensures
            copy == *self,
    {
        match self {
            ShaderContent::Path(path) => ShaderContent::Path(path.clone()),
            ShaderContent::Memory(code) => ShaderContent::Memory(code),
        }
    }
}

/// The bytes that are hashed for a source named by `text`: its UTF-8 encoding,
/// closed by [`TEXT_END`].
pub open spec fn identity_input(text: Seq<char>) -> Seq<u8> {
    encode_utf8(text).push(TEXT_END)
}

/// The identity of a source named by `text`.
pub open spec fn identity_of_text(text: Seq<char>) -> u64 {
    xxhash64_of(IDENTITY_SEED, identity_input(text))
}

/// The identity of a shader source.
pub open spec fn identity(content: ShaderContent) -> u64 {
    identity_of_text(content.text())
}

/// Two texts collide when they differ and still hash to one identity.
pub open spec fn collide(a: Seq<char>, b: Seq<char>) -> bool {
    a != b && identity_of_text(a) == identity_of_text(b)
}

/// Computes the identity of a shader source.
pub fn compute_identity(content: &ShaderContent) -> (id: u64)
    ensures
        id == identity(*content),
{
    let mut bytes = content.as_str().as_bytes_vec();
    bytes.push(TEXT_END);
    xxhash64(IDENTITY_SEED, bytes.as_slice())
}

/// A handle of some shader code.
#[derive(Debug)]
pub struct Handle {
    /// The identity of the shader: all that the cache looks at.
    pub id: u64,
    /// Either the path to the shader code or the shader code in memory.
    pub shader_content: ShaderContent,
}

impl Handle {
    /// Returns the identity of the [`Handle`].
    pub fn id(&self) -> (id: u64)
        ensures
            id == self.id,
    {
        self.id
    }
}

impl Clone for Handle {
    fn clone(&self) -> (copy: Self)
        ensures
            copy == *self,
    {
        Handle { id: self.id, shader_content: self.shader_content.clone() }
    }
}

impl From<ShaderContent> for Handle {
    fn from(shader_content: ShaderContent) -> (handle: Handle)
        ensures
            handle.id == identity(shader_content),
            handle.shader_content == shader_content,
    {
        let id = compute_identity(&shader_content);
        Handle { id, shader_content }
    }
}

impl vstd::std_specs::convert::FromSpecImpl<ShaderContent> for Handle {
    open spec fn obeys_from_spec() -> bool {
        true
    }

    open spec fn from_spec(shader_content: ShaderContent) -> Handle {
        Handle { id: identity(shader_content), shader_content }
    }
}

/// Two handles are equal when their identities are; the sources are not compared.
impl PartialEq for Handle {
    fn eq(&self, other: &Self) -> (equal: bool) {
        self.id == other.id
    }
}

impl Eq for Handle {}

impl vstd::std_specs::cmp::PartialEqSpecImpl for Handle {
    open spec fn obeys_eq_spec() -> bool {
        true
    }

    open spec fn eq_spec(&self, other: &Handle) -> bool {
        self.id == other.id
    }
}

/// Different texts are hashed from different bytes: the only way two sources
/// can share an identity is a collision of the hash itself.
pub proof fn lemma_identity_input_injective(a: Seq<char>, b: Seq<char>)
    requires
        a != b,
    ensures
        identity_input(a) != identity_input(b),
{
    if identity_input(a) == identity_input(b) {
        assert(identity_input(a).drop_last() == encode_utf8(a));
        assert(identity_input(b).drop_last() == encode_utf8(b));
        encode_utf8_decode_utf8(a);
        encode_utf8_decode_utf8(b);
        assert(a == b);
    }
}

/// Identity is a function of the text alone: sources with equal text have
/// equal identities, and the handles made from them are equal.
pub proof fn lemma_identity_deterministic(a: ShaderContent, b: ShaderContent)
    requires
        a.text() == b.text(),
    ensures
        identity(a) == identity(b),
        Handle::from_spec(a).id == Handle::from_spec(b).id,
        Handle::from_spec(a).eq_spec(&Handle::from_spec(b)),
{
}

/// Two different paths have different identities, unless they collide.
pub proof fn lemma_distinct_paths_distinct_identities(first: String, second: String)
    requires
        first@ != second@,
        !collide(first@, second@),
    ensures
        identity(ShaderContent::Path(first)) != identity(ShaderContent::Path(second)),
        !Handle::from_spec(ShaderContent::Path(first)).eq_spec(
            &Handle::from_spec(ShaderContent::Path(second)),
        ),
{
}

} // verus!
