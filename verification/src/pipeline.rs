//! The pipeline manager: which shader modules exist, which pipeline object is
//! bound, and how a frame of quads becomes draw calls.

use std::collections::HashSet;
use vstd::prelude::*;
use vstd::slice::slice_subrange;
use vstd::utf8::{decode_utf8, valid_utf8};
use crate::batch::{
    batch_fits, bound_at, chain_end, is_chain, is_first_use, is_plan, is_run, shaders_used, Batch,
};
use crate::layer::{
    lemma_packed_subrange, pack, packed, record_words, records_of, wire_records,
    CustomShaderQuad, CustomShaderQuadWithHandle, INSTANCE_STRIDE,
};
use crate::layout::{describe_pipeline, describes, PipelineDescription};
use crate::outside::string_from_utf8;
use crate::primitive::{Float, Rectangle};
use crate::shader::{Handle, ShaderContent};
use crate::uniforms::{bits_of, uniform_words, Uniforms, UNIFORMS_SIZE};
use crate::wire::{is_memory_image, ByteOrder};

verus! {

broadcast use vstd::std_specs::hash::group_hash_axioms;

/// The largest number of instances that one draw call takes.
pub const MAX_INSTANCES: u32 = 100_000;

/// The state of the pipeline manager.
///
/// It owns the cache of shader modules, to which entries are added and from
/// which none is ever taken, and it knows the one pipeline object that is
/// bound. The GPU objects themselves are kept by whoever carries out the
/// plans; this is the record of what they are.
#[derive(Debug)]
pub struct Pipeline {
    shader_modules_cache: HashSet<u64>,
    bound: Option<u64>,
    max_instances: u32,
}

/// Why the source of a shader cannot be had.
#[derive(Clone, Copy, Debug, PartialEq, Eq, Structural)]
pub enum ConfigurationError {
    /// The file of the shader is missing or cannot be read.
    Unreadable,
    /// The file of the shader does not hold UTF-8 text.
    NotText,
}

/// What a frame asks of the GPU, in the order in which it is to be done.
#[derive(Debug)]
pub struct Frame {
    /// The content of the uniform buffer, to be written before the first draw.
    pub uniforms: Vec<u8>,
    /// The packed instances of the whole frame, in the order submitted. The
    /// instance buffer takes them a batch at a time.
    pub instances: Vec<u8>,
    /// The draw calls.
    pub batches: Vec<Batch>,
}

impl Frame {
    /// The bytes of a batch: what is to be written to the instance buffer
    /// before the draw call of the batch. There are none for a batch that
    /// reaches beyond the frame.
    pub fn instance_bytes(&self, batch: &Batch) -> (bytes: Option<&[u8]>)
        ensures
            bytes.is_some() == (INSTANCE_STRIDE * batch.end() <= self.instances@.len()),
            bytes matches Some(b) ==> b@ == batch_bytes(self.instances@, *batch),
    {
        let stride: usize = 52;
        let total = self.instances.len();
        if batch.first > total / stride {
            return None;
        }
        let start = batch.first * stride;
        if batch.count as usize > (total - start) / stride {
            return None;
        }
        let end = start + batch.count as usize * stride;
        Some(slice_subrange(self.instances.as_slice(), start, end))
    }
}

/// The cache after a shader has been resolved, and whether its module is new.
pub open spec fn resolved(cached: Set<u64>, shader: u64) -> (Set<u64>, bool) {
    (cached.insert(shader), !cached.contains(shader))
}

/// The source of a shader, given what its file holds: the text in memory, or
/// the text that the bytes of the file encode.
pub open spec fn source_of(content: ShaderContent, file: Option<Seq<u8>>) -> Result<
    Seq<char>,
    ConfigurationError,
> {
    match content {
        ShaderContent::Memory(code) => Ok(code@),
        ShaderContent::Path(_) => match file {
            None => Err(ConfigurationError::Unreadable),
            Some(bytes) => if valid_utf8(bytes) {
                Ok(decode_utf8(bytes))
            } else {
                Err(ConfigurationError::NotText)
            },
        },
    }
}

/// The records of the instances that a batch draws.
pub open spec fn batch_records(
    instances: Seq<CustomShaderQuadWithHandle>,
    batch: Batch,
) -> Seq<CustomShaderQuad> {
    wire_records(instances).subrange(batch.first as int, batch.end())
}

/// The bytes of a batch within the packed instances of its frame.
pub open spec fn batch_bytes(frame_bytes: Seq<u8>, batch: Batch) -> Seq<u8> {
    frame_bytes.subrange(INSTANCE_STRIDE * batch.first, INSTANCE_STRIDE * batch.end())
}

/// The bytes that go through the instance buffer while `batches` are drawn,
/// one batch after the other.
pub open spec fn uploaded(frame_bytes: Seq<u8>, batches: Seq<Batch>) -> Seq<u8>
    decreases batches.len(),
{
    if batches.len() == 0 {
        Seq::empty()
    } else {
        uploaded(frame_bytes, batches.drop_last()) + batch_bytes(frame_bytes, batches.last())
    }
}

/// The shaders of a sequence of quads, in order.
pub open spec fn shader_ids(quads: Seq<CustomShaderQuadWithHandle>) -> Seq<u64> {
    Seq::new(quads.len(), |i: int| quads[i].handle.id)
}

impl Pipeline {
    /// What every pipeline keeps: it draws at least one instance at a time,
    /// and the shader of the bound pipeline object has a module.
    pub open spec fn wf(&self) -> bool {
        &&& self.max_instances() >= 1
        &&& self.bound() matches Some(shader) ==> self.cached().contains(shader)
    }

    /// The identities of the shaders whose module has been compiled.
    pub closed spec fn cached(&self) -> Set<u64> {
        self.shader_modules_cache@
    }

    /// The shader whose pipeline object is bound; `None` while it is the
    /// pipeline object of the built-in shader.
    pub closed spec fn bound(&self) -> Option<u64> {
        self.bound
    }

    /// The largest number of instances that one draw call takes.
    pub closed spec fn max_instances(&self) -> nat {
        self.max_instances as nat
    }

    /// Creates a pipeline with an empty cache, the pipeline object of the
    /// built-in shader bound, and [`MAX_INSTANCES`] instances to a draw call.
    pub fn new() -> (pipeline: Pipeline)
        ensures
            pipeline.wf(),
            pipeline.cached() == Set::<u64>::empty(),
            pipeline.bound().is_none(),
            pipeline.max_instances() == MAX_INSTANCES,
    {
        Pipeline { shader_modules_cache: HashSet::new(), bound: None, max_instances: MAX_INSTANCES }
    }

    /// Creates a pipeline as [`Pipeline::new`] does, with `max_instances`
    /// instances to a draw call. There is no pipeline that draws nothing.
    pub fn with_max_instances(max_instances: u32) -> (pipeline: Option<Pipeline>)
        ensures
            pipeline.is_some() <==> max_instances >= 1,
            pipeline matches Some(p) ==> {
                &&& p.wf()
                &&& p.cached() == Set::<u64>::empty()
                &&& p.bound().is_none()
                &&& p.max_instances() == max_instances
            },
    {
        if max_instances == 0 {
            None
        } else {
            Some(Pipeline { shader_modules_cache: HashSet::new(), bound: None, max_instances })
        }
    }

    /// The shader whose pipeline object is bound, if it is not that of the
    /// built-in shader.
    pub fn bound_shader(&self) -> (bound: Option<u64>)
        ensures
            bound == self.bound(),
    {
        self.bound
    }

    /// The largest number of instances that one draw call takes.
    pub fn batch_limit(&self) -> (limit: u32)
        ensures
            limit == self.max_instances(),
    {
        self.max_instances
    }

    /// Tells whether the module of the shader has been compiled.
    pub fn has_shader_module(&self, shader_handle: &Handle) -> (cached: bool)
        ensures
            cached == self.cached().contains(shader_handle.id),
    {
        self.shader_modules_cache.contains(&shader_handle.id)
    }

    /// Makes room in the cache for the module of the shader, unless there is
    /// one. Returns whether the module is new: it is then to be compiled.
    ///
    /// The module is kept under the identity of the shader, for good: a second
    /// handle with the same identity finds it there, whatever its source.
    pub fn insert_shader_module(&mut self, shader_handle: &Handle) -> (newly_compiled: bool)
        requires
            old(self).wf(),
        ensures
            final(self).wf(),
            (final(self).cached(), newly_compiled) == resolved(
                old(self).cached(),
                shader_handle.id,
            ),
            final(self).bound() == old(self).bound(),
            final(self).max_instances() == old(self).max_instances(),
    {
        self.shader_modules_cache.insert(shader_handle.id)
    }

    /// The text of a shader. A shader in memory is its own text. A shader in a
    /// file is what the file holds: `file` is the content of the file at
    /// [`ShaderContent::path`], or `None` if it is missing or cannot be read.
    pub fn read_shader(&self, handle: &Handle, file: Option<Vec<u8>>) -> (source: Result<
        String,
        ConfigurationError,
    >)
        ensures
            match source_of(
                handle.shader_content,
                match file {
                    Some(bytes) => Some(bytes@),
                    None => None,
                },
            ) {
                Ok(text) => source.is_ok() && source.unwrap()@ == text,
                Err(error) => source == Err::<String, ConfigurationError>(error),
            },
    {
        match &handle.shader_content {
            ShaderContent::Memory(code) => {
                let text: &str = code;
                Ok(text.to_owned())
            },
            ShaderContent::Path(_) => match file {
                None => Err(ConfigurationError::Unreadable),
                Some(bytes) => match string_from_utf8(bytes) {
                    Some(text) => Ok(text),
                    None => Err(ConfigurationError::NotText),
                },
            },
        }
    }

    /// Describes the pipeline object of a shader: the same for every shader
    /// but for the module that holds the entry points. There is none to
    /// describe while the module of the shader has not been compiled.
    pub fn make_pipeline(&self, shader_handle: &Handle) -> (description: Option<
        PipelineDescription,
    >)
        ensures
            description.is_some() == self.cached().contains(shader_handle.id),
            description matches Some(d) ==> describes(d, Some(shader_handle.id)),
    {
        if self.shader_modules_cache.contains(&shader_handle.id) {
            Some(describe_pipeline(Some(shader_handle.id)))
        } else {
            None
        }
    }

    /// The size of the instance buffer in bytes: room for the largest batch.
    pub fn instance_buffer_size(&self) -> (size: u64)
        ensures
            size == INSTANCE_STRIDE * self.max_instances(),
    {
        let count: u64 = self.max_instances as u64;
        INSTANCE_STRIDE * count
    }

    /// Plans a frame: the content of the uniform buffer, the packed
    /// instances and the draw calls.
    ///
    /// The instances are taken in the order given. Each batch is a run of
    /// instances that share a shader, cut at [`Pipeline::max_instances`]; a
    /// batch says whether the module of its shader is to be compiled first
    /// and whether a pipeline object is to be bound for it. The pipeline is
    /// left as it is once the plan has been carried out: every shader of the
    /// frame has a module, and the pipeline object of the last one is bound.
    pub fn draw(
        &mut self,
        instances: &[CustomShaderQuadWithHandle],
        transformation: [Float; 16],
        scale: Float,
        bounds: Rectangle<u32>,
    ) -> (frame: Frame)
        requires
            old(self).wf(),
        ensures
            final(self).wf(),
            is_memory_image(
                frame.uniforms@,
                uniform_words(bits_of(transformation@), scale.bits),
            ),
            frame.uniforms@.len() == UNIFORMS_SIZE,
            is_memory_image(frame.instances@, record_words(wire_records(instances@))),
            frame.instances@.len() == INSTANCE_STRIDE * instances@.len(),
            is_plan(
                shader_ids(instances@),
                old(self).cached(),
                old(self).bound(),
                old(self).max_instances(),
                bounds,
                frame.batches@,
            ),
            final(self).cached() == old(self).cached().union(
                shaders_used(shader_ids(instances@), instances@.len() as int),
            ),
            final(self).bound() == bound_at(
                shader_ids(instances@),
                old(self).bound(),
                instances@.len() as int,
            ),
            final(self).max_instances() == old(self).max_instances(),
    {
        let uniforms = Uniforms::new(transformation, scale).bytes();
        let packed_instances = pack(records_of(instances).as_slice());
        let total = instances.len();
        let limit = self.max_instances as usize;
        let ghost ids = shader_ids(instances@);
        let ghost cached = self.cached();
        let ghost bound = self.bound();
        let ghost max = self.max_instances();
        let mut batches: Vec<Batch> = Vec::new();
        let mut i: usize = 0;
        assert(self.cached() =~= cached.union(shaders_used(ids, 0)));
        while i < total
            invariant
                total == instances@.len(),
                ids == shader_ids(instances@),
                limit == max,
                i <= total,
                self.wf(),
                self.max_instances() == max,
                self.cached() == cached.union(shaders_used(ids, i as int)),
                self.bound() == bound_at(ids, bound, i as int),
                is_chain(batches@),
                chain_end(batches@) == i,
                forall|k: int|
                    0 <= k < batches@.len() ==> batch_fits(
                        ids,
                        cached,
                        bound,
                        max,
                        bounds,
                        #[trigger] batches@[k],
                    ),
            decreases total - i,
        {
            let shader = instances[i].handle.id;
            assert(shader == ids[i as int]);
            let bind = match self.bound {
                Some(current) => current != shader,
                None => true,
            };
            let compile = self.insert_shader_module(&instances[i].handle);
            self.bound = Some(shader);
            assert(compile == is_first_use(ids, cached, i as int, shader)) by {
                if !cached.contains(shader) && !compile {
                    let j = choose|j: int| 0 <= j < i && j < ids.len() && ids[j] == shader;
                    assert(ids[j] == shader);
                }
            }
            let mut end: usize = i + 1;
            while end < total && end - i < limit && instances[end].handle.id == shader
                invariant
                    total == instances@.len(),
                    ids == shader_ids(instances@),
                    i < end <= total,
                    end - i <= limit,
                    forall|j: int| i <= j < end ==> ids[j] == shader,
                decreases total - end,
            {
                end += 1;
            }
            let batch = Batch {
                first: i,
                count: (end - i) as u32,
                shader,
                compile,
                bind,
                clip: bounds,
            };
            assert(is_run(ids, max, batch));
            assert(batch_fits(ids, cached, bound, max, bounds, batch));
            assert(self.cached() =~= cached.union(shaders_used(ids, end as int))) by {
                assert forall|id: u64|
                    cached.union(shaders_used(ids, end as int)).contains(id) implies cached.union(
                    shaders_used(ids, i as int),
                ).insert(shader).contains(id) by {
                    if !cached.contains(id) {
                        let j = choose|j: int| 0 <= j < end && j < ids.len() && ids[j] == id;
                        if j < i {
                            assert(shaders_used(ids, i as int).contains(id));
                        }
                    }
                }
                assert forall|id: u64|
                    cached.union(shaders_used(ids, i as int)).insert(shader).contains(
                        id,
                    ) implies cached.union(shaders_used(ids, end as int)).contains(id) by {
                    if id == shader {
                        assert(ids[i as int] == shader);
                        assert(shaders_used(ids, end as int).contains(id));
                    } else if !cached.contains(id) {
                        let j = choose|j: int| 0 <= j < i && j < ids.len() && ids[j] == id;
                        assert(shaders_used(ids, end as int).contains(id));
                    }
                }
            }
            let ghost before = batches@;
            batches.push(batch);
            assert(is_chain(batches@)) by {
                assert forall|j: int, k: int|
                    0 <= j && k == j + 1 && k < batches@.len() implies (#[trigger] batches@[k]).first
                    == (#[trigger] batches@[j]).end() by {
                    if k < before.len() {
                        assert(batches@[k] == before[k]);
                        assert(batches@[j] == before[j]);
                    } else {
                        assert(batches@[j] == before.last());
                    }
                }
            }
            assert forall|k: int| 0 <= k < batches@.len() implies batch_fits(
                ids,
                cached,
                bound,
                max,
                bounds,
                #[trigger] batches@[k],
            ) by {
                if k < before.len() {
                    assert(batches@[k] == before[k]);
                }
            }
            i = end;
        }
        Frame { uniforms, instances: packed_instances, batches }
    }
}

/// Resolving a shader a second time finds the module of the first time: the
/// cache stays as it is and nothing is compiled, whether the second handle is
/// the first one or another with the same identity.
pub proof fn lemma_resolve_idempotent(cached: Set<u64>, first: Handle, second: Handle)
    requires
        first.id == second.id,
    ensures
        resolved(cached, first.id).0.contains(second.id),
        resolved(resolved(cached, first.id).0, second.id) == (resolved(cached, first.id).0, false),
{
    assert(cached.insert(first.id).insert(second.id) =~= cached.insert(first.id));
}

/// The cache only grows: what was resolved stays resolved.
pub proof fn lemma_resolve_keeps(cached: Set<u64>, shader: u64, other: u64)
    requires
        cached.contains(other),
    ensures
        resolved(cached, shader).0.contains(other),
{
}

/// What goes through the instance buffer while the first `k` batches of a
/// chain are drawn is the packed frame up to where the chain has come.
proof fn lemma_uploaded_prefix(frame_bytes: Seq<u8>, batches: Seq<Batch>, k: int)
    requires
        is_chain(batches),
        INSTANCE_STRIDE * chain_end(batches) <= frame_bytes.len(),
        0 <= k <= batches.len(),
    ensures
        0 <= chain_end(batches.take(k)) <= chain_end(batches),
        uploaded(frame_bytes, batches.take(k)) == frame_bytes.take(
            INSTANCE_STRIDE * chain_end(batches.take(k)),
        ),
    decreases k,
{
    let done = batches.take(k);
    if k == 0 {
        assert(frame_bytes.take(0) =~= Seq::<u8>::empty());
    } else {
        let before = batches.take(k - 1);
        let batch = batches[k - 1];
        lemma_uploaded_prefix(frame_bytes, batches, k - 1);
        assert(done.drop_last() =~= before);
        assert(done.last() == batch);
        assert(chain_end(before) == batch.first) by {
            if k > 1 {
                assert(before.last() == batches[k - 2]);
                assert(batches[k - 1].first == batches[k - 2].end());
            }
        }
        lemma_chain_grows(batches, k - 1);
        assert(frame_bytes.take(INSTANCE_STRIDE * batch.end()) =~= frame_bytes.take(
            INSTANCE_STRIDE * batch.first,
        ) + batch_bytes(frame_bytes, batch));
    }
}

/// The batches of a chain end one after the other.
proof fn lemma_chain_grows(batches: Seq<Batch>, k: int)
    requires
        is_chain(batches),
        0 <= k < batches.len(),
    ensures
        batches[k].end() <= chain_end(batches),
    decreases batches.len() - k,
{
    if k + 1 < batches.len() {
        lemma_chain_grows(batches, k + 1);
        assert(batches[k + 1].first == batches[k].end());
    }
}

/// Batching neither loses nor reorders anything: the bytes that go through
/// the instance buffer, batch after batch, are the packed instances of the
/// frame in the order in which they were submitted.
pub proof fn lemma_uploads_whole_frame(
    frame_bytes: Seq<u8>,
    ids: Seq<u64>,
    cached: Set<u64>,
    bound: Option<u64>,
    max: nat,
    clip: Rectangle<u32>,
    batches: Seq<Batch>,
)
    requires
        is_plan(ids, cached, bound, max, clip, batches),
        frame_bytes.len() == INSTANCE_STRIDE * ids.len(),
    ensures
        uploaded(frame_bytes, batches) == frame_bytes,
        forall|k: int|
            0 <= k < batches.len() ==> batch_bytes(frame_bytes, #[trigger] batches[k]).len()
                == INSTANCE_STRIDE * batches[k].count,
{
    lemma_uploaded_prefix(frame_bytes, batches, batches.len() as int);
    assert(batches.take(batches.len() as int) =~= batches);
    assert(frame_bytes.take(frame_bytes.len() as int) =~= frame_bytes);
    assert forall|k: int| 0 <= k < batches.len() implies batch_bytes(
        frame_bytes,
        #[trigger] batches[k],
    ).len() == INSTANCE_STRIDE * batches[k].count by {
        assert(batch_fits(ids, cached, bound, max, clip, batches[k]));
    }
}

/// The bytes of a batch, cut from the packed frame, are the packed instances
/// of the batch, in the byte order of the frame.
pub proof fn lemma_batch_bytes(
    order: ByteOrder,
    instances: Seq<CustomShaderQuadWithHandle>,
    frame_bytes: Seq<u8>,
    batch: Batch,
)
    requires
        frame_bytes == packed(order, wire_records(instances)),
        batch.end() <= instances.len(),
    ensures
        INSTANCE_STRIDE * batch.end() <= frame_bytes.len(),
        batch_bytes(frame_bytes, batch) == packed(order, batch_records(instances, batch)),
{
    lemma_packed_subrange(order, wire_records(instances), batch.first as int, batch.end());
}

} // verus!
