//! The quads of one frame, as the GPU reads them.
//!
//! An instance is a record of thirteen 32-bit words in a fixed order. The
//! instance buffer holds the records of a batch one after the other, each word
//! as the machine stores it.

use vstd::prelude::*;
use crate::primitive::Float;
use crate::shader::Handle;
use crate::wire::{image, is_memory_image, lemma_image_concat, memory_image, ByteOrder};

verus! {

/// The number of 32-bit words in one instance record.
pub const INSTANCE_WORDS: usize = 13;

/// The number of bytes in one instance record.
pub const INSTANCE_STRIDE: u64 = 52;

/// A quad to draw, with the shader that paints it.
#[derive(Debug)]
pub struct CustomShaderQuadWithHandle {
    /// The position of the quad.
    pub position: [Float; 2],
    /// The size of the quad.
    pub size: [Float; 2],
    /// The color of the quad, in linear RGB, with its alpha.
    pub color: [Float; 4],
    /// Mouse position on the screen.
    pub mouse_position: [Float; 2],
    /// The packed state of the mouse: bit 0 left pressed, bit 1 right
    /// pressed, bit 2 hovered.
    pub mouse_click: u32,
    /// Time in seconds since the start of the animation.
    pub time: Float,
    /// Frame number.
    pub frame: u32,
    /// The shader that paints the quad.
    pub handle: Handle,
}

impl Clone for CustomShaderQuadWithHandle {
    fn clone(&self) -> (copy: Self)
        ensures
            copy == *self,
    {
        CustomShaderQuadWithHandle {
            position: self.position,
            size: self.size,
            color: self.color,
            mouse_position: self.mouse_position,
            mouse_click: self.mouse_click,
            time: self.time,
            frame: self.frame,
            handle: self.handle.clone(),
        }
    }
}

/// A quad as the GPU reads it: what is left of a
/// [`CustomShaderQuadWithHandle`] once its shader is bound.
#[derive(Clone, Copy, Debug)]
pub struct CustomShaderQuad {
    /// The position of the quad.
    pub position: [Float; 2],
    /// The size of the quad.
    pub size: [Float; 2],
    /// The color of the quad, in linear RGB, with its alpha.
    pub color: [Float; 4],
    /// Mouse position on the screen.
    pub mouse_position: [Float; 2],
    /// The packed state of the mouse.
    pub mouse_click: u32,
    /// Time in seconds since the start of the animation.
    pub time: Float,
    /// Frame number.
    pub frame: u32,
}

impl CustomShaderQuad {
    /// The thirteen words of the record, in the order the GPU reads them:
    /// position, size, color, mouse position, mouse state, time, frame number.
    pub open spec fn words(&self) -> Seq<u32> {
        seq![
            self.position[0].bits,
            self.position[1].bits,
            self.size[0].bits,
            self.size[1].bits,
            self.color[0].bits,
            self.color[1].bits,
            self.color[2].bits,
            self.color[3].bits,
            self.mouse_position[0].bits,
            self.mouse_position[1].bits,
            self.mouse_click,
            self.time.bits,
            self.frame,
        ]
    }

    /// Appends the words of the record to `out`.
    pub fn append_words(&self, out: &mut Vec<u32>)
        ensures
            final(out)@ == old(out)@ + self.words(),
    {
        out.push(self.position[0].bits);
        out.push(self.position[1].bits);
        out.push(self.size[0].bits);
        out.push(self.size[1].bits);
        out.push(self.color[0].bits);
        out.push(self.color[1].bits);
        out.push(self.color[2].bits);
        out.push(self.color[3].bits);
        out.push(self.mouse_position[0].bits);
        out.push(self.mouse_position[1].bits);
        out.push(self.mouse_click);
        out.push(self.time.bits);
        out.push(self.frame);
        assert(out@ =~= old(out)@ + self.words());
    }
}

impl<'a> From<&'a CustomShaderQuadWithHandle> for CustomShaderQuad {
    fn from(custom_shader_quad: &'a CustomShaderQuadWithHandle) -> (record: Self)
        ensures
            record == wire_record(*custom_shader_quad),
    {
        CustomShaderQuad {
            position: custom_shader_quad.position,
            size: custom_shader_quad.size,
            color: custom_shader_quad.color,
            mouse_position: custom_shader_quad.mouse_position,
            mouse_click: custom_shader_quad.mouse_click,
            time: custom_shader_quad.time,
            frame: custom_shader_quad.frame,
        }
    }
}

impl<'a> vstd::std_specs::convert::FromSpecImpl<&'a CustomShaderQuadWithHandle> for CustomShaderQuad {
    open spec fn obeys_from_spec() -> bool {
        true
    }

    open spec fn from_spec(custom_shader_quad: &'a CustomShaderQuadWithHandle) -> Self {
        wire_record(*custom_shader_quad)
    }
}

/// The record of a quad: every field but the shader, unchanged.
pub open spec fn wire_record(quad: CustomShaderQuadWithHandle) -> CustomShaderQuad {
    CustomShaderQuad {
        position: quad.position,
        size: quad.size,
        color: quad.color,
        mouse_position: quad.mouse_position,
        mouse_click: quad.mouse_click,
        time: quad.time,
        frame: quad.frame,
    }
}

/// The records of a sequence of quads, in order.
pub open spec fn wire_records(quads: Seq<CustomShaderQuadWithHandle>) -> Seq<CustomShaderQuad> {
    Seq::new(quads.len(), |i: int| wire_record(quads[i]))
}

/// The words of a sequence of records: those of the first, then those of the
/// second, and so on.
pub open spec fn record_words(records: Seq<CustomShaderQuad>) -> Seq<u32>
    decreases records.len(),
{
    if records.len() == 0 {
        Seq::empty()
    } else {
        record_words(records.drop_last()) + records.last().words()
    }
}

/// The bytes of a sequence of records on a machine of the given byte order.
pub open spec fn packed(order: ByteOrder, records: Seq<CustomShaderQuad>) -> Seq<u8> {
    image(order, record_words(records))
}

/// Every record takes thirteen words.
pub proof fn lemma_record_words_len(records: Seq<CustomShaderQuad>)
    ensures
        record_words(records).len() == INSTANCE_WORDS * records.len(),
    decreases records.len(),
{
    if records.len() > 0 {
        lemma_record_words_len(records.drop_last());
    }
}

/// The words of a concatenation are the concatenation of the words.
pub proof fn lemma_record_words_concat(a: Seq<CustomShaderQuad>, b: Seq<CustomShaderQuad>)
    ensures
        record_words(a + b) == record_words(a) + record_words(b),
    decreases b.len(),
{
    if b.len() == 0 {
        assert(a + b =~= a);
        assert(record_words(a) + record_words(b) =~= record_words(a));
    } else {
        lemma_record_words_concat(a, b.drop_last());
        assert((a + b).drop_last() =~= a + b.drop_last());
        assert((a + b).last() == b.last());
        assert(record_words(a + b) =~= record_words(a) + record_words(b));
    }
}

/// Packing keeps the order of the records and runs them together: the bytes of
/// a concatenation are the bytes of its parts, one after the other.
pub proof fn lemma_packed_concat(
    order: ByteOrder,
    a: Seq<CustomShaderQuad>,
    b: Seq<CustomShaderQuad>,
)
    ensures
        packed(order, a + b) == packed(order, a) + packed(order, b),
        packed(order, a).len() == INSTANCE_STRIDE * a.len(),
{
    lemma_record_words_concat(a, b);
    lemma_image_concat(order, record_words(a), record_words(b));
    lemma_record_words_len(a);
}

/// The bytes of a stretch of records are a stretch of the bytes: the records
/// from `from` up to `to` lie from the byte `52 * from` up to the byte
/// `52 * to`.
pub proof fn lemma_packed_subrange(
    order: ByteOrder,
    records: Seq<CustomShaderQuad>,
    from: int,
    to: int,
)
    requires
        0 <= from <= to <= records.len(),
    ensures
        packed(order, records).len() == INSTANCE_STRIDE * records.len(),
        packed(order, records).subrange(INSTANCE_STRIDE * from, INSTANCE_STRIDE * to) == packed(
            order,
            records.subrange(from, to),
        ),
{
    let head = records.take(from);
    let body = records.subrange(from, to);
    let tail = records.skip(to);
    assert(records =~= (head + body) + tail);
    lemma_packed_concat(order, head + body, tail);
    lemma_packed_concat(order, head, body);
    lemma_packed_concat(order, body, tail);
    lemma_packed_concat(order, records, Seq::empty());
    assert(packed(order, records).subrange(INSTANCE_STRIDE * from, INSTANCE_STRIDE * to) =~= packed(
        order,
        body,
    ));
}

/// Takes the records of `quads`, in order.
pub fn records_of(quads: &[CustomShaderQuadWithHandle]) -> (records: Vec<CustomShaderQuad>)
    ensures
        records@ == wire_records(quads@),
{
    let mut records: Vec<CustomShaderQuad> = Vec::new();
    let mut i: usize = 0;
    while i < quads.len()
        invariant
            i <= quads.len(),
            records@ == wire_records(quads@.take(i as int)),
        decreases quads.len() - i,
    {
        records.push(CustomShaderQuad::from(&quads[i]));
        i += 1;
        assert(records@ =~= wire_records(quads@.take(i as int)));
    }
    assert(quads@.take(i as int) =~= quads@);
    records
}

/// Packs `records` for the instance buffer: the words of each record, in
/// order, as this machine stores them.
pub fn pack(records: &[CustomShaderQuad]) -> (bytes: Vec<u8>)
    ensures
        is_memory_image(bytes@, record_words(records@)),
        bytes@.len() == INSTANCE_STRIDE * records@.len(),
{
    let mut words: Vec<u32> = Vec::new();
    let mut i: usize = 0;
    while i < records.len()
        invariant
            i <= records.len(),
            words@ == record_words(records@.take(i as int)),
        decreases records.len() - i,
    {
        records[i].append_words(&mut words);
        i += 1;
        assert(records@.take(i as int).drop_last() =~= records@.take(i - 1));
    }
    assert(records@.take(i as int) =~= records@);
    proof {
        lemma_record_words_len(records@);
    }
    memory_image(words.as_slice())
}

} // verus!
