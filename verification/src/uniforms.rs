//! The values that every instance of a frame shares.

use vstd::prelude::*;
use crate::primitive::{Float, ONE_BITS, ZERO_BITS};
use crate::wire::{is_memory_image, memory_image};

verus! {

/// The number of bytes of the uniform block.
pub const UNIFORMS_SIZE: u64 = 80;

/// The uniform block of the vertex stage: a 4 by 4 matrix, the scale factor,
/// and three words that fill the block to a multiple of sixteen bytes.
#[derive(Clone, Copy, Debug)]
pub struct Uniforms {
    transform: [Float; 16],
    scale: Float,
    _padding: [Float; 3],
}

/// The matrix that changes nothing, column by column.
pub open spec fn identity_words() -> Seq<u32> {
    Seq::new(16, |i: int| if i % 5 == 0 { ONE_BITS } else { ZERO_BITS })
}

/// The words of a uniform block with the given matrix and scale factor.
pub open spec fn uniform_words(transform: Seq<u32>, scale: u32) -> Seq<u32> {
    transform + seq![scale, ZERO_BITS, ZERO_BITS, ZERO_BITS]
}

/// The bit patterns of a sequence of numbers.
pub open spec fn bits_of(numbers: Seq<Float>) -> Seq<u32> {
    Seq::new(numbers.len(), |i: int| numbers[i].bits)
}

/// The matrix that changes nothing.
pub fn identity_transformation() -> (matrix: [Float; 16])
    ensures
        bits_of(matrix@) == identity_words(),
{
    let o = Float::zero();
    let l = Float::one();
    let matrix = [l, o, o, o, o, l, o, o, o, o, l, o, o, o, o, l];
    assert(bits_of(matrix@) =~= identity_words());
    matrix
}

impl Uniforms {
    /// The twenty words of the block: the matrix, the scale factor, the filling.
    pub closed spec fn words(&self) -> Seq<u32> {
        bits_of(self.transform@) + seq![self.scale.bits] + bits_of(self._padding@)
    }

    /// The uniform block for a transformation and a scale factor.
    pub fn new(transformation: [Float; 16], scale: Float) -> (uniforms: Uniforms)
        ensures
            uniforms.words() == uniform_words(bits_of(transformation@), scale.bits),
    {
        let zero = Float::zero();
        let uniforms = Uniforms { transform: transformation, scale, _padding: [zero, zero, zero] };
        assert(uniforms.words() =~= uniform_words(bits_of(transformation@), scale.bits));
        uniforms
    }

    /// The content of the uniform buffer: the block as this machine stores it.
    pub fn bytes(&self) -> (bytes: Vec<u8>)
        ensures
            is_memory_image(bytes@, self.words()),
            bytes@.len() == UNIFORMS_SIZE,
    {
        let mut words: Vec<u32> = Vec::new();
        let mut k: usize = 0;
        while k < 16
            invariant
                k <= 16,
                words@ == bits_of(self.transform@).take(k as int),
            decreases 16 - k,
        {
            words.push(self.transform[k].bits);
            k += 1;
            assert(words@ =~= bits_of(self.transform@).take(k as int));
        }
        words.push(self.scale.bits);
        words.push(self._padding[0].bits);
        words.push(self._padding[1].bits);
        words.push(self._padding[2].bits);
        assert(words@ =~= self.words());
        memory_image(words.as_slice())
    }
}

impl Default for Uniforms {
    /// The block that changes nothing: the identity matrix and the scale one.
    fn default() -> (uniforms: Self)
        ensures
            uniforms.words() == uniform_words(identity_words(), ONE_BITS),
    {
        Uniforms::new(identity_transformation(), Float::one())
    }
}

} // verus!
