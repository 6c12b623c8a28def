//! How 32-bit words lie in memory, byte by byte.

use vstd::prelude::*;
use vstd::slice::slice_to_vec;
use crate::outside::words_as_bytes;

verus! {

/// The order in which a machine stores the four bytes of a word.
#[derive(Clone, Copy, Debug, PartialEq, Eq, Structural)]
pub enum ByteOrder {
    /// Least significant byte first.
    Little,
    /// Most significant byte first.
    Big,
}

/// The byte of `word` with weight `256^k`, for `k` from 0 to 3.
pub open spec fn byte_of_weight(word: u32, k: int) -> u8 {
    if k == 0 {
        (word % 256) as u8
    } else if k == 1 {
        (word / 0x100 % 256) as u8
    } else if k == 2 {
        (word / 0x1_0000 % 256) as u8
    } else {
        (word / 0x100_0000) as u8
    }
}

/// The byte at offset `k` of `word` as stored in the given order.
pub open spec fn byte_at(order: ByteOrder, word: u32, k: int) -> u8 {
    match order {
        ByteOrder::Little => byte_of_weight(word, k),
        ByteOrder::Big => byte_of_weight(word, 3 - k),
    }
}

/// The bytes of `words` as stored one after the other in the given order.
pub open spec fn image(order: ByteOrder, words: Seq<u32>) -> Seq<u8> {
    Seq::new(4 * words.len(), |i: int| byte_at(order, words[i / 4], i % 4))
}

/// `bytes` is how `words` lie in the memory of some machine.
pub open spec fn is_memory_image(bytes: Seq<u8>, words: Seq<u32>) -> bool {
    bytes == image(ByteOrder::Little, words) || bytes == image(ByteOrder::Big, words)
}

/// The bytes of `words` as this machine stores them.
pub fn memory_image(words: &[u32]) -> (bytes: Vec<u8>)
    ensures
        is_memory_image(bytes@, words@),
        bytes@.len() == 4 * words@.len(),
{
    slice_to_vec(words_as_bytes(words))
}

/// The image of a concatenation is the concatenation of the images.
pub proof fn lemma_image_concat(order: ByteOrder, a: Seq<u32>, b: Seq<u32>)
    ensures
        image(order, a + b) == image(order, a) + image(order, b),
{
    let whole = image(order, a + b);
    let parts = image(order, a) + image(order, b);
    assert(whole.len() == parts.len());
    assert forall|i: int| 0 <= i < whole.len() implies whole[i] == parts[i] by {
        if i < 4 * a.len() {
            assert((a + b)[i / 4] == a[i / 4]);
        } else {
            let j = i - 4 * a.len();
            assert(j / 4 == i / 4 - a.len());
            assert(j % 4 == i % 4);
            assert((a + b)[i / 4] == b[j / 4]);
        }
    }
    assert(whole =~= parts);
}

/// A word is its four bytes: words with equal images are equal.
pub proof fn lemma_image_injective(order: ByteOrder, a: Seq<u32>, b: Seq<u32>)
    requires
        image(order, a) == image(order, b),
    ensures
        a == b,
{
    assert(image(order, a).len() == 4 * a.len());
    assert(image(order, b).len() == 4 * b.len());
    assert forall|n: int| 0 <= n < a.len() implies a[n] == b[n] by {
        let x = a[n];
        let y = b[n];
        assert forall|k: int| 0 <= k < 4 implies byte_at(order, x, k) == byte_at(order, y, k) by {
            let i = 4 * n + k;
            assert(i / 4 == n && i % 4 == k);
            assert(image(order, a)[i] == byte_at(order, a[i / 4], i % 4));
            assert(image(order, b)[i] == byte_at(order, b[i / 4], i % 4));
        }
        assert(byte_at(order, x, 0) == byte_at(order, y, 0));
        assert(byte_at(order, x, 1) == byte_at(order, y, 1));
        assert(byte_at(order, x, 2) == byte_at(order, y, 2));
        assert(byte_at(order, x, 3) == byte_at(order, y, 3));
        assert(x == y);
    }
    assert(a =~= b);
}

} // verus!
