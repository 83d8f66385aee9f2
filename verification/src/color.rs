//! The colour of the material, in the form in which the shader reads it.

use vstd::prelude::*;

verus! {

/// A colour in linear RGBA. Each channel is held as the bit pattern of a
/// single-precision number, so that a colour is plain data to compare and to
/// lay out.
#[derive(Clone, Copy, Debug, PartialEq, Eq)]
pub struct LinearRgba {
    pub red: u32,
    pub green: u32,
    pub blue: u32,
    pub alpha: u32,
}

/// The four bytes of a word, least significant first.
pub open spec fn word_bytes(word: u32) -> Seq<u8> {
    seq![
        (word & 0xff) as u8,
        ((word >> 8) & 0xff) as u8,
        ((word >> 16) & 0xff) as u8,
        ((word >> 24) & 0xff) as u8,
    ]
}

/// A word can be read back from its bytes: no two words have the same.
pub proof fn word_bytes_determine_word(a: u32, b: u32)
    requires
        word_bytes(a) == word_bytes(b),
    ensures
        a == b,
{
    let x = word_bytes(a);
    let y = word_bytes(b);
    assert(x[0] == y[0] && x[1] == y[1] && x[2] == y[2] && x[3] == y[3]);
    assert(a == b) by (bit_vector)
        requires
            (a & 0xff) as u8 == (b & 0xff) as u8,
            ((a >> 8) & 0xff) as u8 == ((b >> 8) & 0xff) as u8,
            ((a >> 16) & 0xff) as u8 == ((b >> 16) & 0xff) as u8,
            ((a >> 24) & 0xff) as u8 == ((b >> 24) & 0xff) as u8,
    ;
}

impl LinearRgba {
    /// The colour as a four-component vector in a uniform buffer: red, green,
    /// blue, alpha, four bytes each.
    pub open spec fn uniform_block(self) -> Seq<u8> {
        word_bytes(self.red) + word_bytes(self.green) + word_bytes(self.blue) + word_bytes(
            self.alpha,
        )
    }

    /// Every colour takes 16 bytes in a uniform buffer.
    pub proof fn uniform_block_has_fixed_len(self)
        ensures
            self.uniform_block().len() == 16,
    {
    }

    /// The shader can tell any two colours apart: what is laid out differs
    /// wherever the colours do.
    pub proof fn uniform_block_determines_color(self, other: LinearRgba)
        requires
            self.uniform_block() == other.uniform_block(),
        ensures
            self == other,
    {
        let x = self.uniform_block();
        let y = other.uniform_block();
        assert(word_bytes(self.red) =~= x.subrange(0, 4));
        assert(word_bytes(self.green) =~= x.subrange(4, 8));
        assert(word_bytes(self.blue) =~= x.subrange(8, 12));
        assert(word_bytes(self.alpha) =~= x.subrange(12, 16));
        assert(word_bytes(other.red) =~= y.subrange(0, 4));
        assert(word_bytes(other.green) =~= y.subrange(4, 8));
        assert(word_bytes(other.blue) =~= y.subrange(8, 12));
        assert(word_bytes(other.alpha) =~= y.subrange(12, 16));
        word_bytes_determine_word(self.red, other.red);
        word_bytes_determine_word(self.green, other.green);
        word_bytes_determine_word(self.blue, other.blue);
        word_bytes_determine_word(self.alpha, other.alpha);
    }

    /// Lays the colour out for a uniform buffer.
    pub fn to_uniform_block(&self) -> (block: Vec<u8>)
        ensures
            block@ == self.uniform_block(),
    {
        let mut block: Vec<u8> = Vec::with_capacity(16);
        push_word(&mut block, self.red);
        push_word(&mut block, self.green);
        push_word(&mut block, self.blue);
        push_word(&mut block, self.alpha);
        block
    }
}

/// Appends the bytes of a word to a block.
fn push_word(block: &mut Vec<u8>, word: u32)
    ensures
        final(block)@ == old(block)@ + word_bytes(word),
{
    assert(word & 0xff < 0x100 && (word >> 8) & 0xff < 0x100 && (word >> 16) & 0xff < 0x100 && (word
        >> 24) & 0xff < 0x100) by (bit_vector);
    block.push((word & 0xff) as u8);
    block.push(((word >> 8) & 0xff) as u8);
    block.push(((word >> 16) & 0xff) as u8);
    block.push(((word >> 24) & 0xff) as u8);
}

} // verus!
