//! Bit-level facts about masking and shifting bytes and 16-bit words,
//! stated once and used by the device registers.
use vstd::prelude::*;

verus! {

/// Masks and shifts of a byte as arithmetic.
pub proof fn lemma_byte_bits()
    by (bit_vector)
    ensures
        forall|a: u8| #[trigger] (a & 0x1F) == a % 32,
        forall|a: u8| #[trigger] (a & 0x0F) == a % 16,
        forall|a: u8| (#[trigger] (a & 0x80) != 0) == (a >= 0x80),
        forall|a: u8| #[trigger] (a & !0x01u8) == (a & 0xFE),
        forall|a: u8| #[trigger] ((a & 0x3F) << 2u8) == (a % 64) * 4,
        forall|a: u8| #[trigger] (a >> 2u8) == a / 4,
        forall|a: u8| #[trigger] ((a & 0xFE) & 1) == 0,
        forall|a: u8| #[trigger] ((a | 1) & 1) == 1,
{
}

/// The two bytes of a 16-bit word as arithmetic.
pub proof fn lemma_word_bits()
    by (bit_vector)
    ensures
        forall|c: u16| #[trigger] ((c >> 8u16) & 0xFF) == c / 256,
        forall|c: u16| #[trigger] (c & 0xFF) == c % 256,
        forall|c: u16, d: u16| d < 256 ==> #[trigger] ((c & 0xFF00) | d) == (c / 256) * 256 + d,
        forall|c: u16, d: u16| d < 256 ==> #[trigger] ((c & 0xFF) | (d << 8u16)) == c % 256 + d * 256,
{
}

} // verus!
