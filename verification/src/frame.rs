use vstd::prelude::*;
use crate::color::Grb;

verus! {

/// PWM counter top: one bit slot of the WS2812 signal lasts this many ticks.
pub const PWM_TOP: u16 = 20;

/// Duty word for a 0 bit (short high pulse; bit 15 sets the polarity).
pub const W0: u16 = 0x8000 | 6;

/// Duty word for a 1 bit (long high pulse).
pub const W1: u16 = 0x8000 | 13;

/// Duty word of the low reset gap that latches the pixels.
pub const WRESET: u16 = 0x8000;

/// Bit slots that carry colour data: two pixels of three bytes.
pub const SEQ_BITS: usize = 2 * 3 * 8;

/// Slots of reset gap after the data.
pub const SEQ_RESET: usize = 40;

/// Length of one PWM sequence.
pub const SEQ_LEN: usize = SEQ_BITS + SEQ_RESET;

/// Bit `j` of `byte`, counting from the most significant bit (`j == 0`).
pub open spec fn byte_bit(byte: u8, j: int) -> bool {
    ((byte >> ((7 - j) as u8)) & 1u8) == 1u8
}

/// The slot word that sends bit `j` of `byte`.
pub open spec fn bit_word(byte: u8, j: int) -> u16 {
    if byte_bit(byte, j) { W1 } else { W0 }
}

/// The six bytes of one frame, in wire order: inner pixel first, each pixel
/// green, red, blue.
pub open spec fn frame_bytes(inner: Grb, outer: Grb) -> Seq<u8> {
    seq![inner.g, inner.r, inner.b, outer.g, outer.r, outer.b]
}

/// The PWM sequence that shows `inner` and `outer`: every byte sent most
/// significant bit first, one slot per bit, then the reset gap.
pub open spec fn spec_frame(inner: Grb, outer: Grb) -> Seq<u16> {
    Seq::new(
        SEQ_LEN as nat,
        |k: int|
            if k < SEQ_BITS {
                bit_word(frame_bytes(inner, outer)[k / 8], k % 8)
            } else {
                WRESET
            },
    )
}

/// The weight `weight` if the slot word `w` sends a 1 bit, else 0.
pub open spec fn word_bit(w: u16, weight: u8) -> u8 {
    if w == W1 { weight } else { 0 }
}

/// The byte that a WS2812 reads from the eight slots starting at `start`.
pub open spec fn decode_byte(f: Seq<u16>, start: int) -> u8 {
    word_bit(f[start], 128) | word_bit(f[start + 1], 64) | word_bit(f[start + 2], 32)
        | word_bit(f[start + 3], 16) | word_bit(f[start + 4], 8) | word_bit(f[start + 5], 4)
        | word_bit(f[start + 6], 2) | word_bit(f[start + 7], 1)
}

/// The two colours that the pixel chain takes from a sequence.
pub open spec fn decode_frame(f: Seq<u16>) -> (Grb, Grb) {
    (
        Grb { g: decode_byte(f, 0), r: decode_byte(f, 8), b: decode_byte(f, 16) },
        Grb { g: decode_byte(f, 24), r: decode_byte(f, 32), b: decode_byte(f, 40) },
    )
}

proof fn lemma_byte_from_bits(b: u8)
    by (bit_vector)
    ensures
        (if (b >> 7u8) & 1u8 == 1u8 { 128u8 } else { 0u8 })
            | (if (b >> 6u8) & 1u8 == 1u8 { 64u8 } else { 0u8 })
            | (if (b >> 5u8) & 1u8 == 1u8 { 32u8 } else { 0u8 })
            | (if (b >> 4u8) & 1u8 == 1u8 { 16u8 } else { 0u8 })
            | (if (b >> 3u8) & 1u8 == 1u8 { 8u8 } else { 0u8 })
            | (if (b >> 2u8) & 1u8 == 1u8 { 4u8 } else { 0u8 })
            | (if (b >> 1u8) & 1u8 == 1u8 { 2u8 } else { 0u8 })
            | (if (b >> 0u8) & 1u8 == 1u8 { 1u8 } else { 0u8 }) == b,
{
}

proof fn lemma_decode_byte(f: Seq<u16>, start: int, b: u8)
    requires
        0 <= start,
        start + 8 <= f.len(),
        forall|j: int| 0 <= j < 8 ==> #[trigger] f[start + j] == bit_word(b, j),
    ensures
        decode_byte(f, start) == b,
{
    assert(W1 != W0) by (bit_vector);
    assert(f[start] == f[start + 0]);
    assert(f[start + 0] == bit_word(b, 0));
    assert(f[start + 1] == bit_word(b, 1));
    assert(f[start + 2] == bit_word(b, 2));
    assert(f[start + 3] == bit_word(b, 3));
    assert(f[start + 4] == bit_word(b, 4));
    assert(f[start + 5] == bit_word(b, 5));
    assert(f[start + 6] == bit_word(b, 6));
    assert(f[start + 7] == bit_word(b, 7));
    assert(word_bit(f[start], 128) == (if (b >> 7u8) & 1u8 == 1u8 { 128u8 } else { 0u8 }));
    assert(word_bit(f[start + 1], 64) == (if (b >> 6u8) & 1u8 == 1u8 { 64u8 } else { 0u8 }));
    assert(word_bit(f[start + 2], 32) == (if (b >> 5u8) & 1u8 == 1u8 { 32u8 } else { 0u8 }));
    assert(word_bit(f[start + 3], 16) == (if (b >> 4u8) & 1u8 == 1u8 { 16u8 } else { 0u8 }));
    assert(word_bit(f[start + 4], 8) == (if (b >> 3u8) & 1u8 == 1u8 { 8u8 } else { 0u8 }));
    assert(word_bit(f[start + 5], 4) == (if (b >> 2u8) & 1u8 == 1u8 { 4u8 } else { 0u8 }));
    assert(word_bit(f[start + 6], 2) == (if (b >> 1u8) & 1u8 == 1u8 { 2u8 } else { 0u8 }));
    assert(word_bit(f[start + 7], 1) == (if (b >> 0u8) & 1u8 == 1u8 { 1u8 } else { 0u8 }));
    lemma_byte_from_bits(b);
}

/// Decoding the sequence that `encode` writes gives back the two colours it
/// was given: the pixels show exactly what was asked.
pub proof fn lemma_frame_round_trip(inner: Grb, outer: Grb)
    ensures
        decode_frame(spec_frame(inner, outer)) == (inner, outer),
{
    let f = spec_frame(inner, outer);
    let bytes = frame_bytes(inner, outer);
    assert forall|i: int, j: int| 0 <= i < 6 && 0 <= j < 8 implies #[trigger] f[8 * i + j]
        == bit_word(bytes[i], j) by {
        assert((8 * i + j) / 8 == i);
        assert((8 * i + j) % 8 == j);
    }
    assert forall|j: int| 0 <= j < 8 implies #[trigger] f[0 + j] == bit_word(inner.g, j) by {
        assert(f[8 * 0 + j] == bit_word(bytes[0], j));
    }
    assert forall|j: int| 0 <= j < 8 implies #[trigger] f[8 + j] == bit_word(inner.r, j) by {
        assert(f[8 * 1 + j] == bit_word(bytes[1], j));
    }
    assert forall|j: int| 0 <= j < 8 implies #[trigger] f[16 + j] == bit_word(inner.b, j) by {
        assert(f[8 * 2 + j] == bit_word(bytes[2], j));
    }
    assert forall|j: int| 0 <= j < 8 implies #[trigger] f[24 + j] == bit_word(outer.g, j) by {
        assert(f[8 * 3 + j] == bit_word(bytes[3], j));
    }
    assert forall|j: int| 0 <= j < 8 implies #[trigger] f[32 + j] == bit_word(outer.r, j) by {
        assert(f[8 * 4 + j] == bit_word(bytes[4], j));
    }
    assert forall|j: int| 0 <= j < 8 implies #[trigger] f[40 + j] == bit_word(outer.b, j) by {
        assert(f[8 * 5 + j] == bit_word(bytes[5], j));
    }
    lemma_decode_byte(f, 0, inner.g);
    lemma_decode_byte(f, 8, inner.r);
    lemma_decode_byte(f, 16, inner.b);
    lemma_decode_byte(f, 24, outer.g);
    lemma_decode_byte(f, 32, outer.r);
    lemma_decode_byte(f, 40, outer.b);
}

proof fn lemma_shift_step(byte: u8, value: u8, j: u8)
    by (bit_vector)
    requires
        j < 8,
        value == byte << j,
    ensures
        ((value & 0x80u8) != 0u8) == (((byte >> ((7u8 - j) as u8)) & 1u8) == 1u8),
        (value << 1u8) == byte << (j + 1u8),
{
}

/// Writes the PWM sequence that shows `inner` on the first pixel and `outer`
/// on the second into `buf`.
pub fn encode(buf: &mut [u16; SEQ_LEN], inner: Grb, outer: Grb)
    ensures
        final(buf)@ == spec_frame(inner, outer),
{
    let bytes: [u8; 6] = [inner.g, inner.r, inner.b, outer.g, outer.r, outer.b];
    let ghost frame = spec_frame(inner, outer);
    assert(bytes@ == frame_bytes(inner, outer));
    let mut k: usize = 0;
    let mut i: usize = 0;
    while i < 6
        invariant
            0 <= i <= 6,
            k == 8 * i,
            buf@.len() == SEQ_LEN,
            bytes@ == frame_bytes(inner, outer),
            frame == spec_frame(inner, outer),
            forall|m: int| 0 <= m < k ==> buf@[m] == #[trigger] frame[m],
        decreases 6 - i,
    {
        let byte = bytes[i];
        let mut value: u8 = byte;
        assert(byte << 0u8 == byte) by (bit_vector);
        let mut j: u8 = 0;
        while j < 8
            invariant
                0 <= j <= 8,
                i < 6,
                k == 8 * i + j,
                byte == bytes@[i as int],
                value == byte << j,
                buf@.len() == SEQ_LEN,
                bytes@ == frame_bytes(inner, outer),
                frame == spec_frame(inner, outer),
                forall|m: int| 0 <= m < k ==> buf@[m] == #[trigger] frame[m],
            decreases 8 - j,
        {
            proof {
                lemma_shift_step(byte, value, j);
                assert(k / 8 == i && k % 8 == j) by (nonlinear_arith)
                    requires k == 8 * i + j, j < 8;
            }
            let word: u16 = if value & 0x80 != 0 { W1 } else { W0 };
            assert(word == frame[k as int]);
            buf[k] = word;
            k += 1;
            value = value << 1;
            j += 1;
        }
        i += 1;
    }
    while k < SEQ_LEN
        invariant
            SEQ_BITS <= k <= SEQ_LEN,
            buf@.len() == SEQ_LEN,
            frame == spec_frame(inner, outer),
            forall|m: int| 0 <= m < k ==> buf@[m] == #[trigger] frame[m],
        decreases SEQ_LEN - k,
    {
        buf[k] = WRESET;
        k += 1;
    }
    assert(buf@ =~= frame);
}

/// A frame is 88 slots: the 48 data slots each carry a 0 pulse (duty 6)
/// or a 1 pulse (duty 13), the 40 after them are the low reset gap.
pub proof fn lemma_frame_layout(inner: Grb, outer: Grb)
    ensures
        spec_frame(inner, outer).len() == 88,
        forall|k: int| 0 <= k < 48 ==> #[trigger] spec_frame(inner, outer)[k] == 0x8006u16 || spec_frame(inner, outer)[k] == 0x800du16,
        forall|k: int| 48 <= k < 88 ==> #[trigger] spec_frame(inner, outer)[k] == 0x8000u16,
{
    assert(W0 == 0x8006u16 && W1 == 0x800du16 && WRESET == 0x8000u16) by (bit_vector);
}

} // verus!
