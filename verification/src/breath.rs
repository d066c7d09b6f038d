use vstd::prelude::*;

verus! {

/// Number of frames in one breathing period.
pub const BREATH_FRAMES: usize = 30;

/// Brightness at the top of a breath.
pub const BREATH_PEAK: u8 = 0x20;

/// Divisor of the gamma curve: the square of the half period over it is
/// the peak (15 * 15 / 7 == 32).
pub const BREATH_GAMMA_DIV: u32 = 7;

/// Brightness of breath frame `i`: a gamma-2 curve. The brightness grows
/// with the square of the time since the breath began, reaches
/// `BREATH_PEAK` at the half period and falls back the same way, rounded
/// down.
pub open spec fn spec_breath_level(i: int) -> int {
    let half = (BREATH_FRAMES / 2) as int;
    let up = if i <= half { i } else { BREATH_FRAMES as int - i };
    (up * up) / (BREATH_GAMMA_DIV as int)
}

/// The brightness of every frame of one breathing period.
pub fn breath_table() -> (table: [u8; BREATH_FRAMES])
    ensures
        forall|i: int| 0 <= i < BREATH_FRAMES ==> table@[i] == spec_breath_level(i),
{
    let mut table: [u8; BREATH_FRAMES] = [0u8; BREATH_FRAMES];
    let half: u32 = (BREATH_FRAMES / 2) as u32;
    let mut i: u32 = 0;
    while i < BREATH_FRAMES as u32
        invariant
            half == 15,
            i <= BREATH_FRAMES,
            forall|j: int| 0 <= j < i ==> table@[j] == spec_breath_level(j),
        decreases BREATH_FRAMES - i,
    {
        let up: u32 = if i <= half { i } else { BREATH_FRAMES as u32 - i };
        assert(up * up <= 15 * 15) by (nonlinear_arith)
            requires up <= 15;
        let level: u32 = (up * up) / BREATH_GAMMA_DIV;
        assert(level <= 32) by (nonlinear_arith)
            requires level == (up * up) / 7, up * up <= 225;
        table[i as usize] = level as u8;
        i += 1;
    }
    table
}

/// The brightness of each frame of the breath curve.
pub proof fn lemma_breath_values()
    ensures
        spec_breath_level(0) == 0,
        spec_breath_level(1) == 0,
        spec_breath_level(2) == 0,
        spec_breath_level(3) == 1,
        spec_breath_level(4) == 2,
        spec_breath_level(5) == 3,
        spec_breath_level(6) == 5,
        spec_breath_level(7) == 7,
        spec_breath_level(8) == 9,
        spec_breath_level(9) == 11,
        spec_breath_level(10) == 14,
        spec_breath_level(11) == 17,
        spec_breath_level(12) == 20,
        spec_breath_level(13) == 24,
        spec_breath_level(14) == 28,
        spec_breath_level(15) == 32,
        spec_breath_level(16) == 28,
        spec_breath_level(17) == 24,
        spec_breath_level(18) == 20,
        spec_breath_level(19) == 17,
        spec_breath_level(20) == 14,
        spec_breath_level(21) == 11,
        spec_breath_level(22) == 9,
        spec_breath_level(23) == 7,
        spec_breath_level(24) == 5,
        spec_breath_level(25) == 3,
        spec_breath_level(26) == 2,
        spec_breath_level(27) == 1,
        spec_breath_level(28) == 0,
        spec_breath_level(29) == 0,
{
    assert(spec_breath_level(0) == 0) by {
        assert(0int * 0int / 7 == 0) by (nonlinear_arith);
    }
    assert(spec_breath_level(1) == 0) by {
        assert(1int * 1int / 7 == 0) by (nonlinear_arith);
    }
    assert(spec_breath_level(2) == 0) by {
        assert(2int * 2int / 7 == 0) by (nonlinear_arith);
    }
    assert(spec_breath_level(3) == 1) by {
        assert(3int * 3int / 7 == 1) by (nonlinear_arith);
    }
    assert(spec_breath_level(4) == 2) by {
        assert(4int * 4int / 7 == 2) by (nonlinear_arith);
    }
    assert(spec_breath_level(5) == 3) by {
        assert(5int * 5int / 7 == 3) by (nonlinear_arith);
    }
    assert(spec_breath_level(6) == 5) by {
        assert(6int * 6int / 7 == 5) by (nonlinear_arith);
    }
    assert(spec_breath_level(7) == 7) by {
        assert(7int * 7int / 7 == 7) by (nonlinear_arith);
    }
    assert(spec_breath_level(8) == 9) by {
        assert(8int * 8int / 7 == 9) by (nonlinear_arith);
    }
    assert(spec_breath_level(9) == 11) by {
        assert(9int * 9int / 7 == 11) by (nonlinear_arith);
    }
    assert(spec_breath_level(10) == 14) by {
        assert(10int * 10int / 7 == 14) by (nonlinear_arith);
    }
    assert(spec_breath_level(11) == 17) by {
        assert(11int * 11int / 7 == 17) by (nonlinear_arith);
    }
    assert(spec_breath_level(12) == 20) by {
        assert(12int * 12int / 7 == 20) by (nonlinear_arith);
    }
    assert(spec_breath_level(13) == 24) by {
        assert(13int * 13int / 7 == 24) by (nonlinear_arith);
    }
    assert(spec_breath_level(14) == 28) by {
        assert(14int * 14int / 7 == 28) by (nonlinear_arith);
    }
    assert(spec_breath_level(15) == 32) by {
        assert(15int * 15int / 7 == 32) by (nonlinear_arith);
    }
    assert(spec_breath_level(16) == 28) by {
        assert(14int * 14int / 7 == 28) by (nonlinear_arith);
    }
    assert(spec_breath_level(17) == 24) by {
        assert(13int * 13int / 7 == 24) by (nonlinear_arith);
    }
    assert(spec_breath_level(18) == 20) by {
        assert(12int * 12int / 7 == 20) by (nonlinear_arith);
    }
    assert(spec_breath_level(19) == 17) by {
        assert(11int * 11int / 7 == 17) by (nonlinear_arith);
    }
    assert(spec_breath_level(20) == 14) by {
        assert(10int * 10int / 7 == 14) by (nonlinear_arith);
    }
    assert(spec_breath_level(21) == 11) by {
        assert(9int * 9int / 7 == 11) by (nonlinear_arith);
    }
    assert(spec_breath_level(22) == 9) by {
        assert(8int * 8int / 7 == 9) by (nonlinear_arith);
    }
    assert(spec_breath_level(23) == 7) by {
        assert(7int * 7int / 7 == 7) by (nonlinear_arith);
    }
    assert(spec_breath_level(24) == 5) by {
        assert(6int * 6int / 7 == 5) by (nonlinear_arith);
    }
    assert(spec_breath_level(25) == 3) by {
        assert(5int * 5int / 7 == 3) by (nonlinear_arith);
    }
    assert(spec_breath_level(26) == 2) by {
        assert(4int * 4int / 7 == 2) by (nonlinear_arith);
    }
    assert(spec_breath_level(27) == 1) by {
        assert(3int * 3int / 7 == 1) by (nonlinear_arith);
    }
    assert(spec_breath_level(28) == 0) by {
        assert(2int * 2int / 7 == 0) by (nonlinear_arith);
    }
    assert(spec_breath_level(29) == 0) by {
        assert(1int * 1int / 7 == 0) by (nonlinear_arith);
    }
}

/// The breath curve starts and ends dark, peaks at `BREATH_PEAK` at the
/// half period, is symmetric about it, and never exceeds the peak. Its rise
/// is convex (each step at least as large as the one before, as a gamma
/// curve), and from one frame to the next, round the period, it moves by at
/// most 4.
pub proof fn lemma_breath_shape()
    ensures
        spec_breath_level(0) == 0,
        spec_breath_level(BREATH_FRAMES - 1) == 0,
        spec_breath_level(15) == BREATH_PEAK,
        forall|i: int| 0 <= i < BREATH_FRAMES ==> 0 <= #[trigger] spec_breath_level(i) <= BREATH_PEAK,
        forall|i: int| 0 < i < BREATH_FRAMES ==> #[trigger] spec_breath_level(i) == spec_breath_level(BREATH_FRAMES - i),
        forall|i: int| 1 <= i < 15 ==> #[trigger] spec_breath_level(i + 1) - spec_breath_level(i) >= spec_breath_level(i) - spec_breath_level(i - 1),
        forall|i: int, j: int| 0 <= i <= j <= 15 ==> #[trigger] spec_breath_level(i) <= #[trigger] spec_breath_level(j),
        forall|i: int| 0 <= i < BREATH_FRAMES ==> -4 <= #[trigger] spec_breath_level((i + 1) % (BREATH_FRAMES as int)) - spec_breath_level(i) <= 4,
{
    lemma_breath_values();
}

} // verus!
