//! Buffer-size alignment for the audio hardware.
//!
//! Buffers handed to the audio devices must have a capacity that is a
//! multiple of the hardware page size (4096 bytes). The capacity chosen for
//! a requested payload size is the smallest such multiple that still holds
//! the payload.

use vstd::prelude::*;

verus! {

/// Alignment boundary required by the audio hardware, in bytes.
pub const AUDIO_ALIGNMENT: u64 = 4096;

/// The smallest multiple of 4096 that is at least `size`.
pub open spec fn spec_align_up(size: u64) -> int {
    if size % 4096 == 0 {
        size as int
    } else {
        size + 4096 - size % 4096
    }
}

/// Rounds a requested buffer size up to the hardware alignment boundary.
pub fn align_buffer_size(size: u64) -> (r: u64)
    requires
        size <= u64::MAX - 0xfff,
    ensures
        r == spec_align_up(size),
        r % 4096 == 0,
        r >= size,
        r < size + 4096,
{
    let r = (size + 0xfff) & !0xfff;
    proof {
        let s = ((size + 0xfff) as u64) & !0xfff;
        assert(s % 4096 == 0 && s >= size && s < size + 4096 && s == spec_align_up(size))
            by (bit_vector)
            requires
                size <= u64::MAX - 0xfff,
                s == ((size + 0xfff) as u64) & !0xfff,
        ;
    }
    r
}

/// Rounding up to the alignment boundary is minimal: no smaller multiple of
/// 4096 holds the requested size.
pub proof fn lemma_align_up_minimal(size: u64, m: u64)
    requires
        size <= u64::MAX - 0xfff,
        m % 4096 == 0,
        m >= size,
    ensures
        spec_align_up(size) <= m,
{
    if size % 4096 == 0 {
    } else {
        let a = spec_align_up(size);
        assert(a % 4096 == 0) by {
            assert((size + 4096 - size % 4096) % 4096 == 0) by (nonlinear_arith);
        }
        if m < a {
            assert(a - m < 4096) by {
                assert(a - size < 4096);
            }
            assert((a - m) % 4096 == 0) by {
                lemma_mod_diff(a as int, m as int, 4096);
            }
            assert(false);
        }
    }
}

/// For multiples of one modulus, a difference of two of them is a multiple too.
proof fn lemma_mod_diff(a: int, b: int, n: int)
    requires
        n > 0,
        a % n == 0,
        b % n == 0,
        a >= b,
    ensures
        (a - b) % n == 0,
{
    let ka = a / n;
    let kb = b / n;
    assert(a == ka * n) by (nonlinear_arith)
        requires
            n > 0,
            a % n == 0,
            ka == a / n,
    ;
    assert(b == kb * n) by (nonlinear_arith)
        requires
            n > 0,
            b % n == 0,
            kb == b / n,
    ;
    assert((ka * n - kb * n) == (ka - kb) * n) by (nonlinear_arith);
    assert(((ka - kb) * n) % n == 0) by (nonlinear_arith)
        requires
            n > 0,
    ;
}

} // verus!
