//! The tone player: a fixed table of twelve note frequencies indexed by
//! button, the per-frame latch that defers a pressed note to the end of the
//! frame, and the packing of 16-bit samples into interleaved stereo frames.
//!
//! The sample values themselves come from a sine evaluation outside this
//! crate; here they are taken as the bit pattern of a 16-bit signed PCM
//! value and duplicated into the left and right channel slots of each
//! stereo frame word.

use crate::audio::BufferSlot;
use crate::input::spec_exit_requested;
use crate::input::KEY_A;
use crate::input::KEY_B;
use crate::input::KEY_DDOWN;
use crate::input::KEY_DLEFT;
use crate::input::KEY_DRIGHT;
use crate::input::KEY_DUP;
use crate::input::KEY_L;
use crate::input::KEY_PLUS;
use crate::input::KEY_R;
use crate::input::KEY_X;
use crate::input::KEY_Y;
use crate::input::KEY_ZL;
use crate::input::KEY_ZR;
use vstd::prelude::*;

verus! {

/// The note frequency a newly-pressed button mask selects, if any: the
/// fixed twelve-entry tone table of the player, indexed by button. A mask
/// that is not exactly one of the mapped buttons selects nothing.
pub open spec fn spec_tone_for_keys(keys: u32) -> Option<u32> {
    if keys == KEY_A {
        Some(220u32)
    } else if keys == KEY_B {
        Some(440u32)
    } else if keys == KEY_Y {
        Some(880u32)
    } else if keys == KEY_X {
        Some(1760u32)
    } else if keys == KEY_DLEFT {
        Some(3520u32)
    } else if keys == KEY_DUP {
        Some(7040u32)
    } else if keys == KEY_DRIGHT {
        Some(14080u32)
    } else if keys == KEY_DDOWN {
        Some(7040u32)
    } else if keys == KEY_L {
        Some(3520u32)
    } else if keys == KEY_R {
        Some(1760u32)
    } else if keys == KEY_ZL {
        Some(880u32)
    } else if keys == KEY_ZR {
        Some(440u32)
    } else {
        None
    }
}

/// Looks the frame's newly-pressed button mask up in the tone table.
pub fn tone_for_keys(keys: u32) -> (r: Option<u32>)
    ensures
        r == spec_tone_for_keys(keys),
{
    if keys == KEY_A {
        Some(220)
    } else if keys == KEY_B {
        Some(440)
    } else if keys == KEY_Y {
        Some(880)
    } else if keys == KEY_X {
        Some(1760)
    } else if keys == KEY_DLEFT {
        Some(3520)
    } else if keys == KEY_DUP {
        Some(7040)
    } else if keys == KEY_DRIGHT {
        Some(14080)
    } else if keys == KEY_DDOWN {
        Some(7040)
    } else if keys == KEY_L {
        Some(3520)
    } else if keys == KEY_R {
        Some(1760)
    } else if keys == KEY_ZL {
        Some(880)
    } else if keys == KEY_ZR {
        Some(440)
    } else {
        None
    }
}

/// What the tone player does at the end of a frame.
#[derive(Clone, Copy, Debug, PartialEq, Eq, Structural)]
pub enum ToneAction {
    /// The exit button was pressed: tear down and stop; no device call is
    /// made this frame or later.
    Exit,
    /// Fill the playback buffer with a tone of this frequency and submit it.
    Play(u32),
    /// Nothing to play this frame; no device call is made.
    Idle,
}

/// The per-frame step of the tone player, on the latched frequency carried
/// over from the previous frame and this frame's newly-pressed mask: a
/// newly pressed note replaces the latch, the latch (if any) is played
/// exactly once and cleared, and the exit button stops the loop instead.
pub open spec fn spec_playtone_step(latched: Option<u32>, keys: u32) -> (Option<u32>, ToneAction) {
    if spec_exit_requested(keys) {
        (latched, ToneAction::Exit)
    } else {
        let selected = if spec_tone_for_keys(keys) is Some {
            spec_tone_for_keys(keys)
        } else {
            latched
        };
        match selected {
            Some(frequency) => (None, ToneAction::Play(frequency)),
            None => (None, ToneAction::Idle),
        }
    }
}

/// Runs one frame of the tone player's dispatch: decides what to do with
/// this frame's newly-pressed mask and returns the latch for the next frame
/// together with the action to perform.
pub fn playtone_step(latched: Option<u32>, keys: u32) -> (r: (Option<u32>, ToneAction))
    ensures
        r == spec_playtone_step(latched, keys),
{
    if keys & KEY_PLUS == KEY_PLUS {
        (latched, ToneAction::Exit)
    } else {
        let selected = match tone_for_keys(keys) {
            Some(frequency) => Some(frequency),
            None => latched,
        };
        match selected {
            Some(frequency) => (None, ToneAction::Play(frequency)),
            None => (None, ToneAction::Idle),
        }
    }
}

/// Exit-button law for the tone player: on every frame, the step commands
/// an exit exactly when the exit button is in the newly-pressed set, and a
/// frame that exits commands no playback — no device is touched once the
/// exit signal is seen.
pub proof fn lemma_playtone_exit(latched: Option<u32>, keys: u32)
    ensures
        spec_playtone_step(latched, keys).1 == ToneAction::Exit <==> spec_exit_requested(keys),
        spec_exit_requested(keys) ==> forall|f: u32|
            spec_playtone_step(latched, keys).1 != ToneAction::Play(f),
{
}

/// The latch is consumed within the frame that plays it: after any frame
/// that does not exit, the latch handed to the next frame is empty.
pub proof fn lemma_latch_cleared(latched: Option<u32>, keys: u32)
    ensures
        !spec_exit_requested(keys) ==> spec_playtone_step(latched, keys).0 is None,
{
}

/// One interleaved stereo frame word holding the same 16-bit sample in the
/// left and right channel slots.
pub open spec fn spec_stereo_word(sample: u16) -> u32 {
    ((sample as u32) << 16) | (sample as u32)
}

/// Packs one 16-bit sample into a stereo frame word, the identical value in
/// both the left and the right channel slot.
pub fn stereo_frame_word(sample: u16) -> (r: u32)
    ensures
        r == spec_stereo_word(sample),
        r & 0xffff == sample,
        (r >> 16) & 0xffff == sample,
{
    let r = ((sample as u32) << 16) | (sample as u32);
    proof {
        let s = sample as u32;
        assert(((s << 16) | s) & 0xffff == s && (((s << 16) | s) >> 16) & 0xffff == s)
            by (bit_vector)
            requires
                s < 0x10000,
        ;
    }
    r
}

/// The four bytes of a stereo frame word in the order they sit in the
/// buffer, least significant first.
pub open spec fn spec_word_bytes(w: u32) -> Seq<u8> {
    seq![
        (w & 0xff) as u8,
        ((w >> 8) & 0xff) as u8,
        ((w >> 16) & 0xff) as u8,
        ((w >> 24) & 0xff) as u8,
    ]
}

/// Quarter-period tone law. At 440 Hz and a 48000 Hz sample rate the
/// quarter period falls on sample index 27 (48000 / (4 · 440) in whole
/// samples), and there the sine amplitude is about 30% of the maximum
/// positive 16-bit value (0.3 · 32767 ≈ 9830); the amplitude value itself
/// comes from the sine evaluation outside this crate, so it enters here as
/// an assumption on the sample sequence. For any buffer region filled from
/// such samples — `fill_audio_buffer`'s postcondition is exactly the
/// region hypothesis — the first frame word is silent and frame word 27
/// carries the quarter-period sample twice, once per channel, in its two
/// little-endian byte pairs.
pub proof fn lemma_tone_quarter_period(samples: Seq<u16>, region: Seq<u8>)
    requires
        samples.len() >= 28,
        region.len() == samples.len() * 4,
        forall|k: int|
            0 <= k < samples.len() ==> #[trigger] region.subrange(4 * k, 4 * k + 4)
                == spec_word_bytes(spec_stereo_word(samples[k])),
        samples[0] == 0,
        9700 <= samples[27] <= 9831,
    ensures
        48000int / (4int * 440int) == 27int,
        forall|b: int| 0 <= b < 4 ==> region[b] == 0,
        region[108] == (samples[27] & 0xff) as u8,
        region[109] == ((samples[27] >> 8) & 0xff) as u8,
        region[110] == region[108],
        region[111] == region[109],
{
    let k27: int = 27;
    let s = samples[27];
    let w = spec_stereo_word(s);
    assert((w & 0xff) as u8 == (s & 0xff) as u8 && ((w >> 8) & 0xff) as u8 == ((s >> 8)
        & 0xff) as u8 && ((w >> 16) & 0xff) as u8 == (s & 0xff) as u8 && ((w >> 24)
        & 0xff) as u8 == ((s >> 8) & 0xff) as u8) by (bit_vector)
        requires
            w == ((s as u32) << 16) | (s as u32),
    ;
    assert(region.subrange(4 * k27, 4 * k27 + 4) == spec_word_bytes(spec_stereo_word(
        samples[k27],
    )));
    assert(region[108] == region.subrange(4 * k27, 4 * k27 + 4)[0]);
    assert(region[109] == region.subrange(4 * k27, 4 * k27 + 4)[1]);
    assert(region[110] == region.subrange(4 * k27, 4 * k27 + 4)[2]);
    assert(region[111] == region.subrange(4 * k27, 4 * k27 + 4)[3]);
    let k0: int = 0;
    let w0 = spec_stereo_word(samples[0]);
    assert(w0 == 0 && (0u32 & 0xff) as u8 == 0 && ((0u32 >> 8) & 0xff) as u8 == 0 && ((0u32
        >> 16) & 0xff) as u8 == 0 && ((0u32 >> 24) & 0xff) as u8 == 0) by (bit_vector)
        requires
            w0 == ((0u16 as u32) << 16) | (0u16 as u32),
    ;
    assert(region.subrange(4 * k0, 4 * k0 + 4) == spec_word_bytes(spec_stereo_word(
        samples[k0],
    )));
    assert forall|b: int| 0 <= b < 4 implies region[b] == 0 by {
        assert(region[b] == region.subrange(4 * k0, 4 * k0 + 4)[b]);
    }
}

/// Fills the whole valid region of an application-owned playback buffer
/// with the given samples, one stereo frame word of four bytes per sample.
/// Bytes outside the valid region are untouched, and the buffer stays with
/// the application, to be submitted by the caller.
pub fn fill_audio_buffer(slot: &mut BufferSlot, samples: &Vec<u16>)
    requires
        old(slot).mutation_allowed(),
        old(slot).buf.wf(),
        samples@.len() * 4 == old(slot).buf.data_size,
    ensures
        final(slot).owner == old(slot).owner,
        final(slot).mutation_allowed(),
        final(slot).buf.wf(),
        final(slot).buf.data_offset == old(slot).buf.data_offset,
        final(slot).buf.data_size == old(slot).buf.data_size,
        final(slot).buf.data@.len() == old(slot).buf.data@.len(),
        forall|k: int|
            0 <= k < samples@.len() ==> #[trigger] final(slot).buf.valid_region().subrange(
                4 * k,
                4 * k + 4,
            ) == spec_word_bytes(spec_stereo_word(samples@[k])),
        forall|i: int|
            0 <= i < old(slot).buf.data@.len() && !(old(slot).buf.data_offset <= i < old(
                slot,
            ).buf.data_offset + old(slot).buf.data_size) ==> final(slot).buf.data@[i] == old(
                slot,
            ).buf.data@[i],
{
    let offset = slot.buf.data_offset;
    let mut k: usize = 0;
    while k < samples.len()
        invariant
            k <= samples@.len(),
            samples@.len() * 4 == slot.buf.data_size,
            offset == slot.buf.data_offset,
            slot.buf.data_offset + slot.buf.data_size <= slot.buf.data@.len(),
            slot.buf.data@.len() == old(slot).buf.data@.len(),
            slot.buf.data_offset == old(slot).buf.data_offset,
            slot.buf.data_size == old(slot).buf.data_size,
            slot.owner == old(slot).owner,
            forall|j: int, b: int|
                0 <= j < k && 0 <= b < 4 ==> #[trigger] slot.buf.data@[offset + 4 * j + b]
                    == spec_word_bytes(spec_stereo_word(samples@[j]))[b],
            forall|i: int|
                0 <= i < old(slot).buf.data@.len() && !(offset <= i < offset + slot.buf.data_size)
                    ==> slot.buf.data@[i] == old(slot).buf.data@[i],
        decreases samples@.len() - k,
    {
        let word = stereo_frame_word(samples[k]);
        let b0 = (word & 0xff) as u8;
        let b1 = ((word >> 8) & 0xff) as u8;
        let b2 = ((word >> 16) & 0xff) as u8;
        let b3 = ((word >> 24) & 0xff) as u8;
        proof {
            assert(slot.buf.data.len() == slot.buf.data@.len());
            assert(4 * k + 4 <= slot.buf.data_size) by (nonlinear_arith)
                requires
                    k < samples@.len(),
                    samples@.len() * 4 == slot.buf.data_size,
            ;
        }
        slot.buf.data[offset + 4 * k] = b0;
        slot.buf.data[offset + 4 * k + 1] = b1;
        slot.buf.data[offset + 4 * k + 2] = b2;
        slot.buf.data[offset + 4 * k + 3] = b3;
        proof {
            assert forall|j: int, b: int| 0 <= j < k + 1 && 0 <= b < 4 implies #[trigger] slot
                .buf.data@[offset + 4 * j + b] == spec_word_bytes(spec_stereo_word(samples@[j]))[b]
                by {
                if j < k {
                    assert(offset + 4 * j + b < offset + 4 * k) by (nonlinear_arith)
                        requires
                            j < k,
                            b < 4,
                    ;
                }
            }
        }
        k += 1;
    }
    proof {
        assert forall|j: int| 0 <= j < samples@.len() implies #[trigger] slot
            .buf.valid_region().subrange(4 * j, 4 * j + 4) == spec_word_bytes(
            spec_stereo_word(samples@[j]),
        ) by {
            assert(4 * j + 4 <= slot.buf.data_size) by (nonlinear_arith)
                requires
                    0 <= j < samples@.len(),
                    samples@.len() * 4 == slot.buf.data_size,
            ;
            let region = slot.buf.valid_region();
            assert forall|b: int| 0 <= b < 4 implies region.subrange(4 * j, 4 * j + 4)[b]
                == spec_word_bytes(spec_stereo_word(samples@[j]))[b] by {
                assert(region.subrange(4 * j, 4 * j + 4)[b] == slot.buf.data@[offset + 4 * j + b]);
            }
            assert(region.subrange(4 * j, 4 * j + 4) =~= spec_word_bytes(
                spec_stereo_word(samples@[j]),
            ));
        }
    }
}

} // verus!
