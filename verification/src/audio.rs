//! The audio double-buffer cycle.
//!
//! An audio device is driven by handing it one buffer at a time: the
//! application submits a buffer, the device plays (or fills) it, and the
//! device then releases it back to the application, which must resubmit it
//! to keep the stream going. At every instant a buffer is owned either by
//! the application or by the device, never both: submitting transfers
//! ownership to the device, a release transfers it back, and the buffer's
//! contents may only be touched by the application while it owns it.
//!
//! The ownership rules are stated as preconditions on every operation, so a
//! verified caller can neither submit a buffer that is already in flight nor
//! mutate one after resubmitting it.

use vstd::prelude::*;

verus! {

/// Sample rate of the audio devices, in hertz.
pub const SAMPLE_RATE: u32 = 48000;

/// Number of interleaved channels: stereo.
pub const CHANNEL_COUNT: u32 = 2;

/// Length of one frame in milliseconds, at thirty frames a second.
pub const FRAME_RATE: u32 = 1000 / 30;

/// Samples per frame buffer.
pub const SAMPLE_COUNT: u32 = SAMPLE_RATE / FRAME_RATE;

/// Bytes per sample: 16-bit PCM.
pub const BYTES_PER_SAMPLE: u32 = 2;

/// The payload of one frame buffer: sample count times channel count times
/// bytes per sample.
pub fn audio_data_size(samples: u32, channels: u32, bytes_per_sample: u32) -> (r: u64)
    requires
        samples * channels * bytes_per_sample <= u32::MAX,
    ensures
        r == samples * channels * bytes_per_sample,
{
    proof {
        assert(samples * channels <= samples * channels * bytes_per_sample || bytes_per_sample
            == 0) by (nonlinear_arith);
        assert(bytes_per_sample == 0 ==> samples * channels * bytes_per_sample == 0);
    }
    if bytes_per_sample == 0 {
        0
    } else {
        (samples * channels * bytes_per_sample) as u64
    }
}

/// Who currently holds a buffer: the application (free to read and write
/// it) or the device (the buffer is in flight and must not be touched).
#[derive(Clone, Copy, Debug, PartialEq, Eq, Structural)]
pub enum BufferOwner {
    Application,
    Device,
}

/// A fixed-size audio buffer descriptor: page-aligned backing storage
/// together with the offset and length of the valid data region inside it.
pub struct AudioBuffer {
    /// Backing storage; its length is the declared capacity.
    pub data: Vec<u8>,
    /// Offset of the valid data region within the storage.
    pub data_offset: usize,
    /// Length of the valid data region.
    pub data_size: usize,
}

impl AudioBuffer {
    /// The valid data region fits inside the storage, and the capacity is
    /// aligned to the hardware boundary.
    pub open spec fn wf(self) -> bool {
        &&& self.data_offset + self.data_size <= self.data@.len()
        &&& self.data@.len() % 4096 == 0
    }

    /// The bytes of the valid data region.
    pub open spec fn valid_region(self) -> Seq<u8> {
        self.data@.subrange(self.data_offset as int, self.data_offset + self.data_size)
    }

    /// Allocates a zeroed buffer whose valid region is `data_size` bytes at
    /// offset zero, with the capacity rounded up to the alignment boundary.
    pub fn new(data_size: usize) -> (r: AudioBuffer)
        requires
            data_size <= usize::MAX - 0xfff,
        ensures
            r.wf(),
            r.data_size == data_size,
            r.data_offset == 0,
            r.data@.len() >= data_size,
            r.data@.len() == crate::align::spec_align_up(data_size as u64),
            r.data@ =~= Seq::new(r.data@.len(), |i: int| 0u8),
    {
        let cap64 = crate::align::align_buffer_size(data_size as u64);
        let capacity = cap64 as usize;
        proof {
            assert(cap64 < data_size + 4096);
            assert(capacity == cap64);
            assert(capacity % 4096 == 0);
        }
        let mut data: Vec<u8> = Vec::new();
        while data.len() < capacity
            invariant
                data@.len() <= capacity,
                data@ =~= Seq::new(data@.len(), |i: int| 0u8),
            decreases capacity - data@.len(),
        {
            data.push(0u8);
        }
        AudioBuffer { data, data_offset: 0, data_size }
    }
}

/// One buffer together with its current owner: the unit the double-buffer
/// cycle alternates between application and device.
pub struct BufferSlot {
    pub buf: AudioBuffer,
    pub owner: BufferOwner,
}

impl BufferSlot {
    /// The application holds the buffer.
    pub open spec fn app_owns(self) -> bool {
        self.owner == BufferOwner::Application
    }

    /// The buffer is in flight with the device.
    pub open spec fn device_owns(self) -> bool {
        self.owner == BufferOwner::Device
    }

    /// A buffer may be submitted only while the application holds it.
    pub open spec fn submit_allowed(self) -> bool {
        self.app_owns()
    }

    /// A buffer's contents may be touched only while the application holds
    /// it.
    pub open spec fn mutation_allowed(self) -> bool {
        self.app_owns()
    }

    /// A buffer can come back from the device only while it is in flight.
    pub open spec fn release_allowed(self) -> bool {
        self.device_owns()
    }

    /// Wraps a freshly allocated buffer; the application owns it until the
    /// initial submission.
    pub fn new(buf: AudioBuffer) -> (r: BufferSlot)
        ensures
            r.buf == buf,
            r.app_owns(),
    {
        BufferSlot { buf, owner: BufferOwner::Application }
    }

    /// Hands the buffer to the device. The contents are frozen until the
    /// device releases it back.
    pub fn submit(&mut self)
        requires
            old(self).submit_allowed(),
        ensures
            final(self).device_owns(),
            final(self).buf == old(self).buf,
    {
        self.owner = BufferOwner::Device;
    }

    /// Records that the device released the buffer unchanged, as the output
    /// device does once playback of the submitted data has finished.
    pub fn release(&mut self)
        requires
            old(self).release_allowed(),
        ensures
            final(self).app_owns(),
            final(self).buf == old(self).buf,
    {
        self.owner = BufferOwner::Application;
    }

    /// Records that the device released the buffer after filling its valid
    /// region with `captured` bytes, as the input device does once a capture
    /// completes. Bytes outside the valid region are untouched.
    pub fn release_captured(&mut self, captured: &Vec<u8>)
        requires
            old(self).release_allowed(),
            old(self).buf.wf(),
            captured@.len() == old(self).buf.data_size,
        ensures
            final(self).app_owns(),
            final(self).buf.wf(),
            final(self).buf.data_offset == old(self).buf.data_offset,
            final(self).buf.data_size == old(self).buf.data_size,
            final(self).buf.data@.len() == old(self).buf.data@.len(),
            final(self).buf.valid_region() == captured@,
            forall|i: int|
                0 <= i < old(self).buf.data@.len() && !(old(self).buf.data_offset <= i < old(
                    self,
                ).buf.data_offset + old(self).buf.data_size) ==> final(self).buf.data@[i] == old(
                    self,
                ).buf.data@[i],
    {
        let offset = self.buf.data_offset;
        let mut i: usize = 0;
        while i < captured.len()
            invariant
                i <= captured@.len(),
                captured@.len() == self.buf.data_size,
                offset == self.buf.data_offset,
                self.buf.data_offset + self.buf.data_size <= self.buf.data@.len(),
                self.buf.data@.len() == old(self).buf.data@.len(),
                self.buf.data_offset == old(self).buf.data_offset,
                self.buf.data_size == old(self).buf.data_size,
                self.owner == old(self).owner,
                forall|j: int| 0 <= j < i ==> self.buf.data@[offset + j] == captured@[j],
                forall|j: int|
                    0 <= j < old(self).buf.data@.len() && !(offset <= j < offset + captured@.len())
                        ==> self.buf.data@[j] == old(self).buf.data@[j],
            decreases captured@.len() - i,
        {
            let b = captured[i];
            proof {
                assert(self.buf.data.len() == self.buf.data@.len());
                assert(offset + i < self.buf.data@.len());
            }
            self.buf.data[offset + i] = b;
            i += 1;
        }
        self.owner = BufferOwner::Application;
        proof {
            assert(final(self).buf.valid_region() =~= captured@);
        }
    }
}

/// Copies the valid data region of `src` into the valid data region of
/// `dst`, byte for byte. Bytes of `dst` outside its valid region — the
/// alignment padding — are untouched.
pub fn copy_valid_region(src: &AudioBuffer, dst: &mut AudioBuffer)
    requires
        src.wf(),
        old(dst).wf(),
        src.data_size == old(dst).data_size,
    ensures
        final(dst).wf(),
        final(dst).data_offset == old(dst).data_offset,
        final(dst).data_size == old(dst).data_size,
        final(dst).data@.len() == old(dst).data@.len(),
        final(dst).valid_region() == src.valid_region(),
        forall|i: int|
            0 <= i < old(dst).data@.len() && !(old(dst).data_offset <= i < old(dst).data_offset
                + old(dst).data_size) ==> final(dst).data@[i] == old(dst).data@[i],
{
    let src_off = src.data_offset;
    let dst_off = dst.data_offset;
    let count = dst.data_size;
    let mut i: usize = 0;
    while i < count
        invariant
            i <= count,
            count == dst.data_size,
            count == src.data_size,
            src_off == src.data_offset,
            dst_off == dst.data_offset,
            src.wf(),
            dst.data_offset + dst.data_size <= dst.data@.len(),
            dst.data@.len() == old(dst).data@.len(),
            dst.data_offset == old(dst).data_offset,
            dst.data_size == old(dst).data_size,
            forall|j: int|
                0 <= j < i ==> #[trigger] dst.data@[dst_off + j] == src.data@[src_off + j],
            forall|j: int|
                0 <= j < old(dst).data@.len() && !(dst_off <= j < dst_off + count) ==> dst.data@[j]
                    == old(dst).data@[j],
        decreases count - i,
    {
        proof {
            assert(src.data.len() == src.data@.len());
            assert(dst.data.len() == dst.data@.len());
        }
        let b = src.data[src_off + i];
        dst.data[dst_off + i] = b;
        i += 1;
    }
    proof {
        assert(i == count);
        assert forall|k: int| 0 <= k < count implies dst.valid_region()[k]
            == src.valid_region()[k] by {
            assert(dst.data@[dst_off + k] == src.data@[src_off + k]);
        }
        assert(dst.valid_region() =~= src.valid_region());
    }
}

/// The double-buffer echo cycle: one buffer in flight with the input device
/// and one with the output device, alternating between device and
/// application every frame.
pub struct EchoCycle {
    pub input: BufferSlot,
    pub output: BufferSlot,
}

impl EchoCycle {
    /// Both buffers are well formed and their valid regions have the same
    /// size, so a capture can be echoed into the playback buffer.
    pub open spec fn wf(self) -> bool {
        &&& self.input.buf.wf()
        &&& self.output.buf.wf()
        &&& self.input.buf.data_size == self.output.buf.data_size
    }

    /// Allocates the two equally sized, aligned buffers. The application
    /// owns both until the initial submission.
    pub fn new(data_size: usize) -> (r: EchoCycle)
        requires
            data_size <= usize::MAX - 0xfff,
        ensures
            r.wf(),
            r.input.app_owns(),
            r.output.app_owns(),
            r.input.buf.data_size == data_size,
            r.output.buf.data_size == data_size,
    {
        let input = BufferSlot::new(AudioBuffer::new(data_size));
        let output = BufferSlot::new(AudioBuffer::new(data_size));
        EchoCycle { input, output }
    }

    /// Submits the initial buffer to each device before the frame loop
    /// starts; afterwards both buffers are in flight.
    pub fn submit_initial(&mut self)
        requires
            old(self).input.submit_allowed(),
            old(self).output.submit_allowed(),
        ensures
            final(self).input.device_owns(),
            final(self).output.device_owns(),
            final(self).input.buf == old(self).input.buf,
            final(self).output.buf == old(self).output.buf,
    {
        self.input.submit();
        self.output.submit();
    }

    /// One frame of the echo cycle, entered once both devices have released
    /// their buffers: the input device has filled the capture buffer with
    /// `captured`, the output device has finished playing. The capture is
    /// copied byte for byte into the playback buffer's valid region — the
    /// padding beyond it is untouched — and both buffers are resubmitted,
    /// leaving both in flight again.
    pub fn echo_frame(&mut self, captured: &Vec<u8>)
        requires
            old(self).wf(),
            old(self).input.release_allowed(),
            old(self).output.release_allowed(),
            captured@.len() == old(self).input.buf.data_size,
        ensures
            final(self).wf(),
            final(self).input.device_owns(),
            final(self).output.device_owns(),
            final(self).input.buf.valid_region() == captured@,
            final(self).output.buf.valid_region() == captured@,
            final(self).input.buf.data_size == old(self).input.buf.data_size,
            final(self).output.buf.data_size == old(self).output.buf.data_size,
            final(self).input.buf.data@.len() == old(self).input.buf.data@.len(),
            final(self).output.buf.data@.len() == old(self).output.buf.data@.len(),
            forall|i: int|
                0 <= i < old(self).input.buf.data@.len() && !(old(self).input.buf.data_offset <= i
                    < old(self).input.buf.data_offset + old(self).input.buf.data_size)
                    ==> final(self).input.buf.data@[i] == old(self).input.buf.data@[i],
            forall|i: int|
                0 <= i < old(self).output.buf.data@.len() && !(old(self).output.buf.data_offset
                    <= i < old(self).output.buf.data_offset + old(self).output.buf.data_size)
                    ==> final(self).output.buf.data@[i] == old(self).output.buf.data@[i],
    {
        self.input.release_captured(captured);
        self.output.release();
        copy_valid_region(&self.input.buf, &mut self.output.buf);
        self.input.submit();
        self.output.submit();
    }
}

/// Ownership of a slot is exclusive: the application holds a buffer exactly
/// when the device does not.
pub proof fn lemma_ownership_exclusive(s: BufferSlot)
    ensures
        s.app_owns() <==> !s.device_owns(),
{
}

/// No double-submit: a buffer already in flight with the device cannot be
/// submitted again.
pub proof fn lemma_no_double_submit(s: BufferSlot)
    ensures
        s.device_owns() ==> !s.submit_allowed(),
{
}

/// No use-after-resubmit: once a buffer has been handed to the device, its
/// contents cannot be touched until the device releases it back.
pub proof fn lemma_no_mutation_in_flight(s: BufferSlot)
    ensures
        s.device_owns() ==> !s.mutation_allowed(),
{
}

} // verus!
