use nxkit::align::align_buffer_size;
use nxkit::audio::audio_data_size;
use nxkit::audio::AudioBuffer;
use nxkit::audio::BufferOwner;
use nxkit::audio::BufferSlot;
use nxkit::audio::EchoCycle;
use nxkit::audio::BYTES_PER_SAMPLE;
use nxkit::audio::CHANNEL_COUNT;
use nxkit::audio::SAMPLE_COUNT;
use nxkit::audio::SAMPLE_RATE;
use nxkit::tone::fill_audio_buffer;
use nxkit::tone::stereo_frame_word;

#[test]
fn align_is_multiple_and_minimal() {
    // The standard frame payload: 1454 samples, stereo, two bytes each.
    assert_eq!(align_buffer_size(5816), 8192);
    assert_eq!(align_buffer_size(0), 0);
    assert_eq!(align_buffer_size(1), 4096);
    assert_eq!(align_buffer_size(4095), 4096);
    assert_eq!(align_buffer_size(4096), 4096);
    assert_eq!(align_buffer_size(4097), 8192);
    assert_eq!(align_buffer_size(8192), 8192);
    for size in [0u64, 1, 17, 4095, 4096, 4097, 5816, 100000] {
        let r = align_buffer_size(size);
        assert_eq!(r % 4096, 0);
        assert!(r >= size);
        assert!(r < size + 4096);
    }
}

#[test]
fn frame_payload_size() {
    assert_eq!(SAMPLE_RATE, 48000);
    assert_eq!(SAMPLE_COUNT, 1454);
    assert_eq!(
        audio_data_size(SAMPLE_COUNT, CHANNEL_COUNT, BYTES_PER_SAMPLE),
        5816
    );
    assert_eq!(audio_data_size(0, 2, 2), 0);
}

#[test]
fn new_buffer_is_aligned_and_zeroed() {
    let buf = AudioBuffer::new(5816);
    assert_eq!(buf.data_offset, 0);
    assert_eq!(buf.data_size, 5816);
    assert_eq!(buf.data.len(), 8192);
    assert!(buf.data.iter().all(|b| *b == 0));
}

#[test]
fn slot_ownership_alternates() {
    let mut slot = BufferSlot::new(AudioBuffer::new(16));
    assert_eq!(slot.owner, BufferOwner::Application);
    slot.submit();
    assert_eq!(slot.owner, BufferOwner::Device);
    slot.release();
    assert_eq!(slot.owner, BufferOwner::Application);
    slot.submit();
    assert_eq!(slot.owner, BufferOwner::Device);
    let captured = vec![7u8; 16];
    slot.release_captured(&captured);
    assert_eq!(slot.owner, BufferOwner::Application);
    assert_eq!(&slot.buf.data[..16], &captured[..]);
}

#[test]
fn echo_cycle_ownership_over_a_frame() {
    let mut cycle = EchoCycle::new(32);
    assert_eq!(cycle.input.owner, BufferOwner::Application);
    assert_eq!(cycle.output.owner, BufferOwner::Application);
    cycle.submit_initial();
    assert_eq!(cycle.input.owner, BufferOwner::Device);
    assert_eq!(cycle.output.owner, BufferOwner::Device);
    let captured = vec![0x5Au8; 32];
    cycle.echo_frame(&captured);
    // After a full frame both buffers are back in flight with their devices.
    assert_eq!(cycle.input.owner, BufferOwner::Device);
    assert_eq!(cycle.output.owner, BufferOwner::Device);
}

#[test]
fn echo_copies_valid_region_and_leaves_padding() {
    // Payload of 8 bytes inside 4096-byte-aligned storage; mark the output
    // padding with a sentinel so an over-copy would show.
    let mut out_storage = vec![0u8; 4096];
    for b in out_storage.iter_mut().skip(8) {
        *b = 0xEE;
    }
    let output = BufferSlot::new(AudioBuffer {
        data: out_storage,
        data_offset: 0,
        data_size: 8,
    });
    let input = BufferSlot::new(AudioBuffer::new(8));
    let mut cycle = EchoCycle { input, output };
    cycle.submit_initial();
    let captured: Vec<u8> = vec![1, 2, 3, 4, 5, 6, 7, 8];
    cycle.echo_frame(&captured);
    assert_eq!(&cycle.output.buf.data[..8], &captured[..]);
    assert!(cycle.output.buf.data[8..].iter().all(|b| *b == 0xEE));
    assert_eq!(&cycle.input.buf.data[..8], &captured[..]);
}

#[test]
fn stereo_word_duplicates_sample() {
    assert_eq!(stereo_frame_word(0), 0);
    assert_eq!(stereo_frame_word(0x2666), 0x2666_2666);
    assert_eq!(stereo_frame_word(0x1234), 0x1234_1234);
    assert_eq!(stereo_frame_word(0xFFFF), 0xFFFF_FFFF);
}

#[test]
fn tone_samples_at_known_points() {
    // The tone player's waveform: 30% of full 16-bit amplitude at
    // frequency 440 Hz and rate 48000 Hz, phase starting at sample offset 0.
    let frequency = 440u32;
    let sample = |index: u32| -> u16 {
        let v: i32 = (0.3
            * 32767.0
            * (frequency as f32 * (2f32 * std::f32::consts::PI) * index as f32
                / SAMPLE_RATE as f32)
                .sin()) as i32;
        v as u16
    };
    // sin(0) = 0: the first sample is silent.
    assert_eq!(sample(0), 0);
    assert_eq!(stereo_frame_word(sample(0)), 0);
    // A quarter period later the amplitude is about 30% of the maximum
    // positive 16-bit value.
    let quarter = SAMPLE_RATE / (4 * frequency);
    let s = sample(quarter) as i32;
    assert!((s - 9830).abs() < 60, "sample at quarter period was {s}");
    let word = stereo_frame_word(sample(quarter));
    assert_eq!(word & 0xffff, s as u32);
    assert_eq!((word >> 16) & 0xffff, s as u32);
}

#[test]
fn fill_writes_interleaved_frames() {
    let mut slot = BufferSlot::new(AudioBuffer {
        data: vec![0xEEu8; 4096],
        data_offset: 0,
        data_size: 8,
    });
    let samples: Vec<u16> = vec![0x1234, 0xABCD];
    fill_audio_buffer(&mut slot, &samples);
    assert_eq!(slot.owner, BufferOwner::Application);
    assert_eq!(
        &slot.buf.data[..8],
        &[0x34, 0x12, 0x34, 0x12, 0xCD, 0xAB, 0xCD, 0xAB]
    );
    assert!(slot.buf.data[8..].iter().all(|b| *b == 0xEE));
}
