use cef_unity::audio_pull::{PrepareError, PullContext};
use cef_unity::audio_ring::{AudioRing, FrameSource};
use cef_unity::audio_shared_memory::{
    AudioSharedMemoryHeader, AudioSharedMemoryReader, AudioSharedMemoryWriter, AUDIO_RING_FRAMES,
    AUDIO_SHARED_MEMORY_TOTAL_SIZE,
};
use cef_unity::wasapi_output::{
    copy_with_channel_mapping, format_is_float, open_outcome, render_step, requested_duration,
    resamples, unsupported_format, OpenOutcome, RenderStep,
};

fn bits(samples: &[f32]) -> Vec<u32> {
    samples.iter().map(|sample| sample.to_bits()).collect()
}

fn floats(samples: &[u32]) -> Vec<f32> {
    samples.iter().map(|sample| f32::from_bits(*sample)).collect()
}

fn memory() -> Vec<u8> {
    vec![0u8; AUDIO_SHARED_MEMORY_TOTAL_SIZE]
}

/// Writes frames of one value on two channels.
fn write_constant_packet(
    writer: &AudioSharedMemoryWriter,
    memory: &mut [u8],
    frames: usize,
    value: f32,
) {
    let plane = bits(&vec![value; frames]);
    writer.write_packet(memory, &[plane.clone(), plane], frames);
}

/// Plays frames one by one.
fn play(ring: &mut AudioRing, out: &mut [f32], frames: usize) {
    let channels = ring.channel_count();
    for frame in 0..frames {
        let base = frame * channels;
        match ring.next_source() {
            FrameSource::Silence => out[base..base + channels].fill(0.0),
            FrameSource::Blend { first, .. } => {
                for channel in 0..channels {
                    out[base + channel] = f32::from_bits(ring.sample(first, channel));
                }
                ring.advance(1, false);
            }
        }
    }
}

fn pull(context: &mut PullContext, memory: &[u8], out: &mut [f32], frames: usize) {
    if !context.drain(memory) {
        out[..frames * context.channels].fill(0.0);
        return;
    }
    play(&mut context.ring, out, frames);
    context.record();
}

#[test]
fn audio_shared_memory_write_read_roundtrip() {
    let mut memory = memory();
    let writer = AudioSharedMemoryWriter::new("cef-unity-test-audio-roundtrip", &mut memory);
    let mut reader = AudioSharedMemoryReader::open();

    // Nothing can be read before the start
    let mut buffer = vec![0u32; 1024];
    assert_eq!(reader.read(&memory, &mut buffer, 256), (0, 0));

    // Start with stereo at 48 kHz
    writer.start_stream(&mut memory, 48_000, 2);
    let (sample_rate, channels, active) = reader.format(&memory);
    assert_eq!(sample_rate, 48_000);
    assert_eq!(channels, 2);
    assert!(active);

    // Four frames of planar data: L=[0,1,2,3], R=[10,11,12,13]
    let left = bits(&[0.0, 1.0, 2.0, 3.0]);
    let right = bits(&[10.0, 11.0, 12.0, 13.0]);
    writer.write_packet(&mut memory, &[left, right], 4);

    // Read back interleaved: L0 R0 L1 R1 ...
    let (frames, channels) = reader.read(&memory, &mut buffer, 256);
    assert_eq!(frames, 4);
    assert_eq!(channels, 2);
    assert_eq!(
        floats(&buffer[..8]),
        vec![0.0, 10.0, 1.0, 11.0, 2.0, 12.0, 3.0, 13.0]
    );

    // Nothing new when read again
    assert_eq!(reader.read(&memory, &mut buffer, 256), (0, 2));
}

#[test]
fn stopped_stream_keeps_its_format() {
    let mut memory = memory();
    let writer = AudioSharedMemoryWriter::new("stop", &mut memory);
    assert_eq!(writer.flink, "stop");
    writer.start_stream(&mut memory, 44_100, 1);
    assert_eq!(writer.channels(&memory), 1);
    writer.stop_stream(&mut memory);
    assert_eq!(AudioSharedMemoryReader::open().format(&memory), (44_100, 1, false));
    assert_eq!(
        AudioSharedMemoryHeader::load(&memory).ring_frames as usize,
        AUDIO_RING_FRAMES
    );
}

#[test]
fn overtaken_reader_gets_the_newest_frames() {
    let mut memory = memory();
    let writer = AudioSharedMemoryWriter::new("overtaken", &mut memory);
    writer.start_stream(&mut memory, 48_000, 1);
    let mut reader = AudioSharedMemoryReader::open();
    let plane: Vec<u32> = (0..30_000).collect();
    writer.write_packet(&mut memory, &[plane.clone()], 30_000);
    writer.write_packet(&mut memory, &[plane], 30_000);
    let mut out = vec![0u32; 2];
    assert_eq!(reader.read(&memory, &mut out, 2), (2, 1));
    assert_eq!(out, vec![12_000, 12_001]);
    assert_eq!(reader.read_frames, 12_002);
}

#[test]
fn restarted_stream_is_followed() {
    let mut memory = memory();
    let writer = AudioSharedMemoryWriter::new("restart", &mut memory);
    writer.start_stream(&mut memory, 48_000, 1);
    let mut reader = AudioSharedMemoryReader::open();
    writer.write_packet(&mut memory, &[vec![1, 2, 3]], 3);
    let mut out = vec![0u32; 8];
    assert_eq!(reader.read(&memory, &mut out, 8), (3, 1));
    writer.start_stream(&mut memory, 48_000, 1);
    writer.write_packet(&mut memory, &[vec![4]], 1);
    assert_eq!(reader.read(&memory, &mut out, 8), (0, 1));
    writer.write_packet(&mut memory, &[vec![5]], 1);
    assert_eq!(reader.read(&memory, &mut out, 8), (1, 1));
    assert_eq!(out[0], 5);
}

#[test]
fn read_with_unit_step_returns_written_samples_in_order() {
    let mut ring = AudioRing::new(1000, 1, 4);
    let ramp: Vec<f32> = (0..100).map(|index| index as f32).collect();
    ring.write(&bits(&ramp), 100);

    let mut out = vec![0.0f32; 10];
    play(&mut ring, &mut out, 10);

    for (index, &sample) in out.iter().enumerate() {
        assert!((sample - index as f32).abs() < 1e-4, "index {}: {}", index, sample);
    }
    assert_eq!(ring.underrun_frames(), 0);
    assert_eq!(ring.overflow_drop_frames(), 0);
}

#[test]
fn read_before_target_reached_outputs_silence_and_counts_underrun() {
    let mut ring = AudioRing::new(1000, 1, 50);
    ring.write(&bits(&[1.0f32; 10]), 10);

    let mut out = vec![9.9f32; 8];
    play(&mut ring, &mut out, 8);

    for &sample in &out {
        assert_eq!(sample, 0.0);
    }
    assert_eq!(ring.underrun_frames(), 8);
}

#[test]
fn write_beyond_capacity_drops_oldest_and_counts_overflow() {
    let mut ring = AudioRing::new(100, 1, 10);
    let big: Vec<f32> = (0..500).map(|index| index as f32).collect();
    ring.write(&bits(&big), 500);

    assert!(ring.overflow_drop_frames() > 0);
    assert!(ring.waiting_frames() as f64 <= 100.0);
}

#[test]
fn ring_keeps_the_newest_frames() {
    let mut ring = AudioRing::new(4, 2, 1);
    assert!(ring.can_write(1));
    ring.write(&[1, 1, 2, 2, 3, 3], 3);
    ring.write(&[4, 4, 5, 5, 6, 7], 3);
    assert_eq!(ring.waiting_frames(), 4);
    assert_eq!(ring.overflow_drop_frames(), 2);
    match ring.next_source() {
        FrameSource::Blend { first, second } => {
            assert_eq!(ring.sample(first, 0), 3);
            assert_eq!(ring.sample(second, 1), 4);
        }
        FrameSource::Silence => panic!("frames wait"),
    }
    ring.advance(3, false);
    assert_eq!(ring.next_source(), FrameSource::Silence);
    assert_eq!(ring.underrun_frames(), 1);
}

#[test]
fn ring_limits_its_parameters() {
    let ring = AudioRing::new(0, 0, 99);
    assert_eq!(ring.channel_count(), 1);
    assert_eq!(ring.target_frames(), 1);
    let ring = AudioRing::new(10, 3, 0);
    assert_eq!(ring.channel_count(), 3);
    assert_eq!(ring.target_frames(), 1);
    let ring = AudioRing::new(10, 3, 10);
    assert_eq!(ring.target_frames(), 9);
}

#[test]
fn standing_between_frames_takes_one_more() {
    let mut ring = AudioRing::new(10, 1, 2);
    ring.write(&[1, 2], 2);
    ring.advance(0, true);
    assert_eq!(ring.next_source(), FrameSource::Silence);
    ring.advance(0, false);
    assert!(matches!(ring.next_source(), FrameSource::Blend { .. }));
    ring.advance(0, true);
    assert!(ring.stands_between());
    assert_eq!(ring.next_source(), FrameSource::Silence);
    ring.write(&[3], 1);
    assert!(matches!(ring.next_source(), FrameSource::Blend { .. }));
}

#[test]
fn write_drops_what_does_not_fit_wherever_the_consumer_stands() {
    for between in [false, true] {
        let mut ring = AudioRing::new(4, 1, 1);
        ring.write(&[1, 2, 3], 3);
        ring.advance(0, between);
        ring.write(&[4, 5, 6], 3);
        assert_eq!(ring.overflow_drop_frames(), 2);
        assert_eq!(ring.underrun_frames(), 0);
        assert_eq!(ring.waiting_frames(), 4);
        assert_eq!(ring.stands_between(), between);
        match ring.next_source() {
            FrameSource::Blend { first, second } => {
                assert_eq!((ring.sample(first, 0), ring.sample(second, 0)), (3, 4));
            }
            FrameSource::Silence => panic!("frames wait"),
        }
    }
}

#[test]
fn prepare_fails_before_stream_start() {
    let mut memory = memory();
    let _writer = AudioSharedMemoryWriter::new("noformat", &mut memory);
    assert!(matches!(
        PullContext::prepare(&memory, 720),
        Err(PrepareError::FormatNotReady)
    ));
}

#[test]
fn pull_primes_then_outputs_shm_data() {
    let mut memory = memory();
    let writer = AudioSharedMemoryWriter::new("basic", &mut memory);
    writer.start_stream(&mut memory, 48_000, 2);

    let (mut context, rate) = PullContext::prepare(&memory, 720).unwrap_or_else(|_| panic!());
    assert_eq!(rate, 48_000);
    assert_eq!(context.channels, 2);

    write_constant_packet(&writer, &mut memory, 1024, 0.5);

    let mut out = vec![9.9f32; 128 * 2];
    pull(&mut context, &memory, &mut out, 128);

    assert!(out.iter().any(|&sample| (sample - 0.5).abs() < 1e-6));
    assert!(context.statistics.occupancy_frames > 0);
}

#[test]
fn pull_before_priming_outputs_silence() {
    let mut memory = memory();
    let writer = AudioSharedMemoryWriter::new("prime", &mut memory);
    writer.start_stream(&mut memory, 48_000, 2);

    let (mut context, _) = PullContext::prepare(&memory, 720).unwrap_or_else(|_| panic!());
    write_constant_packet(&writer, &mut memory, 256, 0.5);

    let mut out = vec![9.9f32; 128 * 2];
    pull(&mut context, &memory, &mut out, 128);

    assert!(out.iter().all(|&sample| sample == 0.0));
    assert_eq!(context.statistics.underrun_frames, 128);
}

#[test]
fn pull_on_channel_change_outputs_silence() {
    let mut memory = memory();
    let writer = AudioSharedMemoryWriter::new("chchange", &mut memory);
    writer.start_stream(&mut memory, 48_000, 2);

    let (mut context, _) = PullContext::prepare(&memory, 720).unwrap_or_else(|_| panic!());
    write_constant_packet(&writer, &mut memory, 1024, 0.5);
    writer.start_stream(&mut memory, 48_000, 1);

    let mut out = vec![9.9f32; 128 * 2];
    pull(&mut context, &memory, &mut out, 128);
    assert!(out.iter().all(|&sample| sample == 0.0));
}

#[test]
fn pull_drains_shared_memory_across_multiple_scratch_reads() {
    let mut memory = memory();
    let writer = AudioSharedMemoryWriter::new("drain", &mut memory);
    writer.start_stream(&mut memory, 48_000, 2);

    let (mut context, _) = PullContext::prepare(&memory, 720).unwrap_or_else(|_| panic!());
    write_constant_packet(&writer, &mut memory, 4096, 0.5);
    write_constant_packet(&writer, &mut memory, 4096, 0.5);
    write_constant_packet(&writer, &mut memory, 1000, 0.5);

    let mut out = vec![0.0f32; 128 * 2];
    pull(&mut context, &memory, &mut out, 128);

    let occupancy = context.statistics.occupancy_frames;
    assert!(
        occupancy >= 9192 - 132 && occupancy <= 9192,
        "occupancy={}",
        occupancy
    );
    assert_eq!(context.reader.read_frames, 9192);
    assert_eq!(context.statistics.overflow_frames, 0);
    assert_eq!(context.statistics.underrun_frames, 0);
    assert!(out.iter().all(|&sample| sample == 0.5));
}

#[test]
fn channel_mapping_passes_through_when_counts_match() {
    let source = bits(&[0.1, 0.2, 0.3, 0.4]);
    let mut destination = bits(&[0.0; 4]);
    copy_with_channel_mapping(&source, &mut destination, 2, 2, 2);
    assert_eq!(floats(&destination), vec![0.1, 0.2, 0.3, 0.4]);
}

#[test]
fn channel_mapping_duplicates_mono_to_all_device_channels() {
    let source = bits(&[0.5, 0.25]);
    let mut destination = bits(&[0.0; 4]);
    copy_with_channel_mapping(&source, &mut destination, 2, 1, 2);
    assert_eq!(floats(&destination), vec![0.5, 0.5, 0.25, 0.25]);
}

#[test]
fn channel_mapping_zero_fills_extra_device_channels() {
    let source = bits(&[0.1, 0.2]);
    let mut destination = bits(&[9.9; 4]);
    copy_with_channel_mapping(&source, &mut destination, 1, 2, 4);
    assert_eq!(floats(&destination), vec![0.1, 0.2, 0.0, 0.0]);
}

#[test]
fn channel_mapping_leaves_out_what_the_device_lacks() {
    let mut destination = vec![7u32; 3];
    copy_with_channel_mapping(&[1, 2, 3, 4, 5, 6], &mut destination, 2, 3, 1);
    assert_eq!(destination, vec![1, 4, 7]);
    copy_with_channel_mapping(&[1, 2, 3, 4], &mut destination, 2, 3, 1);
    assert_eq!(destination, vec![1, 4, 7]);
    copy_with_channel_mapping(&[], &mut destination, 0, 0, 2);
    assert_eq!(destination, vec![0, 0, 0]);
    destination = vec![7u32; 3];
    copy_with_channel_mapping(&[], &mut destination, 9, 2, 0);
    assert_eq!(destination, vec![0, 0, 0]);
}

#[test]
fn mixer_format_is_recognised() {
    assert!(format_is_float(3, 1));
    assert!(format_is_float(0xFFFE, 3));
    assert!(!format_is_float(0xFFFE, 1));
    assert!(!format_is_float(1, 3));
    assert_eq!(
        unsupported_format(1),
        "unsupported mixer format (not IEEE float): wFormatTag=1"
    );
}

#[test]
fn duration_is_in_hundreds_of_nanoseconds() {
    assert_eq!(requested_duration(1920, 48_000), 400_000);
    assert_eq!(requested_duration(1764, 44_100), 400_000);
    assert_eq!(requested_duration(1, 3), 3_333_333);
    assert_eq!(requested_duration(u32::MAX, 1), 42_949_672_950_000_000);
}

#[test]
fn mixer_is_asked_twice() {
    assert_eq!(open_outcome(true, false, true), OpenOutcome::Opened { autoconvert: true });
    assert_eq!(open_outcome(false, true, true), OpenOutcome::Opened { autoconvert: false });
    assert_eq!(open_outcome(false, false, false), OpenOutcome::Refused);
    assert_eq!(open_outcome(false, true, false), OpenOutcome::NotFloat);
    assert!(resamples(false, 44_100));
    assert!(!resamples(false, 0));
    assert!(!resamples(true, 44_100));
}

#[test]
fn mixer_is_given_what_it_has_room_for() {
    assert_eq!(render_step(false, true, 480, 100), RenderStep::Render { frames: 380 });
    assert_eq!(render_step(true, true, 480, 100), RenderStep::Render { frames: 380 });
    assert_eq!(render_step(false, true, 480, 480), RenderStep::Wait);
    assert_eq!(render_step(false, true, 480, 500), RenderStep::Wait);
    assert_eq!(render_step(false, false, 480, 0), RenderStep::Wait);
    assert_eq!(render_step(true, false, 480, 0), RenderStep::Stop);
}
