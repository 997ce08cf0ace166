use loopback_pcm::chunk::PcmChunk;
use loopback_pcm::format::{frames_to_read, AudioFormat, SampleKind, BUFFER_DURATION_HNS};
use loopback_pcm::wire::{encode, is_le_layout, sample_bytes, swap_pairs};

#[test]
fn encode_is_little_endian() {
    assert_eq!(
        encode(&[1, -2, 0x1234, -32768, 32767, 0, 256]),
        vec![0x01, 0x00, 0xfe, 0xff, 0x34, 0x12, 0x00, 0x80, 0xff, 0x7f, 0x00, 0x00, 0x00, 0x01]
    );
    assert!(encode(&[]).is_empty());
}

#[test]
fn encode_agrees_with_to_le_bytes() {
    let samples: Vec<i16> = (-32768i32..=32767).step_by(257).map(|v| v as i16).collect();
    let expected: Vec<u8> = samples.iter().flat_map(|s| s.to_le_bytes()).collect();
    assert_eq!(encode(&samples), expected);
}

#[test]
fn sample_bytes_are_low_then_high() {
    assert_eq!(sample_bytes(0), (0, 0));
    assert_eq!(sample_bytes(1), (1, 0));
    assert_eq!(sample_bytes(-1), (0xff, 0xff));
    assert_eq!(sample_bytes(0x1234), (0x34, 0x12));
    assert_eq!(sample_bytes(-32768), (0x00, 0x80));
    assert_eq!(sample_bytes(32767), (0xff, 0x7f));
}

#[test]
fn layout_check_tells_the_two_byte_orders_apart() {
    let samples = [0x0102i16, 0x0304];
    assert!(is_le_layout(&samples, &[0x02, 0x01, 0x04, 0x03]));
    assert!(!is_le_layout(&samples, &[0x01, 0x02, 0x03, 0x04]));
    assert!(!is_le_layout(&samples, &[0x02, 0x01, 0x04]));
    assert!(!is_le_layout(&samples, &[0x02, 0x01, 0x04, 0x03, 0x00]));
    assert!(!is_le_layout(&samples, &[0x02, 0x01]));
    assert!(is_le_layout(&[], &[]));
    assert!(is_le_layout(&[0x0505], &[0x05, 0x05]));
}

#[test]
fn swapping_pairs_turns_big_endian_into_little_endian() {
    let samples = [0x0102i16, -2, 7];
    let big: Vec<u8> = samples.iter().flat_map(|s| s.to_be_bytes()).collect();
    let swapped = swap_pairs(&big);
    assert_eq!(swapped, vec![0x02, 0x01, 0xfe, 0xff, 0x07, 0x00]);
    assert!(is_le_layout(&samples, &swapped));
    assert!(swap_pairs(&[]).is_empty());
}

#[test]
fn chunk_becomes_one_message_of_32000_bytes() {
    let samples: Vec<i16> = (0..16000).map(|i| (i * 3 - 20000) as i16).collect();
    let chunk = PcmChunk::from_samples(samples.clone()).expect("sixteen thousand samples");
    let bytes = chunk.to_bytes();
    assert_eq!(bytes.len(), 32000);
    for (i, s) in samples.iter().enumerate() {
        assert_eq!([bytes[2 * i], bytes[2 * i + 1]], s.to_le_bytes());
    }
}

#[test]
fn loopback_format_is_stereo_float_at_48k() {
    let format = AudioFormat::loopback();
    assert_eq!(
        format,
        AudioFormat { sample_rate: 48000, channels: 2, bits_per_sample: 32, kind: SampleKind::Float }
    );
    assert_eq!(format.block_align(), 8);
    assert_eq!(BUFFER_DURATION_HNS, 200_000);
}

#[test]
fn block_align_is_channels_times_bytes_per_sample() {
    let mono16 = AudioFormat { sample_rate: 16000, channels: 1, bits_per_sample: 16, kind: SampleKind::Int };
    assert_eq!(mono16.block_align(), 2);
    let surround = AudioFormat { sample_rate: 48000, channels: 6, bits_per_sample: 24, kind: SampleKind::Int };
    assert_eq!(surround.block_align(), 18);
    let widest = AudioFormat { sample_rate: 1, channels: 65535, bits_per_sample: 65535, kind: SampleKind::Int };
    assert_eq!(widest.block_align(), 65535 * 65535 / 8);
    let none = AudioFormat { sample_rate: 48000, channels: 0, bits_per_sample: 32, kind: SampleKind::Float };
    assert_eq!(none.block_align(), 0);
}

#[test]
fn raw_buffer_is_a_whole_number_of_frames() {
    let format = AudioFormat::loopback();
    assert_eq!(format.buffer_len(0), 0);
    assert_eq!(format.buffer_len(1), 8);
    assert_eq!(format.buffer_len(480), 3840);
    assert_eq!(format.buffer_len(480) % format.block_align() as usize, 0);
    assert_eq!(format.frame_count(3840), Some(480));
    assert_eq!(format.frame_count(0), Some(0));
    assert_eq!(format.frame_count(3841), None);
    assert_eq!(format.frame_count(7), None);
    let none = AudioFormat { sample_rate: 48000, channels: 0, bits_per_sample: 32, kind: SampleKind::Float };
    assert_eq!(none.frame_count(0), None);
    assert_eq!(none.frame_count(16), None);
}

#[test]
fn reader_polls_again_when_nothing_waits() {
    assert_eq!(frames_to_read(None), None);
    assert_eq!(frames_to_read(Some(0)), None);
    assert_eq!(frames_to_read(Some(1)), Some(1));
    assert_eq!(frames_to_read(Some(480)), Some(480));
    assert_eq!(frames_to_read(Some(u32::MAX)), Some(u32::MAX));
}
