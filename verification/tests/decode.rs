use music_tui::player::PlayerError;
use music_tui::track::TrackBuffer;

/// A canonical 16-bit PCM WAVE file around the given sample data.
fn wav_bytes(channels: u16, sample_rate: u32, data: &[u8]) -> Vec<u8> {
    let mut v: Vec<u8> = Vec::new();
    v.extend_from_slice(b"RIFF");
    v.extend_from_slice(&((36 + data.len()) as u32).to_le_bytes());
    v.extend_from_slice(b"WAVE");
    v.extend_from_slice(b"fmt ");
    v.extend_from_slice(&16u32.to_le_bytes());
    v.extend_from_slice(&1u16.to_le_bytes());
    v.extend_from_slice(&channels.to_le_bytes());
    v.extend_from_slice(&sample_rate.to_le_bytes());
    let block_align: u16 = channels * 2;
    v.extend_from_slice(&(sample_rate * block_align as u32).to_le_bytes());
    v.extend_from_slice(&block_align.to_le_bytes());
    v.extend_from_slice(&16u16.to_le_bytes());
    v.extend_from_slice(b"data");
    v.extend_from_slice(&(data.len() as u32).to_le_bytes());
    v.extend_from_slice(data);
    v
}

#[test]
fn decode_reads_layout_and_samples() {
    let samples: Vec<u8> = vec![1, 2, 3, 4, 5, 6, 7, 8];
    let t = TrackBuffer::decode(&wav_bytes(1, 1000, &samples)).unwrap();
    assert_eq!(t.channels, 1);
    assert_eq!(t.sample_rate, 1000);
    assert_eq!(t.data, samples);
}

#[test]
fn duration_counts_whole_frames() {
    // One channel at 1000 frames per second: 8 bytes are 4 frames, 4 ms.
    let t = TrackBuffer::decode(&wav_bytes(1, 1000, &[0u8; 8])).unwrap();
    assert_eq!(t.duration_ms(), 4);
    // Two channels at 8000 frames per second: 64 bytes are 16 frames, 2 ms.
    let t2 = TrackBuffer::decode(&wav_bytes(2, 8000, &[0u8; 64])).unwrap();
    assert_eq!(t2.duration_ms(), 2);
}

#[test]
fn reslicing_starts_at_the_requested_frame() {
    let samples: Vec<u8> = vec![10, 11, 12, 13, 14, 15, 16, 17];
    let t = TrackBuffer::decode(&wav_bytes(1, 1000, &samples)).unwrap();
    // 2 ms at 1000 frames per second is frame 2, byte 4.
    assert_eq!(t.start_byte(2), 4);
    assert_eq!(t.samples_from(2), &samples[4..]);
    // Past the end the slice is clamped to empty.
    assert_eq!(t.start_byte(1_000_000), 8);
    assert_eq!(t.samples_from(1_000_000), &[] as &[u8]);
}

#[test]
fn decode_rejects_truncated_input() {
    let r = TrackBuffer::decode(&[0u8; 10]);
    assert!(matches!(r, Err(PlayerError::DecodeTrackError(_))));
}

#[test]
fn decode_rejects_wrong_magic() {
    let mut bad = wav_bytes(1, 1000, &[0u8; 8]);
    bad[0] = b'X';
    assert!(TrackBuffer::decode(&bad).is_err());

    let mut bad_wave = wav_bytes(1, 1000, &[0u8; 8]);
    bad_wave[8] = b'0';
    assert!(TrackBuffer::decode(&bad_wave).is_err());
}

#[test]
fn decode_rejects_non_pcm_or_wrong_depth() {
    let mut not_pcm = wav_bytes(1, 1000, &[0u8; 8]);
    not_pcm[20] = 3;
    assert!(TrackBuffer::decode(&not_pcm).is_err());

    let mut eight_bit = wav_bytes(1, 1000, &[0u8; 8]);
    eight_bit[34] = 8;
    assert!(TrackBuffer::decode(&eight_bit).is_err());
}

#[test]
fn decode_rejects_inconsistent_sizes() {
    let mut wrong_riff = wav_bytes(1, 1000, &[0u8; 8]);
    wrong_riff[4] = wrong_riff[4].wrapping_add(1);
    assert!(TrackBuffer::decode(&wrong_riff).is_err());

    let mut wrong_data = wav_bytes(1, 1000, &[0u8; 8]);
    wrong_data[40] = wrong_data[40].wrapping_add(1);
    assert!(TrackBuffer::decode(&wrong_data).is_err());

    // A lone trailing byte is not a whole frame of two channels; the
    // announced sizes stay consistent, so only the frame cut fails.
    let ragged = wav_bytes(2, 1000, &[0u8; 9]);
    assert!(TrackBuffer::decode(&ragged).is_err());
}

#[test]
fn decode_rejects_zero_channels() {
    let mut bad = wav_bytes(1, 1000, &[0u8; 8]);
    bad[22] = 0;
    bad[23] = 0;
    assert!(TrackBuffer::decode(&bad).is_err());
}
