use wasapi_stream::format::{available_frames, buffer_len, SampleFormat};

#[test]
fn sample_sizes() {
    assert_eq!(SampleFormat::I16.sample_size(), 2);
    assert_eq!(SampleFormat::U16.sample_size(), 2);
    assert_eq!(SampleFormat::F32.sample_size(), 4);
}

#[test]
fn buffer_len_counts_samples() {
    assert_eq!(buffer_len(1024, 4, SampleFormat::F32), 1024);
    assert_eq!(buffer_len(480, 4, SampleFormat::I16), 960);
    assert_eq!(buffer_len(480, 2, SampleFormat::U16), 480);
    assert_eq!(buffer_len(480, 8, SampleFormat::F32), 960);
    assert_eq!(buffer_len(0, 8, SampleFormat::F32), 0);
}

#[test]
fn buffer_len_at_the_largest_sizes() {
    assert_eq!(
        buffer_len(u32::MAX, u16::MAX, SampleFormat::I16),
        (u32::MAX as u64) * (u16::MAX as u64) / 2
    );
}

#[test]
fn available_frames_subtracts_padding() {
    assert_eq!(available_frames(1024, 0), 1024);
    assert_eq!(available_frames(1024, 1000), 24);
    assert_eq!(available_frames(1024, 1024), 0);
    assert_eq!(available_frames(10, 20), 0);
}
