use panel_kit::audio::{level_report_due, mono_pcm16, AudioBuffer, SampleKind, WavFormat, SAMPLE_RATE};

#[test]
fn new_buffer_is_empty() {
    let b: AudioBuffer<f32> = AudioBuffer::new(44100);
    assert_eq!(b.len(), 0);
    assert_eq!(b.sample_rate(), 44100);
    assert!(b.samples().is_empty());
}

#[test]
fn push_appends_in_order() {
    let mut b: AudioBuffer<i16> = AudioBuffer::new(8000);
    b.push_samples(&[1, 2, 3]);
    b.push_samples(&[]);
    b.push_samples(&[4, 5]);
    assert_eq!(b.len(), 5);
    assert_eq!(b.samples(), &[1, 2, 3, 4, 5]);
    b.clear();
    assert_eq!(b.len(), 0);
    assert_eq!(b.sample_rate(), 8000);
}

#[test]
fn saved_format_is_mono_pcm16() {
    let b: AudioBuffer<f32> = AudioBuffer::new(48000);
    assert!(b.wav_format() == WavFormat { channels: 1, sample_rate: 48000, bits_per_sample: 16, sample_kind: SampleKind::Int });
    assert!(mono_pcm16(SAMPLE_RATE) == b.wav_format());
    assert_eq!(SAMPLE_RATE, 48_000);
}

#[test]
fn report_when_passing_4096() {
    let mut b: AudioBuffer<i16> = AudioBuffer::new(48000);
    let chunk = vec![0i16; 1000];
    let mut reports = Vec::new();
    for _ in 0..9 {
        b.push_samples(&chunk);
        reports.push(b.report_due(chunk.len()));
    }
    // 4096 is passed by the fifth chunk (5000) and 8192 by the ninth (9000).
    assert_eq!(reports, vec![false, false, false, false, true, false, false, false, true]);
}

#[test]
fn one_second_of_audio() {
    let mut b: AudioBuffer<i16> = AudioBuffer::new(10);
    b.push_samples(&[0; 9]);
    assert!(!b.has_one_second());
    b.push_samples(&[0]);
    assert!(b.has_one_second());
}

#[test]
fn every_hundredth_callback_reports() {
    assert!(!level_report_due(1));
    assert!(!level_report_due(99));
    assert!(level_report_due(100));
    assert!(level_report_due(300));
    assert!(level_report_due(0));
}
