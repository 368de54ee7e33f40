use std::io::Cursor;

use dasp::interpolate::linear::Linear;
use dasp::{signal, Signal};
use record_audio::audio_clip::AudioClip;
use record_audio::error::AudioError;
use record_audio::pcm::narrow_sample;
use record_audio::wav::wav_path_ok;

/// Builds a clip from float samples, stored as bit patterns.
fn clip_of(samples: &[f32], sample_rate: u32) -> AudioClip {
    let mut bits: Vec<u32> = Vec::new();
    for s in samples {
        bits.push(s.to_bits());
    }
    AudioClip::new(bits, sample_rate)
}

fn floats_of(clip: &AudioClip) -> Vec<f32> {
    clip.samples().iter().map(|b| f32::from_bits(*b)).collect()
}

/// The linear-interpolation rate conversion that feeds `resample`: the same
/// converter the capture program runs, seeded with the first two frames.
fn convert(clip: &AudioClip, target_rate: u32) -> Vec<u32> {
    let out_len = clip.conversion_len(target_rate);
    let mut source = signal::from_iter(clip.samples().iter().map(|b| f32::from_bits(*b)));
    let left = source.next();
    let right = source.next();
    let interp = Linear::new(left, right);
    source
        .from_hz_to_hz(interp, clip.sample_rate() as f64, target_rate as f64)
        .take(out_len)
        .map(f32::to_bits)
        .collect()
}

fn resampled(clip: &AudioClip, target_rate: u32) -> AudioClip {
    let converted = convert(clip, target_rate);
    clip.resample(target_rate, &converted)
}

#[test]
fn resample_identity() {
    let clip = clip_of(&[1.0, -1.0, 0.5, 0.25], 8000);
    let same = clip.resample(8000, &Vec::new());
    assert_eq!(same.sample_rate(), 8000);
    assert_eq!(same.samples(), clip.samples());
}

#[test]
fn resample_length_law_upsample() {
    let clip = clip_of(&[0.0, 1.0, 0.0, -1.0], 8000);
    let out = resampled(&clip, 16000);
    assert_eq!(out.sample_rate(), 16000);
    assert_eq!(out.samples().len(), 4 * 16000 / 8000);
}

#[test]
fn resample_length_law_truncates() {
    let clip = clip_of(&[0.1, 0.2, 0.3, 0.4, 0.5], 8000);
    let out = resampled(&clip, 3000);
    // floor(5 * 3000 / 8000) = floor(1.875) = 1
    assert_eq!(out.sample_rate(), 3000);
    assert_eq!(out.samples().len(), 1);
}

#[test]
fn resample_monotone_counts() {
    let clip = clip_of(&[0.5, -0.5, 0.5, -0.5, 0.5, -0.5, 0.5], 44100);
    let up = resampled(&clip, 48000);
    let down = resampled(&clip, 22050);
    assert!(up.samples().len() >= clip.samples().len());
    assert!(down.samples().len() <= clip.samples().len());
}

#[test]
fn resample_interpolates_linearly() {
    // Two frames doubled in rate: the converter's own documented behaviour
    // gives the midpoints, then ramps toward the equilibrium frame.
    let clip = clip_of(&[0.0, 1.0], 8000);
    let out = resampled(&clip, 16000);
    assert_eq!(floats_of(&out), vec![0.0, 0.5, 1.0, 0.5]);
}

#[test]
fn resample_fits_converter_output_to_policy() {
    // The length policy asks for floor(2 * 12000 / 8000) = 3 frames,
    // whatever the converter handed back.
    let clip = clip_of(&[0.0, 0.0], 8000);
    let surplus: Vec<u32> = [0.1f32, 0.2, 0.3, 0.4].iter().map(|s| s.to_bits()).collect();
    let out = clip.resample(12000, &surplus);
    assert_eq!(floats_of(&out), vec![0.1, 0.2, 0.3]);
    let short: Vec<u32> = [0.5f32].iter().map(|s| s.to_bits()).collect();
    let out = clip.resample(12000, &short);
    assert_eq!(floats_of(&out), vec![0.5, 0.0, 0.0]);
}

#[test]
fn narrowing_matches_the_numeric_cast() {
    let values: [f32; 16] = [
        0.0, -0.0, 0.5, -0.5, 1.0, -1.0, 1.5, -1.5, 0.999, 1234.56, -1234.56, 40000.0, -40000.0,
        f32::NAN, f32::INFINITY, f32::NEG_INFINITY,
    ];
    for v in values {
        assert_eq!(narrow_sample(v.to_bits()), v as i16, "sample {}", v);
    }
    assert_eq!(narrow_sample(f32::MIN_POSITIVE.to_bits()), 0);
    assert_eq!(narrow_sample((32767.9f32).to_bits()), 32767);
    assert_eq!(narrow_sample((-32768.4f32).to_bits()), -32768);
}

#[test]
fn export_round_trip() {
    let clip = clip_of(&[0.0, 0.5, -0.5, 1.0], 16000);
    let bytes = clip.export("clip.wav").unwrap();
    let reader = hound::WavReader::new(Cursor::new(bytes)).unwrap();
    let spec = reader.spec();
    assert_eq!(spec.channels, 1);
    assert_eq!(spec.sample_rate, 16000);
    assert_eq!(spec.bits_per_sample, 16);
    assert_eq!(spec.sample_format, hound::SampleFormat::Int);
    assert_eq!(reader.duration(), 4);
    let decoded: Vec<i16> = reader.into_samples::<i16>().map(|s| s.unwrap()).collect();
    assert_eq!(decoded, vec![0, 0, 0, 1]);
}

#[test]
fn export_rejects_non_wav_path() {
    let clip = clip_of(&[0.0, 0.5], 16000);
    assert_eq!(clip.export("clip.mp3"), Err(AudioError::InvalidArgument));
    assert_eq!(clip.export(""), Err(AudioError::InvalidArgument));
    assert_eq!(clip.export("wav"), Err(AudioError::InvalidArgument));
    assert_eq!(clip.export("clip.WAV"), Err(AudioError::InvalidArgument));
}

#[test]
fn wav_path_suffix_check() {
    assert!(wav_path_ok("a.wav"));
    assert!(wav_path_ok(".wav"));
    assert!(wav_path_ok("dir.name/clip.wav"));
    assert!(!wav_path_ok("wav"));
    assert!(!wav_path_ok("clip.wav.mp3"));
    assert!(!wav_path_ok("clip.WAV"));
}

#[test]
fn exported_header_bytes() {
    let clip = clip_of(&[1.0, -1.0], 8000);
    let bytes = clip.export("tone.wav").unwrap();
    assert_eq!(&bytes[0..4], b"RIFF");
    assert_eq!(&bytes[8..12], b"WAVE");
    assert_eq!(&bytes[12..16], b"fmt ");
    assert_eq!(&bytes[36..40], b"data");
    assert_eq!(bytes.len(), 44 + 2 * 2);
    // the two samples, narrowed: 1.0 -> 1, -1.0 -> -1
    assert_eq!(&bytes[44..46], &[1u8, 0u8]);
    assert_eq!(&bytes[46..48], &[0xffu8, 0xffu8]);
}
