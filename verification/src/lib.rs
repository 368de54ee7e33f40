//! Audio capture, resampling and WAV export.
//!
//! The library coordinates a real-time producer (an audio device callback
//! appending into a shared capture buffer) with a consumer that extracts the
//! finished clip, and offers two pure transforms on the captured clip:
//! linear-interpolation resampling to a target rate, and serialization to a
//! mono 16-bit PCM WAV container.
//!
//! Samples are carried as the bit patterns of 32-bit floats, so that the
//! structural logic — buffering, downmixing, the length policy, the sample
//! narrowing and the container framing — is fully verified, while the
//! floating-point interpolation itself stays with the caller who runs the
//! rate converter, and the WAV writer is called behind one trusted wrapper
//! with an exact byte-level contract.

pub mod audio_clip;
pub mod capture;
pub mod error;
pub mod pcm;
pub mod session;
pub mod wav;
