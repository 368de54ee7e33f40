use vstd::prelude::*;
use vstd::string::*;
use crate::pcm::pcm_of;

verus! {

/// The little-endian bytes of a 16-bit word.
pub open spec fn le16(word: u16) -> Seq<u8> {
    seq![(word & 0xff) as u8, ((word >> 8u16) & 0xff) as u8]
}

/// The little-endian bytes of a 32-bit word.
pub open spec fn le32(word: u32) -> Seq<u8> {
    seq![
        (word & 0xff) as u8,
        ((word >> 8u32) & 0xff) as u8,
        ((word >> 16u32) & 0xff) as u8,
        ((word >> 24u32) & 0xff) as u8,
    ]
}

/// The sample data of a mono 16-bit PCM stream: every sample in order, each
/// as a little-endian pair.
pub open spec fn pcm_data_bytes(pcm: Seq<i16>) -> Seq<u8>
    decreases pcm.len(),
{
    if pcm.len() == 0 {
        Seq::empty()
    } else {
        le16(pcm.first() as u16) + pcm_data_bytes(pcm.drop_first())
    }
}

/// The complete mono, 16-bit signed integer PCM WAV container holding `pcm`
/// at `sample_rate`: the canonical 44-byte header — the RIFF chunk with the
/// total size, the format chunk declaring integer PCM, one channel, the
/// rate, its byte rate and block alignment, and 16 bits per sample, and the
/// data chunk header with the payload size — followed by the sample data.
pub open spec fn wav_bytes(pcm: Seq<i16>, sample_rate: u32) -> Seq<u8> {
    seq![0x52u8, 0x49u8, 0x46u8, 0x46u8]  // the RIFF chunk tag
    + le32((36 + 2 * pcm.len()) as u32)
    + seq![0x57u8, 0x41u8, 0x56u8, 0x45u8]  // the WAVE form tag
    + seq![0x66u8, 0x6du8, 0x74u8, 0x20u8]  // the format chunk tag
    + le32(16)  // format chunk size
    + le16(1)  // integer PCM
    + le16(1)  // one channel
    + le32(sample_rate)
    + le32((2 * sample_rate) as u32)  // byte rate
    + le16(2)  // block alignment
    + le16(16)  // bits per sample
    + seq![0x64u8, 0x61u8, 0x74u8, 0x61u8]  // the data chunk tag
    + le32((2 * pcm.len()) as u32)
    + pcm_data_bytes(pcm)
}

/// The container bytes that exporting a clip with the given sample bit
/// patterns produces: every sample narrowed to 16-bit PCM, framed as above.
pub open spec fn exported_wav(samples: Seq<u32>, sample_rate: u32) -> Seq<u8> {
    wav_bytes(pcm_of(samples), sample_rate)
}

/// The container is its 44-byte header followed by two bytes per sample.
pub proof fn lemma_wav_bytes_len(pcm: Seq<i16>, sample_rate: u32)
    ensures
        pcm_data_bytes(pcm).len() == 2 * pcm.len(),
        wav_bytes(pcm, sample_rate).len() == 44 + 2 * pcm.len(),
    decreases pcm.len(),
{
    if pcm.len() > 0 {
        lemma_wav_bytes_len(pcm.drop_first(), sample_rate);
    }
}

/// A path that names a WAV file: it ends with the four characters `.wav`.
pub open spec fn has_wav_suffix(path: Seq<char>) -> bool {
    &&& path.len() >= 4
    &&& path[path.len() - 4] == '.'
    &&& path[path.len() - 3] == 'w'
    &&& path[path.len() - 2] == 'a'
    &&& path[path.len() - 1] == 'v'
}

/// Decides whether a path names a WAV file, without touching the filesystem.
pub fn wav_path_ok(path: &str) -> (ok: bool)
    ensures
        ok == has_wav_suffix(path@),
{
    let n = path.unicode_len();
    if n < 4 {
        return false;
    }
    path.get_char(n - 4) == '.' && path.get_char(n - 3) == 'w' && path.get_char(n - 2) == 'a'
        && path.get_char(n - 1) == 'v'
}

/// Relies on hound's `WavWriter` over an in-memory cursor: for a mono,
/// 16-bit, integer-format spec it writes the canonical 44-byte header
/// (`write_headers` and `write_pcmwaveformat` in hound's write.rs, with both
/// size fields filled in by `update_header` on `finalize`), and appends each
/// written sample as a little-endian pair (the 16-bit arm of the integer
/// `Sample` impl in hound's lib.rs).  The bounds keep the two size fields
/// and the byte rate inside 32 bits, which that layout assumes.  Encoding
/// always succeeds: 16 bits is in hound's supported list, a write or seek
/// on an in-memory cursor cannot fail, and with one channel the
/// unfinished-sample check in `update_header` always passes.
#[verifier::external_body]
pub(crate) fn hound_wav_bytes(pcm: &Vec<i16>, sample_rate: u32) -> (encoded: Option<Vec<u8>>)
    requires
        0 < sample_rate,
        2 * sample_rate <= u32::MAX,
        36 + 2 * pcm@.len() <= u32::MAX,
    ensures
        encoded is Some,
        encoded matches Some(bytes) ==> bytes@ == wav_bytes(pcm@, sample_rate),
{
    let format = hound::WavSpec {
        channels: 1, sample_rate, bits_per_sample: 16, sample_format: hound::SampleFormat::Int,
    };
    let mut cursor = std::io::Cursor::new(Vec::new());
    let mut encoder = hound::WavWriter::new(&mut cursor, format).ok()?;
    let mut i: usize = 0;
    while i < pcm.len() {
        encoder.write_sample(pcm[i]).ok()?;
        i += 1;
    }
    encoder.finalize().ok()?;
    Some(cursor.into_inner())
}

} // verus!
