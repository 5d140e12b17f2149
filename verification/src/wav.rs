//! WAV container construction for text-to-speech audio: a 16-bit PCM byte
//! buffer is wrapped in a RIFF/WAVE header. The audio itself travels as
//! base64 text, decoded and re-encoded through the `base64` crate.

use vstd::prelude::*;

verus! {

/// Little-endian bytes of a 16-bit value.
pub open spec fn le16(x: int) -> Seq<u8> {
    seq![(x % 256) as u8, (x / 256 % 256) as u8]
}

/// Little-endian bytes of a 32-bit value.
pub open spec fn le32(x: int) -> Seq<u8> {
    seq![
        (x % 256) as u8,
        (x / 256 % 256) as u8,
        (x / 65536 % 256) as u8,
        (x / 16777216 % 256) as u8,
    ]
}

/// The 44-byte RIFF/WAVE header for a 16-bit PCM payload of `len` bytes.
pub open spec fn wav_header(len: int, sample_rate: int, channels: int) -> Seq<u8> {
    seq![82u8, 73, 70, 70]  // "RIFF"
     + le32(36 + len) + seq![87u8, 65, 86, 69]  // "WAVE"
     + seq![102u8, 109, 116, 32]  // "fmt "
     + le32(16) + le16(1) + le16(channels) + le32(sample_rate) + le32(sample_rate * channels * 2)
        + le16(channels * 2) + le16(16) + seq![100u8, 97, 116, 97]  // "data"
     + le32(len)
}

/// A complete WAV file: the header followed by the PCM data.
pub open spec fn wav_bytes(pcm: Seq<u8>, sample_rate: int, channels: int) -> Seq<u8> {
    wav_header(pcm.len() as int, sample_rate, channels) + pcm
}

/// Appends the little-endian bytes of a 16-bit value.
fn push_le16(v: &mut Vec<u8>, x: u16)
    ensures
        final(v)@ == old(v)@ + le16(x as int),
{
    v.push((x % 256) as u8);
    v.push((x / 256 % 256) as u8);
    proof {
        assert(final(v)@ =~= old(v)@ + le16(x as int));
    }
}

/// Appends the little-endian bytes of a 32-bit value.
fn push_le32(v: &mut Vec<u8>, x: u32)
    ensures
        final(v)@ == old(v)@ + le32(x as int),
{
    v.push((x % 256) as u8);
    v.push((x / 256 % 256) as u8);
    v.push((x / 65536 % 256) as u8);
    v.push((x / 16777216 % 256) as u8);
    proof {
        assert(final(v)@ =~= old(v)@ + le32(x as int));
    }
}

/// Wraps a 16-bit PCM byte buffer in a RIFF/WAVE header: the exact 44-byte
/// header for the given sample rate and channel count, followed by the data
/// unchanged.
pub fn create_wav_file(pcm_data: &[u8], sample_rate: u32, channels: u16) -> (r: Vec<u8>)
    requires
        pcm_data@.len() + 36 <= u32::MAX,
        channels <= 0x7FFF,
        sample_rate * channels * 2 <= u32::MAX,
    ensures
        r@ == wav_bytes(pcm_data@, sample_rate as int, channels as int),
{
    let data_size: u32 = pcm_data.len() as u32;
    let file_size: u32 = 36 + data_size;
    proof {
        assert(sample_rate * channels <= sample_rate * channels * 2) by (nonlinear_arith)
            requires
                sample_rate >= 0,
                channels >= 0,
        ;
    }
    let byte_rate: u32 = sample_rate * (channels as u32) * 2;
    let block_align: u16 = channels * 2;

    let mut v: Vec<u8> = Vec::new();
    v.push(82);
    v.push(73);
    v.push(70);
    v.push(70);
    push_le32(&mut v, file_size);
    v.push(87);
    v.push(65);
    v.push(86);
    v.push(69);
    v.push(102);
    v.push(109);
    v.push(116);
    v.push(32);
    push_le32(&mut v, 16);
    push_le16(&mut v, 1);
    push_le16(&mut v, channels);
    push_le32(&mut v, sample_rate);
    push_le32(&mut v, byte_rate);
    push_le16(&mut v, block_align);
    push_le16(&mut v, 16);
    v.push(100);
    v.push(97);
    v.push(116);
    v.push(97);
    push_le32(&mut v, data_size);
    proof {
        assert(v@ =~= wav_header(pcm_data@.len() as int, sample_rate as int, channels as int));
    }
    let mut r = v;
    r.extend_from_slice(pcm_data);
    proof {
        assert(r@ =~= wav_bytes(pcm_data@, sample_rate as int, channels as int));
    }
    r
}

/// What the standard base64 alphabet encodes a byte sequence to. The exact
/// text takes pages to state; the encoding is a function of the bytes alone.
pub uninterp spec fn base64_of(data: Seq<u8>) -> Seq<char>;

/// What standard base64 decoding yields for a character sequence: the
/// decoded bytes, or nothing when the text is not valid base64.
pub uninterp spec fn base64_decode_of(s: Seq<char>) -> Option<Seq<u8>>;

/// Relies on the `base64` crate's standard engine: `Engine::encode` is a
/// pure function of the input bytes.
#[verifier::external_body]
fn b64_encode(data: &[u8]) -> (r: String)
    ensures
        r@ == base64_of(data@),
{
    base64::Engine::encode(&base64::engine::general_purpose::STANDARD, data)
}

/// Relies on the `base64` crate's standard engine: `Engine::decode` is a
/// pure function of the input text, and fails exactly on invalid base64.
#[verifier::external_body]
fn b64_decode(s: &str) -> (r: Option<Vec<u8>>)
    ensures
        match r {
            Some(v) => base64_decode_of(s@) == Some(v@),
            None => base64_decode_of(s@) is None,
        },
{
    base64::Engine::decode(&base64::engine::general_purpose::STANDARD, s).ok()
}

/// Decodes base64 PCM audio, wraps it in a WAV header, and re-encodes the
/// file as base64, as the text-to-speech path does. Yields nothing when the
/// input is not valid base64 or the decoded audio is too large for a WAV
/// container.
pub fn wav_from_pcm_base64(pcm_b64: &str, sample_rate: u32, channels: u16) -> (r: Option<String>)
    requires
        channels <= 0x7FFF,
        sample_rate * channels * 2 <= u32::MAX,
    ensures
        match base64_decode_of(pcm_b64@) {
            Some(pcm) => {
                if pcm.len() + 36 <= u32::MAX {
                    r matches Some(w) && w@ == base64_of(
                        wav_bytes(pcm, sample_rate as int, channels as int),
                    )
                } else {
                    r is None
                }
            },
            None => r is None,
        },
{
    let pcm = match b64_decode(pcm_b64) {
        Some(p) => p,
        None => {
            return None;
        },
    };
    if pcm.len() > (u32::MAX - 36) as usize {
        return None;
    }
    let wav = create_wav_file(pcm.as_slice(), sample_rate, channels);
    Some(b64_encode(wav.as_slice()))
}

} // verus!
