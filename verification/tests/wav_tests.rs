use base64::Engine;
use chat_proxy::wav::{create_wav_file, wav_from_pcm_base64};

/// The header bytes, written out by hand for 24 kHz mono with 4 data bytes.
fn expected_wav(pcm: &[u8]) -> Vec<u8> {
    let len = pcm.len() as u32;
    let mut v = Vec::new();
    v.extend_from_slice(b"RIFF");
    v.extend_from_slice(&(36 + len).to_le_bytes());
    v.extend_from_slice(b"WAVE");
    v.extend_from_slice(b"fmt ");
    v.extend_from_slice(&16u32.to_le_bytes());
    v.extend_from_slice(&1u16.to_le_bytes());
    v.extend_from_slice(&1u16.to_le_bytes()); // channels
    v.extend_from_slice(&24000u32.to_le_bytes()); // sample rate
    v.extend_from_slice(&48000u32.to_le_bytes()); // byte rate
    v.extend_from_slice(&2u16.to_le_bytes()); // block align
    v.extend_from_slice(&16u16.to_le_bytes()); // bits per sample
    v.extend_from_slice(b"data");
    v.extend_from_slice(&len.to_le_bytes());
    v.extend_from_slice(pcm);
    v
}

#[test]
fn wav_header_is_exact() {
    let pcm = [0x01u8, 0x02, 0x03, 0x04];
    let wav = create_wav_file(&pcm, 24000, 1);
    assert_eq!(wav.len(), 48);
    assert_eq!(wav, expected_wav(&pcm));
}

#[test]
fn wav_header_stereo_rates() {
    let pcm = [0u8; 8];
    let wav = create_wav_file(&pcm, 44100, 2);
    assert_eq!(&wav[..4], b"RIFF");
    assert_eq!(&wav[22..24], &2u16.to_le_bytes()); // channels
    assert_eq!(&wav[24..28], &44100u32.to_le_bytes()); // sample rate
    assert_eq!(&wav[28..32], &176400u32.to_le_bytes()); // byte rate
    assert_eq!(&wav[32..34], &4u16.to_le_bytes()); // block align
    assert_eq!(&wav[44..], &pcm);
}

#[test]
fn tts_audio_roundtrip_through_base64() {
    let pcm = [0x10u8, 0x20, 0x30, 0x40];
    let pcm_b64 = base64::engine::general_purpose::STANDARD.encode(pcm);
    let wav_b64 = wav_from_pcm_base64(&pcm_b64, 24000, 1).unwrap();
    // The result must be the base64 of the exact WAV file, so a wrapper that
    // handed its input back unchanged would fail here.
    let expected = base64::engine::general_purpose::STANDARD.encode(expected_wav(&pcm));
    assert_eq!(wav_b64, expected);
    assert_ne!(wav_b64, pcm_b64);
}

#[test]
fn invalid_base64_audio_is_rejected() {
    assert!(wav_from_pcm_base64("not%%base64", 24000, 1).is_none());
}
