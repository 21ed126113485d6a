use base64::Engine as _;
use openrouter_stt::payload::{build_payload, payload_body, upload_content, UploadPayload};
use openrouter_stt::wav::{
    check_sample_count, encode_wav, recording_wav_spec, SampleKind, WavCheckError,
    RECORDING_SAMPLE_RATE,
};

#[test]
fn recording_format_is_16k_mono_pcm16() {
    let f = recording_wav_spec();
    assert_eq!(f.channels, 1);
    assert_eq!(f.sample_rate, 16_000);
    assert_eq!(RECORDING_SAMPLE_RATE, 16_000);
    assert_eq!(f.bits_per_sample, 16);
    assert_eq!(f.sample_format, SampleKind::Int);
}

#[test]
fn encoded_wav_is_header_plus_little_endian_samples() {
    let samples: Vec<i16> = vec![16383, -16383, 0, i16::MIN, i16::MAX, -1];
    let bytes = encode_wav(&samples).unwrap();
    assert_eq!(bytes.len(), 44 + 2 * samples.len());
    assert_eq!(&bytes[0..4], b"RIFF");
    assert_eq!(&bytes[8..12], b"WAVE");
    for (i, s) in samples.iter().enumerate() {
        assert_eq!(bytes[44 + 2 * i], s.to_le_bytes()[0]);
        assert_eq!(bytes[45 + 2 * i], s.to_le_bytes()[1]);
    }
    let mut reader = hound::WavReader::new(std::io::Cursor::new(bytes)).unwrap();
    let spec = reader.spec();
    assert_eq!(spec.sample_rate, 16_000);
    assert_eq!(spec.channels, 1);
    assert_eq!(spec.bits_per_sample, 16);
    assert_eq!(spec.sample_format, hound::SampleFormat::Int);
    let decoded: Vec<i16> = reader.samples::<i16>().map(|s| s.unwrap()).collect();
    assert_eq!(decoded, samples);
}

#[test]
fn empty_recording_encodes_to_a_bare_header() {
    assert_eq!(encode_wav(&[]).unwrap().len(), 44);
}

fn standard_base64(bytes: &[u8]) -> String {
    base64::engine::general_purpose::STANDARD.encode(bytes)
}

#[test]
fn payload_carries_base64_wav_model_and_language() {
    let samples: Vec<i16> = (0..1600).map(|i| if i % 2 == 0 { 16383 } else { -16383 }).collect();
    let body = build_payload(
        &samples,
        "openai/whisper-large-v3".to_string(),
        Some("en".to_string()),
    )
    .unwrap();
    let json: serde_json::Value = serde_json::from_slice(&body).unwrap();
    let object = json.as_object().unwrap();
    let mut keys: Vec<&str> = object.keys().map(|k| k.as_str()).collect();
    keys.sort();
    assert_eq!(keys, vec!["input_audio", "language", "model", "response_format"]);
    assert_eq!(json["model"], "openai/whisper-large-v3");
    assert_eq!(json["response_format"], "json");
    assert_eq!(json["language"], "en");
    assert_eq!(json["input_audio"]["format"], "wav");
    assert_eq!(json["input_audio"].as_object().unwrap().len(), 2);
    let data = json["input_audio"]["data"].as_str().unwrap();
    let wav = base64::engine::general_purpose::STANDARD.decode(data.as_bytes()).unwrap();
    assert_eq!(wav, encode_wav(&samples).unwrap());
    let mut reader = hound::WavReader::new(std::io::Cursor::new(wav)).unwrap();
    let spec = reader.spec();
    assert_eq!(spec.sample_rate, 16_000);
    assert_eq!(spec.channels, 1);
    assert_eq!(spec.bits_per_sample, 16);
    assert_eq!(spec.sample_format, hound::SampleFormat::Int);
    let decoded: Vec<i16> = reader.samples::<i16>().map(|s| s.unwrap()).collect();
    assert_eq!(decoded.len(), samples.len());
    assert_eq!(decoded[0], 16383);
    assert_eq!(decoded[1], -16383);
}

#[test]
fn payload_without_language_has_no_language_member() {
    let body = build_payload(&[1, 2, 3], "m".to_string(), None).unwrap();
    let json: serde_json::Value = serde_json::from_slice(&body).unwrap();
    let object = json.as_object().unwrap();
    assert_eq!(object.len(), 3);
    assert!(object.get("language").is_none());
    assert_eq!(json["model"], "m");
}

#[test]
fn payload_body_is_compact_with_members_in_key_order() {
    let samples = [0x0102_i16];
    let data = standard_base64(&encode_wav(&samples).unwrap());
    let body = build_payload(&samples, "m".to_string(), None).unwrap();
    let expected = format!(
        "{{\"input_audio\":{{\"data\":\"{data}\",\"format\":\"wav\"}},\"model\":\"m\",\"response_format\":\"json\"}}"
    );
    assert_eq!(String::from_utf8(body).unwrap(), expected);
    let body = build_payload(&samples, "m".to_string(), Some("de".to_string())).unwrap();
    let expected = format!(
        "{{\"input_audio\":{{\"data\":\"{data}\",\"format\":\"wav\"}},\"language\":\"de\",\"model\":\"m\",\"response_format\":\"json\"}}"
    );
    assert_eq!(String::from_utf8(body).unwrap(), expected);
}

#[test]
fn payload_base64_is_standard_and_padded() {
    let payload = upload_content(&[0x0102], "m".to_string(), None).unwrap();
    assert_eq!(payload.language, None);
    assert_eq!(payload.model, "m");
    assert_eq!(payload.audio_format, "wav");
    assert_eq!(payload.response_format, "json");
    assert_eq!(payload.audio_data.len(), 4 * ((44 + 2 + 2) / 3));
    assert!(payload.audio_data.starts_with("UklGR"));
    assert!(payload.audio_data.ends_with("AQ=="));
}

#[test]
fn payload_body_escapes_json_strings() {
    let payload = UploadPayload {
        model: "a\"b\\c/d\u{e9}".to_string(),
        audio_data: "x\ny\tz\r".to_string(),
        audio_format: "\u{8}\u{c}\u{1}\u{1f}\u{7f}".to_string(),
        response_format: "json".to_string(),
        language: Some("zh".to_string()),
    };
    let body = payload_body(&payload);
    assert_eq!(
        body,
        "{\"input_audio\":{\"data\":\"x\\ny\\tz\\r\",\"format\":\"\\b\\f\\u0001\\u001f\u{7f}\"},\"language\":\"zh\",\"model\":\"a\\\"b\\\\c/d\u{e9}\",\"response_format\":\"json\"}"
    );
    let json: serde_json::Value = serde_json::from_str(&body).unwrap();
    assert_eq!(json["model"], "a\"b\\c/d\u{e9}");
    assert_eq!(json["input_audio"]["data"], "x\ny\tz\r");
    assert_eq!(json["input_audio"]["format"], "\u{8}\u{c}\u{1}\u{1f}\u{7f}");
}

#[test]
fn read_back_sample_count_must_match() {
    assert!(check_sample_count(10, 10).is_ok());
    match check_sample_count(10, 9) {
        Err(WavCheckError::SampleCountMismatch { expected, actual }) => {
            assert_eq!(expected, 10);
            assert_eq!(actual, 9);
        }
        Ok(()) => panic!("mismatch accepted"),
    }
}
