//! A transcription upload: its content (the recording as base64 WAV, the
//! model and the optional language hint) and the JSON request body.

use vstd::prelude::*;

use base64::Engine;

use vstd::utf8::encode_utf8;

use crate::json::{json_quote, json_string_literal};
use crate::wav::{encode_wav, pcm16_mono_wav, MAX_PCM16_SAMPLES, RECORDING_SAMPLE_RATE};

verus! {

/// The base64 digit for a 6-bit value, in the standard alphabet.
pub open spec fn base64_digit(v: int) -> char {
    if v < 26 {
        (65 + v) as char
    } else if v < 52 {
        (97 + v - 26) as char
    } else if v < 62 {
        (48 + v - 52) as char
    } else if v == 62 {
        '+'
    } else {
        '/'
    }
}

/// Standard base64 with `=` padding (RFC 4648, section 4): every three bytes
/// become four digits, and a final one or two bytes become two or three
/// digits padded to four.
pub open spec fn base64_standard(bytes: Seq<u8>) -> Seq<char>
    decreases bytes.len(),
{
    if bytes.len() == 0 {
        seq![]
    } else if bytes.len() == 1 {
        let a = bytes[0] as int;
        seq![base64_digit(a / 4), base64_digit((a % 4) * 16), '=', '=']
    } else if bytes.len() == 2 {
        let a = bytes[0] as int;
        let b = bytes[1] as int;
        seq![base64_digit(a / 4), base64_digit((a % 4) * 16 + b / 16), base64_digit((b % 16) * 4), '=']
    } else {
        let a = bytes[0] as int;
        let b = bytes[1] as int;
        let c = bytes[2] as int;
        seq![
            base64_digit(a / 4),
            base64_digit((a % 4) * 16 + b / 16),
            base64_digit((b % 16) * 4 + c / 64),
            base64_digit(c % 64),
        ] + base64_standard(bytes.skip(3))
    }
}

/// Calls `base64::engine::general_purpose::STANDARD.encode`, which encodes
/// with the standard alphabet and padding; it panics when the encoded length
/// does not fit in `usize`, which `requires` rules out.
#[verifier::external_body]
fn base64_encode(bytes: &[u8]) -> (r: String)
    requires
        4 * ((bytes@.len() + 2) / 3) <= usize::MAX,
    ensures
        r@ == base64_standard(bytes@),
{
    base64::engine::general_purpose::STANDARD.encode(bytes)
}

/// The content of a transcription upload; `payload_body` writes it as the
/// JSON request body.
#[derive(Debug)]
pub struct UploadPayload {
    pub model: String,
    /// The recording as a base64 WAV stream.
    pub audio_data: String,
    /// Always `wav`.
    pub audio_format: String,
    /// Always `json`.
    pub response_format: String,
    pub language: Option<String>,
}

/// An optional text by its characters.
pub open spec fn text_option(t: Option<String>) -> Option<Seq<char>> {
    match t {
        Some(s) => Some(s@),
        None => None,
    }
}

/// The JSON request body of an upload, as serde_json writes the object
/// `{"model", "input_audio": {"data", "format"}, "response_format"}` with a
/// `language` member only when there is a hint: compact, members in key order.
pub open spec fn upload_body(
    model: Seq<char>,
    audio_data: Seq<char>,
    audio_format: Seq<char>,
    response_format: Seq<char>,
    language: Option<Seq<char>>,
) -> Seq<char> {
    "{\"input_audio\":{\"data\":"@ + json_string_literal(audio_data) + ",\"format\":"@
        + json_string_literal(audio_format) + "},"@ + match language {
        Some(l) => "\"language\":"@ + json_string_literal(l) + ","@,
        None => Seq::empty(),
    } + "\"model\":"@ + json_string_literal(model) + ",\"response_format\":"@
        + json_string_literal(response_format) + "}"@
}

/// The JSON request body of `payload`.
pub open spec fn payload_json(payload: UploadPayload) -> Seq<char> {
    upload_body(
        payload.model@,
        payload.audio_data@,
        payload.audio_format@,
        payload.response_format@,
        text_option(payload.language),
    )
}

/// The recordings that fit in one upload: one WAV stream, whose base64 text
/// must also fit in memory.
pub open spec fn uploadable(sample_count: int) -> bool {
    &&& sample_count <= MAX_PCM16_SAMPLES
    &&& 8 * sample_count + 200 <= 3 * (usize::MAX as int)
}

/// Recordings are refused only for capacity: every recording whose WAV
/// stream fits the 32-bit RIFF size field (36 + 2n bytes) and whose base64
/// text fits in memory is uploadable, and every uploadable recording has a
/// RIFF size that fits.
pub proof fn law_uploads_are_limited_only_by_capacity(n: int)
    ensures
        0 <= n && 36 + 2 * n <= 0xFFFF_FFFF && 8 * n + 200 <= 3 * (usize::MAX as int) ==> uploadable(
            n,
        ),
        uploadable(n) ==> 36 + 2 * n <= 0xFFFF_FFFF,
{
}

/// Whether a recording of `sample_count` samples fits in one upload.
pub fn fits_one_upload(sample_count: usize) -> (r: bool)
    ensures
        r == uploadable(sample_count as int),
{
    sample_count <= MAX_PCM16_SAMPLES && (sample_count as u128) * 8 + 200 <= 3 * (
    usize::MAX as u128)
}

/// The upload content for 16-bit samples: the recording as base64 of its
/// 16 kHz mono 16-bit WAV stream, with the model and the language hint.
pub fn upload_content(samples: &[i16], model: String, language: Option<String>) -> (r: Result<
    UploadPayload,
    String,
>)
    requires
        uploadable(samples@.len() as int),
    ensures
        r is Ok,
        r matches Ok(p) ==> {
            &&& p.model@ == model@
            &&& p.audio_data@ == base64_standard(
                pcm16_mono_wav(RECORDING_SAMPLE_RATE as int, samples@),
            )
            &&& p.audio_format@ == "wav"@
            &&& p.response_format@ == "json"@
            &&& text_option(p.language) == text_option(language)
        },
{
    let wav = match encode_wav(samples) {
        Ok(bytes) => bytes,
        Err(e) => {
            let m = String::from_str("Failed to encode the recording as WAV: ").concat(e.as_str());
            return Err(m);
        },
    };
    let audio_data = base64_encode(wav.as_slice());
    Ok(
        UploadPayload {
            model,
            audio_data,
            audio_format: String::from_str("wav"),
            response_format: String::from_str("json"),
            language,
        },
    )
}

/// Writes `payload` as the JSON request body (see `upload_body`).
pub fn payload_body(payload: &UploadPayload) -> (r: String)
    ensures
        r@ == payload_json(*payload),
{
    let mut body = String::from_str("{\"input_audio\":{\"data\":");
    let data = json_quote(payload.audio_data.as_str());
    body.append(data.as_str());
    body.append(",\"format\":");
    let format = json_quote(payload.audio_format.as_str());
    body.append(format.as_str());
    body.append("},");
    let ghost head = body@;
    match &payload.language {
        Some(l) => {
            body.append("\"language\":");
            let language = json_quote(l.as_str());
            body.append(language.as_str());
            body.append(",");
        },
        None => {
            proof {
                assert(head + Seq::<char>::empty() =~= head);
            }
        },
    }
    body.append("\"model\":");
    let model = json_quote(payload.model.as_str());
    body.append(model.as_str());
    body.append(",\"response_format\":");
    let response_format = json_quote(payload.response_format.as_str());
    body.append(response_format.as_str());
    body.append("}");
    body
}

/// Builds the request body of an upload of 16-bit samples: the UTF-8 bytes
/// of the JSON object that carries the model, the recording as base64 of its
/// 16 kHz mono 16-bit WAV stream (`"format": "wav"`), `"response_format":
/// "json"` and, only when given, the language.
pub fn build_payload(samples: &[i16], model: String, language: Option<String>) -> (r: Result<
    Vec<u8>,
    String,
>)
    requires
        uploadable(samples@.len() as int),
    ensures
        r is Ok,
        r matches Ok(bytes) ==> bytes@ == encode_utf8(
            upload_body(
                model@,
                base64_standard(pcm16_mono_wav(RECORDING_SAMPLE_RATE as int, samples@)),
                "wav"@,
                "json"@,
                text_option(language),
            ),
        ),
{
    let payload = match upload_content(samples, model, language) {
        Ok(p) => p,
        Err(e) => {
            return Err(e);
        },
    };
    let body = payload_body(&payload);
    Ok(body.as_str().as_bytes_vec())
}

} // verus!
