//! How an upload exchange can fail, and which failures may be retried.
//!
//! Only a failure to establish the connection and HTTP 429 are retryable: in
//! every other case the provider may already have received, transcribed and
//! billed the audio, so replaying it is not safe.

use vstd::prelude::*;

use crate::json::{
    json_as_str, json_get, keys_unique, lemma_member_lookup_unique, JsonMember, JsonValue,
};

verus! {

/// A failed upload, classified by the retry policy.
#[derive(Debug)]
pub struct UploadError {
    pub message: String,
    /// Only connection-establishment failures and HTTP 429 are eligible.
    pub retryable: bool,
}

impl UploadError {
    /// A failure that the retry policy may repeat.
    pub fn retryable(message: String) -> (r: UploadError)
        ensures
            r.message@ == message@,
            r.retryable,
    {
        UploadError { message, retryable: true }
    }

    /// A failure that is final.
    pub fn fatal(message: String) -> (r: UploadError)
        ensures
            r.message@ == message@,
            !r.retryable,
    {
        UploadError { message, retryable: false }
    }
}

/// Start of every timeout message.
pub const TIMED_OUT: &'static str = "OpenRouter request timed out";

/// The three decimal digits of a status code between 100 and 999.
pub open spec fn three_digits(code: u16) -> Seq<char> {
    seq![
        ((48 + code / 100) as u32) as char,
        ((48 + (code / 10) % 10) as u32) as char,
        ((48 + code % 10) as u32) as char,
    ]
}

/// The text that HTTP gives a status code: its digits, a space and its
/// canonical reason phrase.
pub uninterp spec fn http_status_line(code: u16) -> Seq<char>;

/// Calls `reqwest::StatusCode::from_u16` and formats the status with its
/// `Display`, which writes the code, a space and the canonical reason (or
/// `<unknown status code>`); this claims that result, of which the part
/// before the reason is stated here.
#[verifier::external_body]
fn status_line(code: u16) -> (r: String)
    requires
        100 <= code <= 999,
    ensures
        r@ == http_status_line(code),
        r@.len() >= 4,
        r@.take(4) == three_digits(code).push(' '),
{
    match reqwest::StatusCode::from_u16(code) {
        Ok(status) => status.to_string(),
        Err(_) => code.to_string(),
    }
}

/// The message for a non-2xx status. The response body never enters it: it
/// can echo request data and would leak into logs and toasts.
pub open spec fn status_message(context: Seq<char>, code: u16) -> Seq<char> {
    if code == 401 {
        "OpenRouter rejected the API key (401). Re-enter it in Settings → Models."@
    } else if code == 402 {
        "OpenRouter has insufficient credits for this request (402)."@
    } else if code == 403 {
        "OpenRouter denied access to this model (403)."@
    } else if code == 404 {
        "This transcription model is unavailable on OpenRouter (404). Pick another model."@
    } else if code == 413 {
        "The recording is too large for OpenRouter (413)."@
    } else if code == 429 {
        "OpenRouter rate-limited the request (429). Try again in a moment."@
    } else {
        context + " failed with status "@ + http_status_line(code)
    }
}

/// Maps a non-2xx status to an actionable error. HTTP 429 is retryable; no
/// other status is, 5xx included.
pub fn status_error(context: &str, status: u16) -> (r: UploadError)
    requires
        100 <= status <= 999,
    ensures
        r.message@ == status_message(context@, status),
        r.retryable == (status == 429),
        names_status(r.message@, status),
{
    let message = if status == 401 {
        String::from_str("OpenRouter rejected the API key (401). Re-enter it in Settings → Models.")
    } else if status == 402 {
        String::from_str("OpenRouter has insufficient credits for this request (402).")
    } else if status == 403 {
        String::from_str("OpenRouter denied access to this model (403).")
    } else if status == 404 {
        String::from_str(
            "This transcription model is unavailable on OpenRouter (404). Pick another model.",
        )
    } else if status == 413 {
        String::from_str("The recording is too large for OpenRouter (413).")
    } else if status == 429 {
        String::from_str("OpenRouter rate-limited the request (429). Try again in a moment.")
    } else {
        let line = status_line(status);
        let prefix = String::from_str(context).concat(" failed with status ");
        let m = prefix.concat(line.as_str());
        proof {
            let k = prefix@.len() as int;
            assert(m@.subrange(k, k + 3) =~= three_digits(status)) by {
                assert forall|i: int| 0 <= i < 3 implies m@.subrange(k, k + 3)[i] == three_digits(
                    status,
                )[i] by {
                    assert(line@.take(4)[i] == line@[i]);
                }
            }
            assert(digits_at(m@, status, k));
        }
        m
    };
    proof {
        let m = message@;
        if status == 401 {
            reveal_strlit(
                "OpenRouter rejected the API key (401). Re-enter it in Settings → Models.",
            );
            assert(m.subrange(33, 36) =~= three_digits(status));
            assert(digits_at(m, status, 33));
        } else if status == 402 {
            reveal_strlit("OpenRouter has insufficient credits for this request (402).");
            assert(m.subrange(54, 57) =~= three_digits(status));
            assert(digits_at(m, status, 54));
        } else if status == 403 {
            reveal_strlit("OpenRouter denied access to this model (403).");
            assert(m.subrange(40, 43) =~= three_digits(status));
            assert(digits_at(m, status, 40));
        } else if status == 404 {
            reveal_strlit(
                "This transcription model is unavailable on OpenRouter (404). Pick another model.",
            );
            assert(m.subrange(55, 58) =~= three_digits(status));
            assert(digits_at(m, status, 55));
        } else if status == 413 {
            reveal_strlit("The recording is too large for OpenRouter (413).");
            assert(m.subrange(43, 46) =~= three_digits(status));
            assert(digits_at(m, status, 43));
        } else if status == 429 {
            reveal_strlit("OpenRouter rate-limited the request (429). Try again in a moment.");
            assert(m.subrange(37, 40) =~= three_digits(status));
            assert(digits_at(m, status, 37));
        }
    }
    if status == 429 {
        UploadError::retryable(message)
    } else {
        UploadError::fatal(message)
    }
}

/// The three digits of `code` stand in `message` at position `i`.
pub open spec fn digits_at(message: Seq<char>, code: u16, i: int) -> bool {
    0 <= i && i + 3 <= message.len() && message.subrange(i, i + 3) == three_digits(code)
}

/// `message` holds the three digits of `code` somewhere.
pub open spec fn names_status(message: Seq<char>, code: u16) -> bool {
    exists|i: int| #[trigger] digits_at(message, code, i)
}

/// A status in 200–299, as `StatusCode::is_success` tests it.
pub open spec fn is_success_status(code: u16) -> bool {
    200 <= code <= 299
}

/// How sending a request ended.
#[derive(Debug)]
pub enum SendOutcome {
    /// Response headers arrived with this status.
    Response { status: u16 },
    /// The transport failed; `connect` tells whether the connection was never
    /// established (only then is it certain the provider got nothing).
    Failed { message: String, connect: bool },
    /// The deadline passed with the request in flight.
    TimedOut,
}

/// How reading a response body ended.
#[derive(Debug)]
pub enum BodyOutcome {
    Bytes(Vec<u8>),
    Failed { message: String },
    TimedOut,
}

/// `TIMED_OUT (what)`.
pub open spec fn timeout_message(what: Seq<char>) -> Seq<char> {
    TIMED_OUT@ + " ("@ + what + ")"@
}

/// What an exchange does after sending: go on to read the body (`Ok`), or
/// fail. A failure to connect is retryable, any other transport failure and
/// a timeout are final (the provider may have received the upload), and a
/// non-2xx status is classified by [`status_error`] under `label`.
pub fn after_send(label: &str, outcome: SendOutcome) -> (r: Result<(), UploadError>)
    requires
        outcome matches SendOutcome::Response { status } ==> 100 <= status <= 999,
    ensures
        match outcome {
            SendOutcome::Response { status } => if is_success_status(status) {
                r is Ok
            } else {
                r matches Err(e) && e.message@ == status_message(label@, status) && e.retryable == (
                status == 429)
            },
            SendOutcome::Failed { message, connect } => (r matches Err(e) && e.message@
                == message@ && e.retryable == connect),
            SendOutcome::TimedOut => (r matches Err(e) && e.message@ == timeout_message(label@)
                && !e.retryable),
        },
{
    match outcome {
        SendOutcome::Response { status } => {
            if 200 <= status && status <= 299 {
                Ok(())
            } else {
                Err(status_error(label, status))
            }
        },
        SendOutcome::Failed { message, connect } => {
            if connect {
                Err(UploadError::retryable(message))
            } else {
                Err(UploadError::fatal(message))
            }
        },
        SendOutcome::TimedOut => Err(
            UploadError::fatal(
                String::from_str(TIMED_OUT).concat(" (").concat(label).concat(")"),
            ),
        ),
    }
}

/// What an exchange does after reading the body. Past the status the
/// provider has accepted the upload, so every failure here is final.
pub fn after_body(label: &str, outcome: BodyOutcome) -> (r: Result<Vec<u8>, UploadError>)
    ensures
        match outcome {
            BodyOutcome::Bytes(b) => (r matches Ok(x) && x@ == b@),
            BodyOutcome::Failed { message } => (r matches Err(e) && e.message@ == message@
                && !e.retryable),
            BodyOutcome::TimedOut => (r matches Err(e) && e.message@ == timeout_message(
                label@ + " response"@,
            ) && !e.retryable),
        },
{
    match outcome {
        BodyOutcome::Bytes(b) => Ok(b),
        BodyOutcome::Failed { message } => Err(UploadError::fatal(message)),
        BodyOutcome::TimedOut => {
            let what = String::from_str(label).concat(" response");
            Err(
                UploadError::fatal(
                    String::from_str(TIMED_OUT).concat(" (").concat(what.as_str()).concat(")"),
                ),
            )
        },
    }
}

/// The `text` member of a transcription response, when it is a string.
pub open spec fn response_text(parsed: JsonValue) -> Option<Seq<char>> {
    match json_get(parsed, "text"@) {
        Some(t) => json_as_str(t),
        None => None,
    }
}

/// Any string in a response's `text` member is the transcript, the empty
/// string (no speech) included; a response whose `text` member is missing or
/// is not a string carries none.
pub proof fn law_text_member_is_the_transcript(parsed: JsonValue, s: String)
    ensures
        json_get(parsed, "text"@) == Some(JsonValue::Str(s)) ==> response_text(parsed) == Some(s@),
        json_get(parsed, "text"@) is None ==> response_text(parsed) is None,
        (json_get(parsed, "text"@) matches Some(t) && !(t is Str)) ==> response_text(parsed) is None,
{
}

/// In a response object where each key stands once, the member named `text`
/// decides the transcript: a string member is returned as it is, whatever
/// its length.
pub proof fn law_response_object_text(members: Vec<JsonMember>, i: int, s: String)
    requires
        keys_unique(members@),
        0 <= i < members@.len(),
        members@[i].key@ == "text"@,
        members@[i].value == JsonValue::Str(s),
    ensures
        response_text(JsonValue::Object(members)) == Some(s@),
{
    lemma_member_lookup_unique(members@, i);
}

/// The transcript carried by a response body, given its parsed JSON (`None`
/// when the body was not JSON). Processing may have completed, so an
/// unusable response is final.
pub fn transcription_text(parsed: Option<&JsonValue>) -> (r: Result<String, UploadError>)
    ensures
        match parsed {
            None => (r matches Err(e) && e.message@
                == "OpenRouter returned a malformed transcription response"@ && !e.retryable),
            Some(v) => match response_text(*v) {
                Some(t) => (r matches Ok(s) && s@ == t),
                None => (r matches Err(e) && e.message@
                    == "OpenRouter transcription response contained no text"@ && !e.retryable),
            },
        },
{
    match parsed {
        None => Err(
            UploadError::fatal(
                String::from_str("OpenRouter returned a malformed transcription response"),
            ),
        ),
        Some(v) => {
            let text = match v.get("text") {
                Some(t) => t.as_str(),
                None => None,
            };
            match text {
                Some(s) => Ok(s.clone()),
                None => Err(
                    UploadError::fatal(
                        String::from_str("OpenRouter transcription response contained no text"),
                    ),
                ),
            }
        },
    }
}

} // verus!
