//! The decisions of one cloud transcription: what is checked before any audio
//! is encoded, and the bounded retry policy that runs the uploads.
//!
//! A transcription makes at most [`MAX_TRANSCRIPTION_ATTEMPTS`] uploads within
//! one network budget, waiting 400 ms and then 1200 ms (clamped to what is
//! left of the budget) before a retry. Only retryable failures are retried.

use vstd::prelude::*;
use vstd::utf8::encode_utf8;

use crate::settings::{
    has_openrouter_key, language_hint, language_hint_spec, openrouter_key, AppSettings,
    PROVIDER_ID,
};
use crate::text::{trim, trimmed};
use crate::payload::{base64_standard, build_payload, fits_one_upload, upload_body, uploadable};
use crate::upload::UploadError;
use crate::wav::{pcm16_mono_wav, RECORDING_SAMPLE_RATE};

verus! {

/// Total network budget for one transcription, covering every attempt.
pub const TRANSCRIPTION_BUDGET_MS: u64 = 90_000;

/// Uploads one transcription may make.
pub const MAX_TRANSCRIPTION_ATTEMPTS: usize = 3;

/// Backoff before attempt 2, in nanoseconds (400 ms).
pub const FIRST_RETRY_BACKOFF_NS: u64 = 400_000_000;

/// Backoff before attempt 3, in nanoseconds (1200 ms).
pub const SECOND_RETRY_BACKOFF_NS: u64 = 1_200_000_000;

/// What an upload needs once the settings are known to allow one.
#[derive(Debug)]
pub struct UploadPlan {
    /// The selected model, trimmed.
    pub model: String,
    /// The stored OpenRouter key, as stored.
    pub api_key: String,
    /// The language hint, if any.
    pub language: Option<String>,
}

/// Checks the settings before any audio is encoded. An unselected model and a
/// missing or blank key are errors; empty audio needs no upload at all
/// (`Ok(None)`, which the caller answers with an empty transcript, as the
/// local engines do for no speech).
pub fn prepare_transcription(settings: &AppSettings, sample_count: usize) -> (r: Result<
    Option<UploadPlan>,
    String,
>)
    ensures
        trimmed(settings.openrouter_transcription_model@).len() == 0 ==> (r matches Err(e) && e@
            == "No OpenRouter transcription model is selected"@),
        trimmed(settings.openrouter_transcription_model@).len() > 0 && !has_openrouter_key(
            *settings,
        ) ==> (r matches Err(e) && e@ == "OpenRouter transcription needs an API key"@),
        trimmed(settings.openrouter_transcription_model@).len() > 0 && has_openrouter_key(*settings)
            && sample_count == 0 ==> r == Ok::<Option<UploadPlan>, String>(None),
        trimmed(settings.openrouter_transcription_model@).len() > 0 && has_openrouter_key(*settings)
            && sample_count > 0 ==> (r matches Ok(Some(plan)) && plan.model@ == trimmed(
            settings.openrouter_transcription_model@,
        ) && plan.api_key@ == openrouter_key(*settings) && match plan.language {
            Some(l) => language_hint_spec(settings.selected_language@) == Some(l@),
            None => language_hint_spec(settings.selected_language@) is None,
        }),
{
    let model = trim(settings.openrouter_transcription_model.as_str());
    if model.as_str().is_empty() {
        return Err(String::from_str("No OpenRouter transcription model is selected"));
    }
    let api_key = match settings.api_key(PROVIDER_ID) {
        Some(k) => k,
        None => String::new(),
    };
    if trim(api_key.as_str()).as_str().is_empty() {
        return Err(String::from_str("OpenRouter transcription needs an API key"));
    }
    if sample_count == 0 {
        return Ok(None);
    }
    let language = language_hint(settings);
    Ok(Some(UploadPlan { model, api_key, language }))
}

/// What every attempt of one transcription sends.
#[derive(Debug)]
pub struct PreparedUpload {
    /// The stored OpenRouter key, for the authorization header.
    pub api_key: String,
    /// The JSON request body, the same on every attempt.
    pub body: Vec<u8>,
}

/// Prepares the uploads of a recording of 16-bit samples: the checks of
/// `prepare_transcription`, in its order, then the request body built from
/// the trimmed model, the recording and the language hint. Empty audio needs
/// no upload (`Ok(None)`); a recording too long for one upload is an error.
pub fn prepare_upload(settings: &AppSettings, samples: &[i16]) -> (r: Result<
    Option<PreparedUpload>,
    String,
>)
    ensures
        trimmed(settings.openrouter_transcription_model@).len() == 0 ==> (r matches Err(e) && e@
            == "No OpenRouter transcription model is selected"@),
        trimmed(settings.openrouter_transcription_model@).len() > 0 && !has_openrouter_key(
            *settings,
        ) ==> (r matches Err(e) && e@ == "OpenRouter transcription needs an API key"@),
        trimmed(settings.openrouter_transcription_model@).len() > 0 && has_openrouter_key(*settings)
            && samples@.len() == 0 ==> r == Ok::<Option<PreparedUpload>, String>(None),
        trimmed(settings.openrouter_transcription_model@).len() > 0 && has_openrouter_key(*settings)
            && samples@.len() > 0 && !uploadable(samples@.len() as int) ==> (r matches Err(e)
            && e@ == "The recording is too long to upload"@),
        trimmed(settings.openrouter_transcription_model@).len() > 0 && has_openrouter_key(*settings)
            && samples@.len() > 0 && uploadable(samples@.len() as int) ==> (r matches Ok(Some(u))
            && u.api_key@ == openrouter_key(*settings) && u.body@ == encode_utf8(
            upload_body(
                trimmed(settings.openrouter_transcription_model@),
                base64_standard(pcm16_mono_wav(RECORDING_SAMPLE_RATE as int, samples@)),
                "wav"@,
                "json"@,
                language_hint_spec(settings.selected_language@),
            ),
        )),
{
    let plan = match prepare_transcription(settings, samples.len()) {
        Err(e) => {
            return Err(e);
        },
        Ok(None) => {
            return Ok(None);
        },
        Ok(Some(plan)) => plan,
    };
    if !fits_one_upload(samples.len()) {
        return Err(String::from_str("The recording is too long to upload"));
    }
    let body = match build_payload(samples, plan.model, plan.language) {
        Ok(bytes) => bytes,
        Err(e) => {
            return Err(e);
        },
    };
    Ok(Some(PreparedUpload { api_key: plan.api_key, body }))
}

/// The backoff before the attempt after `attempt`.
pub open spec fn backoff_ns(attempt: int) -> int {
    if attempt == 1 {
        FIRST_RETRY_BACKOFF_NS as int
    } else {
        SECOND_RETRY_BACKOFF_NS as int
    }
}

/// A failed attempt is repeated: it is retryable, attempts remain, and the
/// budget is not spent.
pub open spec fn may_retry(attempt: int, retryable: bool, remaining_ns: int) -> bool {
    retryable && attempt < MAX_TRANSCRIPTION_ATTEMPTS && remaining_ns > 0
}

/// The wait before a retry: the backoff, clamped to the remaining budget.
pub open spec fn retry_wait_ns(attempt: int, remaining_ns: int) -> int {
    if backoff_ns(attempt) <= remaining_ns {
        backoff_ns(attempt)
    } else {
        remaining_ns
    }
}

/// What follows an upload attempt.
#[derive(Debug)]
pub enum RetryDecision {
    /// The transcription ends with this result.
    Done(Result<String, String>),
    /// Wait this many nanoseconds, then make the next attempt.
    RetryAfter { wait_ns: u64 },
}

/// Decides what follows attempt number `attempt` (counting from 1), given its
/// outcome and the nanoseconds left of the budget.
pub fn after_attempt(attempt: usize, outcome: Result<String, UploadError>, remaining_ns: u64) -> (r:
    RetryDecision)
    requires
        1 <= attempt <= MAX_TRANSCRIPTION_ATTEMPTS,
    ensures
        match outcome {
            Ok(text) => (r matches RetryDecision::Done(Ok(t)) && t@ == text@),
            Err(e) => if may_retry(attempt as int, e.retryable, remaining_ns as int) {
                r matches RetryDecision::RetryAfter { wait_ns } && wait_ns == retry_wait_ns(
                    attempt as int,
                    remaining_ns as int,
                )
            } else {
                r matches RetryDecision::Done(Err(m)) && m@ == e.message@
            },
        },
{
    match outcome {
        Ok(text) => RetryDecision::Done(Ok(text)),
        Err(error) => {
            if error.retryable && attempt < MAX_TRANSCRIPTION_ATTEMPTS && remaining_ns > 0 {
                let backoff = if attempt == 1 {
                    FIRST_RETRY_BACKOFF_NS
                } else {
                    SECOND_RETRY_BACKOFF_NS
                };
                let wait_ns = if backoff <= remaining_ns {
                    backoff
                } else {
                    remaining_ns
                };
                RetryDecision::RetryAfter { wait_ns }
            } else {
                RetryDecision::Done(Err(error.message))
            }
        },
    }
}

/// What one upload attempt reported, as the retry policy sees it.
pub struct AttemptReport {
    pub succeeded: bool,
    pub retryable: bool,
    pub remaining_ns: u64,
}

/// The number of uploads a transcription makes, starting at attempt
/// `attempt`, when its uploads report `reports` in turn.
pub open spec fn uploads_made(attempt: int, reports: Seq<AttemptReport>) -> int
    decreases reports.len(),
{
    if reports.len() == 0 {
        0
    } else if reports[0].succeeded || !may_retry(
        attempt,
        reports[0].retryable,
        reports[0].remaining_ns as int,
    ) {
        1
    } else {
        1 + uploads_made(attempt + 1, reports.drop_first())
    }
}

/// Whatever the uploads report, one transcription makes at most
/// [`MAX_TRANSCRIPTION_ATTEMPTS`] of them.
pub proof fn law_uploads_bounded(reports: Seq<AttemptReport>)
    ensures
        uploads_made(1, reports) <= MAX_TRANSCRIPTION_ATTEMPTS,
{
    lemma_uploads_from(1, reports);
}

proof fn lemma_uploads_from(attempt: int, reports: Seq<AttemptReport>)
    requires
        1 <= attempt <= MAX_TRANSCRIPTION_ATTEMPTS,
    ensures
        uploads_made(attempt, reports) <= MAX_TRANSCRIPTION_ATTEMPTS + 1 - attempt,
    decreases reports.len(),
{
    if reports.len() > 0 && !reports[0].succeeded && may_retry(
        attempt,
        reports[0].retryable,
        reports[0].remaining_ns as int,
    ) {
        lemma_uploads_from(attempt + 1, reports.drop_first());
    }
}

/// A failure that is not retryable ends the transcription at once, whatever
/// attempt it was and however much budget is left; a retry never waits
/// longer than the remaining budget or than its backoff.
pub proof fn law_retry_is_bounded_and_selective(attempt: int, retryable: bool, remaining_ns: int)
    ensures
        !retryable ==> !may_retry(attempt, retryable, remaining_ns),
        may_retry(attempt, retryable, remaining_ns) ==> 0 < retry_wait_ns(attempt, remaining_ns)
            <= remaining_ns && retry_wait_ns(attempt, remaining_ns) <= backoff_ns(attempt),
{
}

} // verus!
