//! The part of the application settings that transcription reads, the
//! OpenRouter provider record, and the language hint sent with an upload.

use vstd::prelude::*;

use crate::text::{eq_ignore_ascii_case, same_ignoring_ascii_case, same_text, trim, trimmed};

verus! {

/// Provider id owning the shared OpenRouter API key and attribution headers.
pub const PROVIDER_ID: &'static str = "openrouter";

/// OpenRouter API root, kept for the provider record only.
pub const PROVIDER_BASE_URL: &'static str = "https://openrouter.ai/api/v1";

/// Public model catalog filtered to speech-to-text models (no API key required).
pub const MODELS_URL: &'static str = "https://openrouter.ai/api/v1/models?output_modalities=transcription";

/// Audio transcription endpoint.
pub const TRANSCRIPTIONS_URL: &'static str = "https://openrouter.ai/api/v1/audio/transcriptions";

/// Which engine turns recordings into text.
#[derive(Clone, Copy, Debug, PartialEq, Eq, Structural)]
pub enum TranscriptionProvider {
    Local,
    OpenRouter,
}

/// How long a loaded local model stays in memory when idle.
#[derive(Clone, Copy, Debug, PartialEq, Eq, Structural)]
pub enum ModelUnloadTimeout {
    Never,
    Immediately,
    Min2,
    Min5,
    Min10,
    Min15,
    Hour1,
    Sec5,
}

/// The settings that model selection and cloud transcription read and write.
#[derive(Clone, Debug)]
pub struct AppSettings {
    /// The local model in use (empty when none).
    pub selected_model: String,
    /// The language chosen for recognition, or `auto`.
    pub selected_language: String,
    pub transcription_provider: TranscriptionProvider,
    /// The OpenRouter model used for cloud transcription.
    pub openrouter_transcription_model: String,
    /// API keys by provider id; each provider stands at most once
    /// (`providers_unique`), and a lookup takes the first entry.
    pub post_process_api_keys: Vec<(String, String)>,
    pub onboarding_completed: bool,
    pub model_unload_timeout: ModelUnloadTimeout,
    /// Whether transcripts are post-processed by a language model.
    pub post_process_enabled: bool,
    /// The provider used for post-processing.
    pub post_process_provider_id: String,
    /// The post-processing model chosen for each provider id.
    pub post_process_models: Vec<(String, String)>,
    /// The post-processing prompt in use, if any.
    pub post_process_selected_prompt_id: Option<String>,
    /// Words whose spelling transcripts are corrected to.
    pub custom_words: Vec<String>,
    /// Whether filler words are removed from transcripts.
    pub filler_word_removal_enabled: bool,
}

impl Default for AppSettings {
    fn default() -> (r: AppSettings)
        ensures
            r.selected_model@ == Seq::<char>::empty(),
            r.selected_language@ == "auto"@,
            r.transcription_provider == TranscriptionProvider::Local,
            r.openrouter_transcription_model@ == Seq::<char>::empty(),
            r.post_process_api_keys@ == Seq::<(String, String)>::empty(),
            !r.onboarding_completed,
            r.model_unload_timeout == ModelUnloadTimeout::Never,
            !r.post_process_enabled,
            r.post_process_provider_id@ == Seq::<char>::empty(),
            r.post_process_models@ == Seq::<(String, String)>::empty(),
            r.post_process_selected_prompt_id is None,
            r.custom_words@ == Seq::<String>::empty(),
            !r.filler_word_removal_enabled,
    {
        AppSettings {
            selected_model: String::new(),
            selected_language: String::from_str("auto"),
            transcription_provider: TranscriptionProvider::Local,
            openrouter_transcription_model: String::new(),
            post_process_api_keys: Vec::new(),
            onboarding_completed: false,
            model_unload_timeout: ModelUnloadTimeout::Never,
            post_process_enabled: false,
            post_process_provider_id: String::new(),
            post_process_models: Vec::new(),
            post_process_selected_prompt_id: None,
            custom_words: Vec::new(),
            filler_word_removal_enabled: false,
        }
    }
}

/// The key stored for `provider`: the first entry with that provider id.
pub open spec fn key_lookup(keys: Seq<(String, String)>, provider: Seq<char>) -> Option<Seq<char>>
    decreases keys.len(),
{
    if keys.len() == 0 {
        None
    } else if keys[0].0@ == provider {
        Some(keys[0].1@)
    } else {
        key_lookup(keys.drop_first(), provider)
    }
}

/// Each provider id stands at most once among `keys`, as in the map they
/// come from.
pub open spec fn providers_unique(keys: Seq<(String, String)>) -> bool {
    forall|i: int, j: int| 0 <= i < j < keys.len() ==> (#[trigger] keys[i]).0@ != (#[trigger] keys[j]).0@
}

/// Where each provider stands at most once, the key stored for a provider is
/// the one entry with its id, wherever that entry stands.
pub proof fn lemma_key_lookup_unique(keys: Seq<(String, String)>, i: int)
    requires
        providers_unique(keys),
        0 <= i < keys.len(),
    ensures
        key_lookup(keys, keys[i].0@) == Some(keys[i].1@),
    decreases i,
{
    if i > 0 {
        let rest = keys.drop_first();
        assert(keys[0].0@ != keys[i].0@);
        assert(rest[i - 1] == keys[i]);
        assert forall|a: int, b: int| 0 <= a < b < rest.len() implies (#[trigger] rest[a]).0@
            != (#[trigger] rest[b]).0@ by {
            assert(rest[a] == keys[a + 1] && rest[b] == keys[b + 1]);
        }
        lemma_key_lookup_unique(rest, i - 1);
    }
}

/// The OpenRouter key of `settings`, empty when there is none.
pub open spec fn openrouter_key(settings: AppSettings) -> Seq<char> {
    match key_lookup(settings.post_process_api_keys@, PROVIDER_ID@) {
        Some(k) => k,
        None => Seq::empty(),
    }
}

/// An OpenRouter key is stored and is not blank.
pub open spec fn has_openrouter_key(settings: AppSettings) -> bool {
    trimmed(openrouter_key(settings)).len() > 0
}

impl AppSettings {
    /// The API key stored for `provider`, if any.
    pub fn api_key(&self, provider: &str) -> (r: Option<String>)
        ensures
            match r {
                Some(k) => key_lookup(self.post_process_api_keys@, provider@) == Some(k@),
                None => key_lookup(self.post_process_api_keys@, provider@) is None,
            },
            providers_unique(self.post_process_api_keys@) ==> forall|i: int|
                0 <= i < self.post_process_api_keys@.len() && (
                #[trigger] self.post_process_api_keys@[i]).0@ == provider@ ==> (r matches Some(k)
                    && k@ == self.post_process_api_keys@[i].1@),
    {
        let keys = &self.post_process_api_keys;
        let mut i: usize = 0;
        proof {
            assert(keys@.skip(0) =~= keys@);
            if providers_unique(keys@) {
                assert forall|j: int| 0 <= j < keys@.len() && (#[trigger] keys@[j]).0@
                    == provider@ implies key_lookup(keys@, provider@) == Some(keys@[j].1@) by {
                    lemma_key_lookup_unique(keys@, j);
                }
            }
        }
        while i < keys.len()
            invariant
                i <= keys.len(),
                providers_unique(keys@) ==> forall|j: int| 0 <= j < keys@.len() && (
                #[trigger] keys@[j]).0@ == provider@ ==> key_lookup(keys@, provider@) == Some(
                    keys@[j].1@,
                ),
                key_lookup(self.post_process_api_keys@, provider@) == key_lookup(
                    keys@.skip(i as int),
                    provider@,
                ),
                keys@ == self.post_process_api_keys@,
            decreases keys.len() - i,
        {
            proof {
                assert(keys@.skip(i as int).drop_first() =~= keys@.skip(i + 1));
                assert(keys@.skip(i as int)[0] == keys@[i as int]);
            }
            if same_text(keys[i].0.as_str(), provider) {
                return Some(keys[i].1.clone());
            }
            i = i + 1;
        }
        None
    }
}

/// What `recognition_language` turns a language choice into: Chinese script
/// variants become `zh`, every other choice is kept.
pub open spec fn recognition_language_spec(language: Seq<char>) -> Seq<char> {
    if language == "zh-Hans"@ || language == "zh-Hant"@ {
        "zh"@
    } else {
        language
    }
}

/// The recognition language code for a selected language. Chinese script
/// variants are not ISO-639-1 codes, so they are reduced to `zh`.
pub fn recognition_language(language: &str) -> (r: String)
    ensures
        r@ == recognition_language_spec(language@),
{
    if same_text(language, "zh-Hans") || same_text(language, "zh-Hant") {
        String::from_str("zh")
    } else {
        String::from_str(language)
    }
}

/// The language hint for a selected language: none for a blank choice or
/// `auto` (in any ASCII case), otherwise the trimmed choice as a recognition
/// language.
pub open spec fn language_hint_spec(selected: Seq<char>) -> Option<Seq<char>> {
    let language = trimmed(selected);
    if language.len() == 0 || eq_ignore_ascii_case(language, "auto"@) {
        None
    } else {
        Some(recognition_language_spec(language))
    }
}

/// Every language choice but a blank one or `auto` (in any ASCII case) is
/// sent as a hint: the trimmed choice itself, except that the Chinese script
/// variants `zh-Hans` and `zh-Hant` are sent as `zh`.
pub proof fn law_language_hint_keeps_the_choice(selected: Seq<char>)
    ensures
        trimmed(selected).len() == 0 ==> language_hint_spec(selected) is None,
        eq_ignore_ascii_case(trimmed(selected), "auto"@) ==> language_hint_spec(selected) is None,
        trimmed(selected).len() > 0 && !eq_ignore_ascii_case(trimmed(selected), "auto"@)
            && trimmed(selected) != "zh-Hans"@ && trimmed(selected) != "zh-Hant"@
            ==> language_hint_spec(selected) == Some(trimmed(selected)),
        trimmed(selected) == "zh-Hans"@ || trimmed(selected) == "zh-Hant"@ ==> language_hint_spec(
            selected,
        ) == Some("zh"@),
{
    reveal_strlit("auto");
    reveal_strlit("zh-Hans");
    reveal_strlit("zh-Hant");
}

/// The language hint to send for the current settings, or `None` for
/// auto-detect.
pub fn language_hint(settings: &AppSettings) -> (r: Option<String>)
    ensures
        match r {
            Some(l) => language_hint_spec(settings.selected_language@) == Some(l@),
            None => language_hint_spec(settings.selected_language@) is None,
        },
{
    let language = trim(settings.selected_language.as_str());
    if language.as_str().is_empty() || same_ignoring_ascii_case(language.as_str(), "auto") {
        return None;
    }
    Some(recognition_language(language.as_str()))
}

/// Provider metadata from which the attribution and auth headers are derived.
#[derive(Debug)]
pub struct PostProcessProvider {
    pub id: String,
    pub label: String,
    pub base_url: String,
    pub allow_base_url_edit: bool,
    pub models_endpoint: Option<String>,
    pub supports_structured_output: bool,
}

/// The OpenRouter provider record.
pub fn provider() -> (r: PostProcessProvider)
    ensures
        r.id@ == PROVIDER_ID@,
        r.label@ == "OpenRouter"@,
        r.base_url@ == PROVIDER_BASE_URL@,
        !r.allow_base_url_edit,
        r.models_endpoint matches Some(e) && e@ == "/models"@,
        r.supports_structured_output,
{
    PostProcessProvider {
        id: String::from_str(PROVIDER_ID),
        label: String::from_str("OpenRouter"),
        base_url: String::from_str(PROVIDER_BASE_URL),
        allow_base_url_edit: false,
        models_endpoint: Some(String::from_str("/models")),
        supports_structured_output: true,
    }
}

} // verus!
