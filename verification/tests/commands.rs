use openrouter_stt::commands::{
    clear_local_selection, deletes_active_model, CloudModelSwitch, CommandAction, CommandEvent,
    LocalModelSwitch, ModelDeletion, ModelSummary,
};
use openrouter_stt::settings::{AppSettings, ModelUnloadTimeout, TranscriptionProvider};

fn base_settings() -> AppSettings {
    AppSettings {
        selected_model: "old-model".to_string(),
        transcription_provider: TranscriptionProvider::OpenRouter,
        openrouter_transcription_model: "openai/whisper-large-v3".to_string(),
        post_process_api_keys: vec![("openrouter".to_string(), "sk".to_string())],
        onboarding_completed: false,
        model_unload_timeout: ModelUnloadTimeout::Min5,
        post_process_enabled: true,
        post_process_provider_id: "openrouter".to_string(),
        post_process_models: vec![("openrouter".to_string(), "acme/llm".to_string())],
        post_process_selected_prompt_id: Some("tidy".to_string()),
        custom_words: vec!["OpenRouter".to_string()],
        filler_word_removal_enabled: true,
        ..Default::default()
    }
}

fn assert_post_processing_kept(s: &AppSettings) {
    assert!(s.post_process_enabled);
    assert_eq!(s.post_process_provider_id, "openrouter");
    assert_eq!(
        s.post_process_models,
        vec![("openrouter".to_string(), "acme/llm".to_string())]
    );
    assert_eq!(s.post_process_selected_prompt_id.as_deref(), Some("tidy"));
    assert_eq!(s.custom_words, vec!["OpenRouter".to_string()]);
    assert!(s.filler_word_removal_enabled);
    assert_eq!(s.post_process_api_keys, vec![("openrouter".to_string(), "sk".to_string())]);
}

fn finish(action: CommandAction) -> Result<(), String> {
    match action {
        CommandAction::Finish(r) => r,
        _ => panic!("the command did not finish"),
    }
}

fn written(action: CommandAction) -> AppSettings {
    match action {
        CommandAction::WriteSettings(s) => s,
        _ => panic!("expected a settings write"),
    }
}

fn downloaded() -> Option<ModelSummary> {
    Some(ModelSummary { name: "Parakeet".to_string(), is_downloaded: true })
}

#[test]
fn local_switch_is_refused_while_recording() {
    let (mut m, a) = LocalModelSwitch::new("parakeet");
    assert!(matches!(a, CommandAction::CheckRecording));
    let r = finish(m.step(CommandEvent::Recording(true)));
    assert_eq!(r.unwrap_err(), "Transcription is in progress");
}

#[test]
fn local_switch_checks_gates_and_model() {
    let (mut m, _) = LocalModelSwitch::new("parakeet");
    assert!(matches!(m.step(CommandEvent::Recording(false)), CommandAction::AcquireOperation));
    assert_eq!(
        finish(m.step(CommandEvent::OperationAcquired(false))).unwrap_err(),
        "Transcription is in progress"
    );

    let (mut m, _) = LocalModelSwitch::new("parakeet");
    m.step(CommandEvent::Recording(false));
    m.step(CommandEvent::OperationAcquired(true));
    assert_eq!(
        finish(m.step(CommandEvent::LoadingClaimed(false))).unwrap_err(),
        "Model load already in progress"
    );

    let (mut m, _) = LocalModelSwitch::new("parakeet");
    m.step(CommandEvent::Recording(false));
    m.step(CommandEvent::OperationAcquired(true));
    assert!(matches!(m.step(CommandEvent::LoadingClaimed(true)), CommandAction::LookUpModel(ref id) if id == "parakeet"));
    assert_eq!(
        finish(m.step(CommandEvent::ModelFound(None))).unwrap_err(),
        "Model not found: parakeet"
    );

    let (mut m, _) = LocalModelSwitch::new("parakeet");
    m.step(CommandEvent::Recording(false));
    m.step(CommandEvent::OperationAcquired(true));
    m.step(CommandEvent::LoadingClaimed(true));
    let missing = Some(ModelSummary { name: "P".to_string(), is_downloaded: false });
    assert_eq!(
        finish(m.step(CommandEvent::ModelFound(missing))).unwrap_err(),
        "Model not downloaded: parakeet"
    );
}

fn to_persist(model: &str) -> LocalModelSwitch {
    let (mut m, _) = LocalModelSwitch::new(model);
    m.step(CommandEvent::Recording(false));
    m.step(CommandEvent::OperationAcquired(true));
    m.step(CommandEvent::LoadingClaimed(true));
    assert!(matches!(m.step(CommandEvent::ModelFound(downloaded())), CommandAction::ReadSettings));
    m
}

#[test]
fn local_switch_persists_then_loads() {
    let mut m = to_persist("parakeet");
    let s = written(m.step(CommandEvent::SettingsRead(base_settings())));
    assert_eq!(s.selected_model, "parakeet");
    assert_eq!(s.transcription_provider, TranscriptionProvider::Local);
    assert!(s.onboarding_completed);
    assert_eq!(s.openrouter_transcription_model, "openai/whisper-large-v3");
    assert_post_processing_kept(&s);
    assert!(matches!(m.step(CommandEvent::SettingsWritten), CommandAction::LoadModel(ref id) if id == "parakeet"));
    assert!(finish(m.step(CommandEvent::ModelLoaded(Ok(())))).is_ok());
}

#[test]
fn local_switch_reverts_selection_when_loading_fails() {
    let mut m = to_persist("parakeet");
    written(m.step(CommandEvent::SettingsRead(base_settings())));
    m.step(CommandEvent::SettingsWritten);
    assert!(matches!(
        m.step(CommandEvent::ModelLoaded(Err("engine failed".to_string()))),
        CommandAction::ReadSettings
    ));
    let mut current = base_settings();
    current.selected_model = "parakeet".to_string();
    current.transcription_provider = TranscriptionProvider::Local;
    current.onboarding_completed = true;
    current.selected_language = "de".to_string();
    let s = written(m.step(CommandEvent::SettingsRead(current)));
    assert_eq!(s.selected_model, "old-model");
    assert!(!s.onboarding_completed);
    assert_eq!(s.transcription_provider, TranscriptionProvider::OpenRouter);
    assert_eq!(s.selected_language, "de");
    assert_eq!(finish(m.step(CommandEvent::SettingsWritten)).unwrap_err(), "engine failed");
}

#[test]
fn immediate_unload_only_notifies() {
    let mut m = to_persist("parakeet");
    let mut settings = base_settings();
    settings.model_unload_timeout = ModelUnloadTimeout::Immediately;
    written(m.step(CommandEvent::SettingsRead(settings)));
    match m.step(CommandEvent::SettingsWritten) {
        CommandAction::NotifySelectionChanged { model_id, model_name } => {
            assert_eq!(model_id, "parakeet");
            assert_eq!(model_name, "Parakeet");
        }
        _ => panic!("expected a notification"),
    }
    assert!(finish(m.step(CommandEvent::SelectionNotified)).is_ok());
}

#[test]
fn cloud_switch_needs_a_model_and_a_key() {
    let (_, a) = CloudModelSwitch::new("   ");
    assert_eq!(finish(a).unwrap_err(), "Select an OpenRouter transcription model first");

    let (mut m, a) = CloudModelSwitch::new(" acme/stt ");
    assert!(matches!(a, CommandAction::ReadSettings));
    assert_eq!(m.model_id, "acme/stt");
    let mut no_key = base_settings();
    no_key.post_process_api_keys = vec![("openrouter".to_string(), "  ".to_string())];
    assert_eq!(
        finish(m.step(CommandEvent::SettingsRead(no_key))).unwrap_err(),
        "Add an OpenRouter API key first"
    );
}

#[test]
fn cloud_switch_to_the_active_choice_changes_nothing() {
    let (mut m, _) = CloudModelSwitch::new("openai/whisper-large-v3");
    assert!(finish(m.step(CommandEvent::SettingsRead(base_settings()))).is_ok());
}

#[test]
fn cloud_switch_unloads_then_persists() {
    let (mut m, _) = CloudModelSwitch::new("acme/stt");
    assert!(matches!(m.step(CommandEvent::SettingsRead(base_settings())), CommandAction::CheckRecording));
    assert!(matches!(m.step(CommandEvent::Recording(false)), CommandAction::AcquireOperation));
    assert!(matches!(m.step(CommandEvent::OperationAcquired(true)), CommandAction::ClaimLoading));
    assert!(matches!(m.step(CommandEvent::LoadingClaimed(true)), CommandAction::UnloadModel));
    assert!(matches!(m.step(CommandEvent::ModelUnloaded(Ok(()))), CommandAction::ReadSettings));
    let mut local = base_settings();
    local.transcription_provider = TranscriptionProvider::Local;
    let s = written(m.step(CommandEvent::SettingsRead(local)));
    assert_eq!(s.transcription_provider, TranscriptionProvider::OpenRouter);
    assert_eq!(s.openrouter_transcription_model, "acme/stt");
    assert_eq!(s.selected_model, "old-model");
    assert!(s.onboarding_completed);
    assert_post_processing_kept(&s);
    match m.step(CommandEvent::SettingsWritten) {
        CommandAction::NotifySelectionChanged { model_id, model_name } => {
            assert_eq!(model_id, "acme/stt");
            assert_eq!(model_name, "acme/stt");
        }
        _ => panic!("expected a notification"),
    }
    assert!(finish(m.step(CommandEvent::SelectionNotified)).is_ok());
}

#[test]
fn cloud_switch_stops_on_busy_engine_or_unload_failure() {
    let (mut m, _) = CloudModelSwitch::new("acme/stt");
    m.step(CommandEvent::SettingsRead(base_settings()));
    assert_eq!(
        finish(m.step(CommandEvent::Recording(true))).unwrap_err(),
        "Transcription is in progress"
    );
    let (mut m, _) = CloudModelSwitch::new("acme/stt");
    m.step(CommandEvent::SettingsRead(base_settings()));
    m.step(CommandEvent::Recording(false));
    m.step(CommandEvent::OperationAcquired(true));
    assert_eq!(
        finish(m.step(CommandEvent::LoadingClaimed(false))).unwrap_err(),
        "Model load already in progress"
    );
    let (mut m, _) = CloudModelSwitch::new("acme/stt");
    m.step(CommandEvent::SettingsRead(base_settings()));
    m.step(CommandEvent::Recording(false));
    m.step(CommandEvent::OperationAcquired(true));
    m.step(CommandEvent::LoadingClaimed(true));
    assert_eq!(
        finish(m.step(CommandEvent::ModelUnloaded(Err("busy".to_string())))).unwrap_err(),
        "busy"
    );
}

#[test]
fn deleting_the_selected_model_clears_the_selection() {
    let settings = base_settings();
    assert!(deletes_active_model(&settings, "old-model"));
    assert!(!deletes_active_model(&settings, "other"));
    let cleared = clear_local_selection(settings);
    assert_eq!(cleared.selected_model, "");
    assert_eq!(cleared.openrouter_transcription_model, "openai/whisper-large-v3");
}

#[test]
fn deleting_an_inactive_model_only_deletes() {
    let (mut m, a) = ModelDeletion::new("other");
    assert!(matches!(a, CommandAction::ReadSettings));
    assert!(matches!(m.step(CommandEvent::SettingsRead(base_settings())), CommandAction::DeleteModel(ref id) if id == "other"));
    assert!(finish(m.step(CommandEvent::ModelDeleted(Ok(())))).is_ok());
}

#[test]
fn deleting_the_active_model_unloads_and_deselects_first() {
    let (mut m, _) = ModelDeletion::new("old-model");
    assert!(matches!(m.step(CommandEvent::SettingsRead(base_settings())), CommandAction::UnloadModel));
    assert!(matches!(m.step(CommandEvent::ModelUnloaded(Ok(()))), CommandAction::ReadSettings));
    let s = written(m.step(CommandEvent::SettingsRead(base_settings())));
    assert_eq!(s.selected_model, "");
    assert_post_processing_kept(&s);
    assert!(matches!(m.step(CommandEvent::SettingsWritten), CommandAction::DeleteModel(ref id) if id == "old-model"));
    assert_eq!(
        finish(m.step(CommandEvent::ModelDeleted(Err("in use".to_string())))).unwrap_err(),
        "in use"
    );
}

#[test]
fn deletion_stops_when_unloading_fails() {
    let (mut m, _) = ModelDeletion::new("old-model");
    m.step(CommandEvent::SettingsRead(base_settings()));
    assert_eq!(
        finish(m.step(CommandEvent::ModelUnloaded(Err("busy".to_string())))).unwrap_err(),
        "Failed to unload model: busy"
    );
}
