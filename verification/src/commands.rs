//! The decisions of the model-selection commands, as state machines.
//!
//! A command's caller performs each action a machine asks for (query the
//! recorder, take the operation gate, claim the loading slot, read or write
//! settings, load or unload the local engine, notify the frontend) and hands
//! the outcome back as the next event. The machine decides what comes next.

use vstd::prelude::*;

use crate::settings::{
    has_openrouter_key, AppSettings, ModelUnloadTimeout, TranscriptionProvider, PROVIDER_ID,
};
use crate::text::{same_text, trim, trimmed};

verus! {

/// Answer when a dictation or another operation holds the operation gate.
pub open spec fn in_progress_message() -> Seq<char> {
    "Transcription is in progress"@
}

/// Answer when another model load holds the loading slot.
pub open spec fn loading_message() -> Seq<char> {
    "Model load already in progress"@
}

/// What a model lookup found.
#[derive(Debug)]
pub struct ModelSummary {
    pub name: String,
    pub is_downloaded: bool,
}

/// Something a command asks its caller to do.
#[derive(Debug)]
pub enum CommandAction {
    /// Report whether a dictation is being recorded.
    CheckRecording,
    /// Try to take the operation gate (held until the command finishes).
    AcquireOperation,
    /// Try to claim the model-loading slot (held until the command finishes).
    ClaimLoading,
    /// Look the local model up.
    LookUpModel(String),
    /// Read the current settings.
    ReadSettings,
    /// Persist these settings.
    WriteSettings(AppSettings),
    /// Tell the frontend that the selection changed.
    NotifySelectionChanged { model_id: String, model_name: String },
    /// Load this local model into the engine.
    LoadModel(String),
    /// Unload the local engine.
    UnloadModel,
    /// Delete this local model's files.
    DeleteModel(String),
    /// The command ends with this result.
    Finish(Result<(), String>),
}

/// The outcome of an action.
#[derive(Debug)]
pub enum CommandEvent {
    Recording(bool),
    OperationAcquired(bool),
    LoadingClaimed(bool),
    ModelFound(Option<ModelSummary>),
    SettingsRead(AppSettings),
    SettingsWritten,
    SelectionNotified,
    ModelLoaded(Result<(), String>),
    ModelUnloaded(Result<(), String>),
    ModelDeleted(Result<(), String>),
}

/// `e` is the outcome of the request `a`: the event a host answers that
/// action with. Finishing asks for nothing.
pub open spec fn answers(a: CommandAction, e: CommandEvent) -> bool {
    match a {
        CommandAction::CheckRecording => e is Recording,
        CommandAction::AcquireOperation => e is OperationAcquired,
        CommandAction::ClaimLoading => e is LoadingClaimed,
        CommandAction::LookUpModel(_) => e is ModelFound,
        CommandAction::ReadSettings => e is SettingsRead,
        CommandAction::WriteSettings(_) => e is SettingsWritten,
        CommandAction::NotifySelectionChanged { .. } => e is SelectionNotified,
        CommandAction::LoadModel(_) => e is ModelLoaded,
        CommandAction::UnloadModel => e is ModelUnloaded,
        CommandAction::DeleteModel(_) => e is ModelDeleted,
        CommandAction::Finish(_) => false,
    }
}

/// The action ends the command with the error `message`.
pub open spec fn fails_with(a: CommandAction, message: Seq<char>) -> bool {
    a matches CommandAction::Finish(Err(m)) && m@ == message
}

/// The action ends the command successfully.
pub open spec fn succeeds(a: CommandAction) -> bool {
    a matches CommandAction::Finish(Ok(_))
}

/// The fields of a local selection that a failed switch restores.
#[derive(Debug)]
pub struct SelectionSnapshot {
    pub selected_model: String,
    pub onboarding_completed: bool,
    pub transcription_provider: TranscriptionProvider,
}

/// `new` selects the local model `model_id`: backend local, onboarding
/// completed, every other setting of `old` kept.
pub open spec fn selects_local(new: AppSettings, old: AppSettings, model_id: Seq<char>) -> bool {
    &&& new.selected_model@ == model_id
    &&& new == (AppSettings {
        selected_model: new.selected_model,
        transcription_provider: TranscriptionProvider::Local,
        onboarding_completed: true,
        ..old
    })
}

/// `new` is `current` with the selection fields of `snapshot` put back and
/// every other setting kept.
pub open spec fn restores(new: AppSettings, current: AppSettings, snapshot: SelectionSnapshot) -> bool {
    &&& new.selected_model@ == snapshot.selected_model@
    &&& new == (AppSettings {
        selected_model: new.selected_model,
        onboarding_completed: snapshot.onboarding_completed,
        transcription_provider: snapshot.transcription_provider,
        ..current
    })
}

/// `new` selects the OpenRouter model `model_id`: backend OpenRouter,
/// onboarding completed, every other setting of `old` kept (the local choice
/// and all post-processing settings among them).
pub open spec fn selects_openrouter(new: AppSettings, old: AppSettings, model_id: Seq<char>) -> bool {
    &&& new.openrouter_transcription_model@ == model_id
    &&& new == (AppSettings {
        openrouter_transcription_model: new.openrouter_transcription_model,
        transcription_provider: TranscriptionProvider::OpenRouter,
        onboarding_completed: true,
        ..old
    })
}

/// A switch whose load fails undoes itself: writing back the snapshot taken
/// before the switch, over the settings the switch wrote, gives the settings
/// as they were before it.
pub proof fn law_failed_switch_restores(
    before: AppSettings,
    switched: AppSettings,
    reverted: AppSettings,
    snapshot: SelectionSnapshot,
    model_id: Seq<char>,
)
    requires
        snapshot.selected_model@ == before.selected_model@,
        snapshot.onboarding_completed == before.onboarding_completed,
        snapshot.transcription_provider == before.transcription_provider,
        selects_local(switched, before, model_id),
        restores(reverted, switched, snapshot),
    ensures
        reverted.selected_model@ == before.selected_model@,
        reverted == (AppSettings { selected_model: reverted.selected_model, ..before }),
{
}

/// Choosing an OpenRouter model leaves the local choice alone, and choosing
/// a local model leaves the OpenRouter choice alone; so switching back and
/// forth returns to the earlier choices.
pub proof fn law_backends_keep_each_others_choice(
    settings: AppSettings,
    cloud: AppSettings,
    local: AppSettings,
    cloud_model: Seq<char>,
)
    requires
        selects_openrouter(cloud, settings, cloud_model),
        selects_local(local, cloud, settings.selected_model@),
    ensures
        local.selected_model@ == settings.selected_model@,
        local.openrouter_transcription_model@ == cloud_model,
        local == (AppSettings {
            selected_model: local.selected_model,
            openrouter_transcription_model: local.openrouter_transcription_model,
            transcription_provider: TranscriptionProvider::Local,
            onboarding_completed: true,
            ..settings
        }),
{
}

/// The selection fields of `settings`.
pub fn snapshot_of(settings: &AppSettings) -> (r: SelectionSnapshot)
    ensures
        r.selected_model@ == settings.selected_model@,
        r.onboarding_completed == settings.onboarding_completed,
        r.transcription_provider == settings.transcription_provider,
{
    SelectionSnapshot {
        selected_model: settings.selected_model.clone(),
        onboarding_completed: settings.onboarding_completed,
        transcription_provider: settings.transcription_provider,
    }
}

/// `settings` switched to the local model `model_id`.
pub fn select_local(settings: AppSettings, model_id: &str) -> (r: AppSettings)
    ensures
        selects_local(r, settings, model_id@),
{
    AppSettings {
        selected_model: String::from_str(model_id),
        transcription_provider: TranscriptionProvider::Local,
        onboarding_completed: true,
        ..settings
    }
}

/// `settings` with the selection of `snapshot` put back.
pub fn restore_selection(settings: AppSettings, snapshot: SelectionSnapshot) -> (r: AppSettings)
    ensures
        restores(r, settings, snapshot),
{
    AppSettings {
        selected_model: snapshot.selected_model,
        onboarding_completed: snapshot.onboarding_completed,
        transcription_provider: snapshot.transcription_provider,
        ..settings
    }
}

/// `settings` switched to the OpenRouter model `model_id`.
pub fn select_openrouter(settings: AppSettings, model_id: &str) -> (r: AppSettings)
    ensures
        selects_openrouter(r, settings, model_id@),
{
    AppSettings {
        openrouter_transcription_model: String::from_str(model_id),
        transcription_provider: TranscriptionProvider::OpenRouter,
        onboarding_completed: true,
        ..settings
    }
}


/// Deleting `model_id` first unloads it and clears the selection when it is
/// the selected local model.
pub fn deletes_active_model(settings: &AppSettings, model_id: &str) -> (r: bool)
    ensures
        r == (settings.selected_model@ == model_id@),
{
    same_text(settings.selected_model.as_str(), model_id)
}

/// `settings` with no local model selected, everything else kept.
pub fn clear_local_selection(settings: AppSettings) -> (r: AppSettings)
    ensures
        clears_selection(r, settings),
{
    AppSettings { selected_model: String::new(), ..settings }
}

/// Where a switch to a local model stands.
#[derive(Clone, Copy, Debug, PartialEq, Eq, Structural)]
pub enum SwitchStage {
    AwaitRecording,
    AwaitOperation,
    AwaitLoadingSlot,
    AwaitModel,
    AwaitSettings,
    AwaitSelectionWritten,
    AwaitNotified,
    AwaitLoad,
    AwaitSettingsForRevert,
    AwaitRevertWritten,
    Finished,
}

/// Switching the active local model: validate the model, persist the new
/// selection (which always switches the backend back to local), then load
/// the model, unless the unload timeout is "immediately", in which case the
/// model is loaded on demand and the frontend is told of the selection. If
/// loading fails, the previous selection is written back.
#[derive(Debug)]
pub struct LocalModelSwitch {
    pub model_id: String,
    pub stage: SwitchStage,
    /// The display name of the model, once looked up.
    pub model_name: String,
    /// Whether the model is loaded right after the selection is persisted.
    pub eager_load: bool,
    /// The selection before the switch, once read.
    pub snapshot: Option<SelectionSnapshot>,
    /// Why loading failed, once it has.
    pub failure: String,
}

/// The event that answers what a local switch in `stage` asked for.
pub open spec fn switch_accepts(stage: SwitchStage, event: CommandEvent) -> bool {
    match stage {
        SwitchStage::AwaitRecording => event is Recording,
        SwitchStage::AwaitOperation => event is OperationAcquired,
        SwitchStage::AwaitLoadingSlot => event is LoadingClaimed,
        SwitchStage::AwaitModel => event is ModelFound,
        SwitchStage::AwaitSettings => event is SettingsRead,
        SwitchStage::AwaitSelectionWritten => event is SettingsWritten,
        SwitchStage::AwaitNotified => event is SelectionNotified,
        SwitchStage::AwaitLoad => event is ModelLoaded,
        SwitchStage::AwaitSettingsForRevert => event is SettingsRead,
        SwitchStage::AwaitRevertWritten => event is SettingsWritten,
        SwitchStage::Finished => false,
    }
}

/// What a local switch does with the answer `event` to its pending request:
/// `before` becomes `after` and `a` is the next action.
pub open spec fn local_step_spec(
    before: LocalModelSwitch,
    event: CommandEvent,
    after: LocalModelSwitch,
    a: CommandAction,
) -> bool {
    &&& after.wf()
    &&& after.model_id == before.model_id
    &&& match event {
        CommandEvent::Recording(recording) => if recording {
            fails_with(a, in_progress_message()) && after.stage
                == SwitchStage::Finished
        } else {
            a is AcquireOperation && after.stage == SwitchStage::AwaitOperation
        },
        CommandEvent::OperationAcquired(acquired) => if !acquired {
            fails_with(a, in_progress_message()) && after.stage
                == SwitchStage::Finished
        } else {
            a is ClaimLoading && after.stage == SwitchStage::AwaitLoadingSlot
        },
        CommandEvent::LoadingClaimed(claimed) => if !claimed {
            fails_with(a, loading_message()) && after.stage == SwitchStage::Finished
        } else {
            (a matches CommandAction::LookUpModel(id) && id@ == before.model_id@)
                && after.stage == SwitchStage::AwaitModel
        },
        CommandEvent::ModelFound(found) => match found {
            None => fails_with(a, "Model not found: "@ + before.model_id@) && after.stage == SwitchStage::Finished,
            Some(m) => if !m.is_downloaded {
                fails_with(a, "Model not downloaded: "@ + before.model_id@) && after.stage == SwitchStage::Finished
            } else {
                a is ReadSettings && after.stage == SwitchStage::AwaitSettings
                    && after.model_name@ == m.name@
            },
        },
        CommandEvent::SettingsRead(s) => if before.stage == SwitchStage::AwaitSettings {
            &&& a matches CommandAction::WriteSettings(n) && selects_local(
                n,
                s,
                before.model_id@,
            )
            &&& after.stage == SwitchStage::AwaitSelectionWritten
            &&& after.eager_load == (s.model_unload_timeout
                != ModelUnloadTimeout::Immediately)
            &&& after.model_name == before.model_name
            &&& after.snapshot matches Some(snap) && snap.selected_model@
                == s.selected_model@ && snap.onboarding_completed == s.onboarding_completed
                && snap.transcription_provider == s.transcription_provider
        } else {
            &&& a matches CommandAction::WriteSettings(n) && restores(
                n,
                s,
                before.snapshot.unwrap(),
            )
            &&& after.stage == SwitchStage::AwaitRevertWritten
            &&& after.failure == before.failure
        },
        CommandEvent::SettingsWritten => if before.stage
            == SwitchStage::AwaitSelectionWritten {
            if before.eager_load {
                (a matches CommandAction::LoadModel(id) && id@ == before.model_id@)
                    && after.stage == SwitchStage::AwaitLoad && after.snapshot
                    == before.snapshot
            } else {
                (a matches CommandAction::NotifySelectionChanged { model_id, model_name }
                    && model_id@ == before.model_id@ && model_name@ == before.model_name@) && after.stage == SwitchStage::AwaitNotified
            }
        } else {
            fails_with(a, before.failure@) && after.stage
                == SwitchStage::Finished
        },
        CommandEvent::SelectionNotified => succeeds(a) && after.stage
            == SwitchStage::Finished,
        CommandEvent::ModelLoaded(result) => match result {
            Ok(_) => succeeds(a) && after.stage == SwitchStage::Finished,
            Err(e) => a is ReadSettings && after.stage
                == SwitchStage::AwaitSettingsForRevert && after.failure@ == e@
                && after.snapshot == before.snapshot,
        },
        CommandEvent::ModelUnloaded(_) => false,
        CommandEvent::ModelDeleted(_) => false,
    }
}

/// A local switch never asks for something it will not take the answer to:
/// whatever request a step makes, the stage it leaves accepts every answer
/// to that request, and the switch is finished exactly when the step ends
/// the command.
pub proof fn law_local_switch_accepts_what_it_asks(
    before: LocalModelSwitch,
    event: CommandEvent,
    after: LocalModelSwitch,
    a: CommandAction,
    answer: CommandEvent,
)
    requires
        before.wf(),
        switch_accepts(before.stage, event),
        local_step_spec(before, event, after, a),
    ensures
        answers(a, answer) ==> switch_accepts(after.stage, answer),
        (a is Finish) == (after.stage == SwitchStage::Finished),
{
}

impl LocalModelSwitch {
    /// Once the previous selection has been read, it is kept until the switch
    /// ends.
    pub open spec fn wf(&self) -> bool {
        (self.stage == SwitchStage::AwaitSelectionWritten || self.stage
            == SwitchStage::AwaitNotified || self.stage == SwitchStage::AwaitLoad || self.stage
            == SwitchStage::AwaitSettingsForRevert) ==> self.snapshot is Some
    }

    /// Starts switching to `model_id`; the first thing to learn is whether a
    /// dictation is in flight, since switching under it would change what the
    /// running operation was started for.
    pub fn new(model_id: &str) -> (r: (LocalModelSwitch, CommandAction))
        ensures
            r.0.wf(),
            r.0.model_id@ == model_id@,
            r.0.stage == SwitchStage::AwaitRecording,
            r.1 is CheckRecording,
            forall|e: CommandEvent| answers(r.1, e) ==> switch_accepts(r.0.stage, e),
    {
        (
            LocalModelSwitch {
                model_id: String::from_str(model_id),
                stage: SwitchStage::AwaitRecording,
                model_name: String::new(),
                eager_load: true,
                snapshot: None,
                failure: String::new(),
            },
            CommandAction::CheckRecording,
        )
    }

    /// Whether `event` answers the pending action.
    pub fn accepts(&self, event: &CommandEvent) -> (r: bool)
        ensures
            r == switch_accepts(self.stage, *event),
    {
        match self.stage {
            SwitchStage::AwaitRecording => matches!(event, CommandEvent::Recording(_)),
            SwitchStage::AwaitOperation => matches!(event, CommandEvent::OperationAcquired(_)),
            SwitchStage::AwaitLoadingSlot => matches!(event, CommandEvent::LoadingClaimed(_)),
            SwitchStage::AwaitModel => matches!(event, CommandEvent::ModelFound(_)),
            SwitchStage::AwaitSettings => matches!(event, CommandEvent::SettingsRead(_)),
            SwitchStage::AwaitSelectionWritten => matches!(event, CommandEvent::SettingsWritten),
            SwitchStage::AwaitNotified => matches!(event, CommandEvent::SelectionNotified),
            SwitchStage::AwaitLoad => matches!(event, CommandEvent::ModelLoaded(_)),
            SwitchStage::AwaitSettingsForRevert => matches!(event, CommandEvent::SettingsRead(_)),
            SwitchStage::AwaitRevertWritten => matches!(event, CommandEvent::SettingsWritten),
            SwitchStage::Finished => false,
        }
    }

    /// Takes the outcome of the pending action and decides the next one.
    pub fn step(&mut self, event: CommandEvent) -> (a: CommandAction)
        requires
            old(self).wf(),
            switch_accepts(old(self).stage, event),
        ensures
            local_step_spec(*old(self), event, *final(self), a),

    {
        match event {
            CommandEvent::Recording(recording) => {
                if recording {
                    self.stage = SwitchStage::Finished;
                    CommandAction::Finish(Err(String::from_str("Transcription is in progress")))
                } else {
                    self.stage = SwitchStage::AwaitOperation;
                    CommandAction::AcquireOperation
                }
            },
            CommandEvent::OperationAcquired(acquired) => {
                if !acquired {
                    self.stage = SwitchStage::Finished;
                    CommandAction::Finish(Err(String::from_str("Transcription is in progress")))
                } else {
                    self.stage = SwitchStage::AwaitLoadingSlot;
                    CommandAction::ClaimLoading
                }
            },
            CommandEvent::LoadingClaimed(claimed) => {
                if !claimed {
                    self.stage = SwitchStage::Finished;
                    CommandAction::Finish(Err(String::from_str("Model load already in progress")))
                } else {
                    self.stage = SwitchStage::AwaitModel;
                    CommandAction::LookUpModel(self.model_id.clone())
                }
            },
            CommandEvent::ModelFound(found) => match found {
                None => {
                    self.stage = SwitchStage::Finished;
                    CommandAction::Finish(
                        Err(String::from_str("Model not found: ").concat(self.model_id.as_str())),
                    )
                },
                Some(m) => {
                    if !m.is_downloaded {
                        self.stage = SwitchStage::Finished;
                        CommandAction::Finish(
                            Err(
                                String::from_str("Model not downloaded: ").concat(
                                    self.model_id.as_str(),
                                ),
                            ),
                        )
                    } else {
                        self.model_name = m.name;
                        self.stage = SwitchStage::AwaitSettings;
                        CommandAction::ReadSettings
                    }
                },
            },
            CommandEvent::SettingsRead(s) => {
                if self.stage == SwitchStage::AwaitSettings {
                    self.snapshot = Some(snapshot_of(&s));
                    self.eager_load = s.model_unload_timeout != ModelUnloadTimeout::Immediately;
                    self.stage = SwitchStage::AwaitSelectionWritten;
                    CommandAction::WriteSettings(select_local(s, self.model_id.as_str()))
                } else {
                    self.stage = SwitchStage::AwaitRevertWritten;
                    match self.snapshot.take() {
                        Some(snap) => CommandAction::WriteSettings(restore_selection(s, snap)),
                        None => {
                            proof {
                                assert(false);
                            }
                            CommandAction::ReadSettings
                        },
                    }
                }
            },
            CommandEvent::SettingsWritten => {
                if self.stage == SwitchStage::AwaitSelectionWritten {
                    if self.eager_load {
                        self.stage = SwitchStage::AwaitLoad;
                        CommandAction::LoadModel(self.model_id.clone())
                    } else {
                        self.stage = SwitchStage::AwaitNotified;
                        CommandAction::NotifySelectionChanged {
                            model_id: self.model_id.clone(),
                            model_name: self.model_name.clone(),
                        }
                    }
                } else {
                    self.stage = SwitchStage::Finished;
                    CommandAction::Finish(Err(self.failure.clone()))
                }
            },
            CommandEvent::SelectionNotified => {
                self.stage = SwitchStage::Finished;
                CommandAction::Finish(Ok(()))
            },
            CommandEvent::ModelLoaded(result) => match result {
                Ok(()) => {
                    self.stage = SwitchStage::Finished;
                    CommandAction::Finish(Ok(()))
                },
                Err(e) => {
                    self.failure = e;
                    self.stage = SwitchStage::AwaitSettingsForRevert;
                    CommandAction::ReadSettings
                },
            },
            CommandEvent::ModelUnloaded(_) | CommandEvent::ModelDeleted(_) => {
                proof {
                    assert(false);
                }
                CommandAction::CheckRecording
            },
        }
    }
}


/// Where a switch to an OpenRouter model stands.
#[derive(Clone, Copy, Debug, PartialEq, Eq, Structural)]
pub enum CloudStage {
    AwaitSettings,
    AwaitRecording,
    AwaitOperation,
    AwaitLoadingSlot,
    AwaitUnload,
    AwaitSettingsToWrite,
    AwaitWritten,
    AwaitNotified,
    Finished,
}

/// Switching transcription to an OpenRouter model. The id comes from the
/// caller (a discovered catalog entry or the saved choice); it is trimmed and
/// must not be blank, an API key must be stored, and choosing the active
/// selection again changes nothing. Otherwise the local engine is unloaded
/// first, so that no pending local load can land after the switch, and the
/// selection is persisted.
#[derive(Debug)]
pub struct CloudModelSwitch {
    /// The requested model id, trimmed.
    pub model_id: String,
    pub stage: CloudStage,
}

/// The event that answers what a cloud switch in `stage` asked for.
pub open spec fn cloud_accepts(stage: CloudStage, event: CommandEvent) -> bool {
    match stage {
        CloudStage::AwaitSettings => event is SettingsRead,
        CloudStage::AwaitRecording => event is Recording,
        CloudStage::AwaitOperation => event is OperationAcquired,
        CloudStage::AwaitLoadingSlot => event is LoadingClaimed,
        CloudStage::AwaitUnload => event is ModelUnloaded,
        CloudStage::AwaitSettingsToWrite => event is SettingsRead,
        CloudStage::AwaitWritten => event is SettingsWritten,
        CloudStage::AwaitNotified => event is SelectionNotified,
        CloudStage::Finished => false,
    }
}

/// Whether `settings` holds an OpenRouter key that is not blank.
pub fn has_api_key(settings: &AppSettings) -> (r: bool)
    ensures
        r == has_openrouter_key(*settings),
{
    match settings.api_key(PROVIDER_ID) {
        Some(key) => !trim(key.as_str()).as_str().is_empty(),
        None => {
            proof {
                assert(trimmed(Seq::<char>::empty()) =~= Seq::<char>::empty());
            }
            false
        },
    }
}

/// What a cloud switch does with the answer `event` to its pending request:
/// `before` becomes `after` and `a` is the next action.
pub open spec fn cloud_step_spec(
    before: CloudModelSwitch,
    event: CommandEvent,
    after: CloudModelSwitch,
    a: CommandAction,
) -> bool {
    &&& after.model_id == before.model_id
    &&& match event {
        CommandEvent::SettingsRead(s) => if before.stage == CloudStage::AwaitSettings {
            if !has_openrouter_key(s) {
                fails_with(a, "Add an OpenRouter API key first"@) && after.stage
                    == CloudStage::Finished
            } else if s.transcription_provider == TranscriptionProvider::OpenRouter
                && s.openrouter_transcription_model@ == before.model_id@ {
                succeeds(a) && after.stage == CloudStage::Finished
            } else {
                a is CheckRecording && after.stage == CloudStage::AwaitRecording
            }
        } else {
            (a matches CommandAction::WriteSettings(n) && selects_openrouter(
                n,
                s,
                before.model_id@,
            )) && after.stage == CloudStage::AwaitWritten
        },
        CommandEvent::Recording(recording) => if recording {
            fails_with(a, in_progress_message()) && after.stage
                == CloudStage::Finished
        } else {
            a is AcquireOperation && after.stage == CloudStage::AwaitOperation
        },
        CommandEvent::OperationAcquired(acquired) => if !acquired {
            fails_with(a, in_progress_message()) && after.stage
                == CloudStage::Finished
        } else {
            a is ClaimLoading && after.stage == CloudStage::AwaitLoadingSlot
        },
        CommandEvent::LoadingClaimed(claimed) => if !claimed {
            fails_with(a, loading_message()) && after.stage == CloudStage::Finished
        } else {
            a is UnloadModel && after.stage == CloudStage::AwaitUnload
        },
        CommandEvent::ModelUnloaded(result) => match result {
            Err(e) => fails_with(a, e@) && after.stage == CloudStage::Finished,
            Ok(_) => a is ReadSettings && after.stage
                == CloudStage::AwaitSettingsToWrite,
        },
        CommandEvent::SettingsWritten => (a matches CommandAction::NotifySelectionChanged {
            model_id,
            model_name,
        } && model_id@ == before.model_id@ && model_name@ == before.model_id@)
            && after.stage == CloudStage::AwaitNotified,
        CommandEvent::SelectionNotified => succeeds(a) && after.stage
            == CloudStage::Finished,
        _ => false,
    }
}

/// A cloud switch never asks for something it will not take the answer to:
/// whatever request a step makes (reading the settings again after the
/// unload included), the stage it leaves accepts every answer to that
/// request, and the switch is finished exactly when the step ends the
/// command.
pub proof fn law_cloud_switch_accepts_what_it_asks(
    before: CloudModelSwitch,
    event: CommandEvent,
    after: CloudModelSwitch,
    a: CommandAction,
    answer: CommandEvent,
)
    requires
        cloud_accepts(before.stage, event),
        cloud_step_spec(before, event, after, a),
    ensures
        answers(a, answer) ==> cloud_accepts(after.stage, answer),
        (a is Finish) == (after.stage == CloudStage::Finished),
{
}

impl CloudModelSwitch {
    /// Starts switching to the OpenRouter model `model_id`.
    pub fn new(model_id: &str) -> (r: (CloudModelSwitch, CommandAction))
        ensures
            r.0.model_id@ == trimmed(model_id@),
            trimmed(model_id@).len() == 0 ==> fails_with(
                r.1,
                "Select an OpenRouter transcription model first"@,
            ) && r.0.stage == CloudStage::Finished,
            trimmed(model_id@).len() > 0 ==> r.1 is ReadSettings && r.0.stage
                == CloudStage::AwaitSettings,
            forall|e: CommandEvent| answers(r.1, e) ==> cloud_accepts(r.0.stage, e),
            (r.1 is Finish) == (r.0.stage == CloudStage::Finished),
    {
        let id = trim(model_id);
        if id.as_str().is_empty() {
            (
                CloudModelSwitch { model_id: id, stage: CloudStage::Finished },
                CommandAction::Finish(
                    Err(String::from_str("Select an OpenRouter transcription model first")),
                ),
            )
        } else {
            (
                CloudModelSwitch { model_id: id, stage: CloudStage::AwaitSettings },
                CommandAction::ReadSettings,
            )
        }
    }

    /// Whether `event` answers the pending action.
    pub fn accepts(&self, event: &CommandEvent) -> (r: bool)
        ensures
            r == cloud_accepts(self.stage, *event),
    {
        match self.stage {
            CloudStage::AwaitSettings => matches!(event, CommandEvent::SettingsRead(_)),
            CloudStage::AwaitRecording => matches!(event, CommandEvent::Recording(_)),
            CloudStage::AwaitOperation => matches!(event, CommandEvent::OperationAcquired(_)),
            CloudStage::AwaitLoadingSlot => matches!(event, CommandEvent::LoadingClaimed(_)),
            CloudStage::AwaitUnload => matches!(event, CommandEvent::ModelUnloaded(_)),
            CloudStage::AwaitSettingsToWrite => matches!(event, CommandEvent::SettingsRead(_)),
            CloudStage::AwaitWritten => matches!(event, CommandEvent::SettingsWritten),
            CloudStage::AwaitNotified => matches!(event, CommandEvent::SelectionNotified),
            CloudStage::Finished => false,
        }
    }

    /// Takes the outcome of the pending action and decides the next one.
    pub fn step(&mut self, event: CommandEvent) -> (a: CommandAction)
        requires
            cloud_accepts(old(self).stage, event),
        ensures
            cloud_step_spec(*old(self), event, *final(self), a),

    {
        match event {
            CommandEvent::SettingsRead(s) => {
                if self.stage == CloudStage::AwaitSettings {
                    if !has_api_key(&s) {
                        self.stage = CloudStage::Finished;
                        CommandAction::Finish(Err(String::from_str("Add an OpenRouter API key first")))
                    } else if s.transcription_provider == TranscriptionProvider::OpenRouter
                        && same_text(
                        s.openrouter_transcription_model.as_str(),
                        self.model_id.as_str(),
                    ) {
                        self.stage = CloudStage::Finished;
                        CommandAction::Finish(Ok(()))
                    } else {
                        self.stage = CloudStage::AwaitRecording;
                        CommandAction::CheckRecording
                    }
                } else {
                    self.stage = CloudStage::AwaitWritten;
                    CommandAction::WriteSettings(select_openrouter(s, self.model_id.as_str()))
                }
            },
            CommandEvent::Recording(recording) => {
                if recording {
                    self.stage = CloudStage::Finished;
                    CommandAction::Finish(Err(String::from_str("Transcription is in progress")))
                } else {
                    self.stage = CloudStage::AwaitOperation;
                    CommandAction::AcquireOperation
                }
            },
            CommandEvent::OperationAcquired(acquired) => {
                if !acquired {
                    self.stage = CloudStage::Finished;
                    CommandAction::Finish(Err(String::from_str("Transcription is in progress")))
                } else {
                    self.stage = CloudStage::AwaitLoadingSlot;
                    CommandAction::ClaimLoading
                }
            },
            CommandEvent::LoadingClaimed(claimed) => {
                if !claimed {
                    self.stage = CloudStage::Finished;
                    CommandAction::Finish(Err(String::from_str("Model load already in progress")))
                } else {
                    self.stage = CloudStage::AwaitUnload;
                    CommandAction::UnloadModel
                }
            },
            CommandEvent::ModelUnloaded(result) => match result {
                Err(e) => {
                    self.stage = CloudStage::Finished;
                    CommandAction::Finish(Err(e))
                },
                Ok(()) => {
                    self.stage = CloudStage::AwaitSettingsToWrite;
                    CommandAction::ReadSettings
                },
            },
            CommandEvent::SettingsWritten => {
                self.stage = CloudStage::AwaitNotified;
                CommandAction::NotifySelectionChanged {
                    model_id: self.model_id.clone(),
                    model_name: self.model_id.clone(),
                }
            },
            CommandEvent::SelectionNotified => {
                self.stage = CloudStage::Finished;
                CommandAction::Finish(Ok(()))
            },
            _ => {
                proof {
                    assert(false);
                }
                CommandAction::CheckRecording
            },
        }
    }
}


/// `new` is `old` with no local model selected.
pub open spec fn clears_selection(new: AppSettings, old: AppSettings) -> bool {
    &&& new.selected_model@ == Seq::<char>::empty()
    &&& new == (AppSettings { selected_model: new.selected_model, ..old })
}

/// Where the deletion of a local model stands.
#[derive(Clone, Copy, Debug, PartialEq, Eq, Structural)]
pub enum DeletionStage {
    AwaitSettings,
    AwaitUnload,
    AwaitSettingsToClear,
    AwaitCleared,
    AwaitDeleted,
    Finished,
}

/// Deleting a local model. When it is the selected model, the engine is
/// unloaded and the selection cleared first; then its files are deleted.
#[derive(Debug)]
pub struct ModelDeletion {
    pub model_id: String,
    pub stage: DeletionStage,
}

/// The event that answers what a deletion in `stage` asked for.
pub open spec fn deletion_accepts(stage: DeletionStage, event: CommandEvent) -> bool {
    match stage {
        DeletionStage::AwaitSettings => event is SettingsRead,
        DeletionStage::AwaitUnload => event is ModelUnloaded,
        DeletionStage::AwaitSettingsToClear => event is SettingsRead,
        DeletionStage::AwaitCleared => event is SettingsWritten,
        DeletionStage::AwaitDeleted => event is ModelDeleted,
        DeletionStage::Finished => false,
    }
}

/// What a deletion does with the answer `event` to its pending request:
/// `before` becomes `after` and `a` is the next action.
pub open spec fn deletion_step_spec(
    before: ModelDeletion,
    event: CommandEvent,
    after: ModelDeletion,
    a: CommandAction,
) -> bool {
    &&& after.model_id == before.model_id
    &&& match event {
        CommandEvent::SettingsRead(s) => if before.stage == DeletionStage::AwaitSettings {
            if s.selected_model@ == before.model_id@ {
                a is UnloadModel && after.stage == DeletionStage::AwaitUnload
            } else {
                (a matches CommandAction::DeleteModel(id) && id@ == before.model_id@)
                    && after.stage == DeletionStage::AwaitDeleted
            }
        } else {
            (a matches CommandAction::WriteSettings(n) && clears_selection(n, s)) && after.stage
                == DeletionStage::AwaitCleared
        },
        CommandEvent::ModelUnloaded(result) => match result {
            Err(e) => fails_with(a, "Failed to unload model: "@ + e@) && after.stage
                == DeletionStage::Finished,
            Ok(_) => a is ReadSettings && after.stage
                == DeletionStage::AwaitSettingsToClear,
        },
        CommandEvent::SettingsWritten => (a matches CommandAction::DeleteModel(id) && id@
            == before.model_id@) && after.stage == DeletionStage::AwaitDeleted,
        CommandEvent::ModelDeleted(result) => (a matches CommandAction::Finish(r) && match (
            r,
            result,
        ) {
            (Ok(_), Ok(_)) => true,
            (Err(x), Err(y)) => x@ == y@,
            _ => false,
        }) && after.stage == DeletionStage::Finished,
        _ => false,
    }
}

/// A deletion never asks for something it will not take the answer to:
/// whatever request a step makes, the stage it leaves accepts every answer
/// to that request, and the deletion is finished exactly when the step ends
/// the command.
pub proof fn law_deletion_accepts_what_it_asks(
    before: ModelDeletion,
    event: CommandEvent,
    after: ModelDeletion,
    a: CommandAction,
    answer: CommandEvent,
)
    requires
        deletion_accepts(before.stage, event),
        deletion_step_spec(before, event, after, a),
    ensures
        answers(a, answer) ==> deletion_accepts(after.stage, answer),
        (a is Finish) == (after.stage == DeletionStage::Finished),
{
}

impl ModelDeletion {
    /// Starts deleting `model_id`; the first thing to learn is whether it is
    /// the selected model.
    pub fn new(model_id: &str) -> (r: (ModelDeletion, CommandAction))
        ensures
            r.0.model_id@ == model_id@,
            r.0.stage == DeletionStage::AwaitSettings,
            r.1 is ReadSettings,
            forall|e: CommandEvent| answers(r.1, e) ==> deletion_accepts(r.0.stage, e),
    {
        (
            ModelDeletion { model_id: String::from_str(model_id), stage: DeletionStage::AwaitSettings },
            CommandAction::ReadSettings,
        )
    }

    /// Whether `event` answers the pending action.
    pub fn accepts(&self, event: &CommandEvent) -> (r: bool)
        ensures
            r == deletion_accepts(self.stage, *event),
    {
        match self.stage {
            DeletionStage::AwaitSettings => matches!(event, CommandEvent::SettingsRead(_)),
            DeletionStage::AwaitUnload => matches!(event, CommandEvent::ModelUnloaded(_)),
            DeletionStage::AwaitSettingsToClear => matches!(event, CommandEvent::SettingsRead(_)),
            DeletionStage::AwaitCleared => matches!(event, CommandEvent::SettingsWritten),
            DeletionStage::AwaitDeleted => matches!(event, CommandEvent::ModelDeleted(_)),
            DeletionStage::Finished => false,
        }
    }

    /// Takes the outcome of the pending action and decides the next one.
    pub fn step(&mut self, event: CommandEvent) -> (a: CommandAction)
        requires
            deletion_accepts(old(self).stage, event),
        ensures
            deletion_step_spec(*old(self), event, *final(self), a),

    {
        match event {
            CommandEvent::SettingsRead(s) => {
                if self.stage == DeletionStage::AwaitSettings {
                    if deletes_active_model(&s, self.model_id.as_str()) {
                        self.stage = DeletionStage::AwaitUnload;
                        CommandAction::UnloadModel
                    } else {
                        self.stage = DeletionStage::AwaitDeleted;
                        CommandAction::DeleteModel(self.model_id.clone())
                    }
                } else {
                    self.stage = DeletionStage::AwaitCleared;
                    CommandAction::WriteSettings(clear_local_selection(s))
                }
            },
            CommandEvent::ModelUnloaded(result) => match result {
                Err(e) => {
                    self.stage = DeletionStage::Finished;
                    CommandAction::Finish(
                        Err(String::from_str("Failed to unload model: ").concat(e.as_str())),
                    )
                },
                Ok(()) => {
                    self.stage = DeletionStage::AwaitSettingsToClear;
                    CommandAction::ReadSettings
                },
            },
            CommandEvent::SettingsWritten => {
                self.stage = DeletionStage::AwaitDeleted;
                CommandAction::DeleteModel(self.model_id.clone())
            },
            CommandEvent::ModelDeleted(result) => {
                self.stage = DeletionStage::Finished;
                CommandAction::Finish(result)
            },
            _ => {
                proof {
                    assert(false);
                }
                CommandAction::ReadSettings
            },
        }
    }
}

} // verus!
