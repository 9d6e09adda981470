//! The finish pipeline: from the recorded audio to the pasted transcript.
//! Each outside step (encoding, loading the settings, transcribing,
//! cleaning up, pasting) is run by the app, which hands its outcome back as
//! an event; `step` decides what comes next.

use vstd::prelude::*;
use vstd::string::StringExecFns;
use crate::keychain::opt_view;
use crate::paste::FocusTarget;
use crate::services::{
    GroqRequest, CleanupRequest, groq_request, cleanup_request, model_or, GROQ_DEFAULT_MODEL,
    SYSTEM_PROMPT,
};
use crate::session::Session;
use crate::settings::{Settings, ENGINE_GROQ};
use crate::text::{chars_of, str_eq};
use crate::ui::UiState;

verus! {

/// A WAV file under this many bytes holds too little audio to transcribe.
pub const MIN_WAV_BYTES: usize = 2000;

/// Which engine transcribes.
#[derive(PartialEq, Eq, Structural, Clone, Copy, Debug)]
pub enum Engine {
    /// whisper.cpp on this machine.
    Native,
    /// Groq's hosted Whisper.
    Groq,
}

/// The engine that the setting `engine` selects: Groq for `"groq"`, the
/// local engine for anything else.
pub fn choose_engine(engine: &str) -> (r: Engine)
    ensures
        r == (if engine@ == ENGINE_GROQ@ {
            Engine::Groq
        } else {
            Engine::Native
        }),
{
    if str_eq(engine, ENGINE_GROQ) {
        Engine::Groq
    } else {
        Engine::Native
    }
}

/// The clean-up settings, kept from the moment the settings are read.
#[derive(Clone, Debug)]
pub struct CleanupPlan {
    pub enabled: bool,
    pub api_key: String,
    pub model: Option<String>,
}

/// Where a pipeline run stands.
#[derive(Clone, Debug)]
pub enum PipelineState {
    /// Waiting for the recording as a 16 kHz mono WAV file.
    AwaitAudio { focus: Option<FocusTarget> },
    /// Waiting for the settings.
    AwaitSettings { focus: Option<FocusTarget> },
    /// Waiting for the transcript.
    AwaitTranscript { focus: Option<FocusTarget>, cleanup: CleanupPlan },
    /// Waiting for the cleaned transcript; `raw` is what was transcribed.
    AwaitCleanup { focus: Option<FocusTarget>, raw: String },
    /// Waiting for the paste to complete.
    AwaitPaste,
    /// Nothing more to do.
    Done,
}

/// The outcome of the outside work that the pipeline asked for.
pub enum PipelineEvent {
    /// The WAV file's length in bytes, or why it could not be made.
    Audio(Result<usize, String>),
    SettingsLoaded(Settings),
    /// The transcript, or why there is none.
    Transcribed(Result<String, String>),
    /// The cleaned transcript, or why there is none.
    Cleaned(Result<String, String>),
    Pasted(Result<(), String>),
}

/// Outside work for the app, in order.
#[derive(Clone, Debug)]
pub enum PipelineAction {
    LoadSettings,
    TranscribeNative,
    TranscribeGroq(GroqRequest),
    Emit(UiState),
    RunCleanup(CleanupRequest),
    /// Put `text` on the clipboard, bring `focus` to the front and paste.
    Paste { text: String, focus: Option<FocusTarget> },
    /// Hide the overlay and release Escape.
    FinishCleanup,
    /// Report the error and cancel.
    Fail(String),
}

/// The run for a recording that the pipeline has taken.
pub fn start(session: Session) -> (r: PipelineState)
    ensures
        r matches PipelineState::AwaitAudio { focus } && focus == session.focus,
{
    PipelineState::AwaitAudio { focus: session.focus }
}

/// The end of a run with the final text: paste it where the user was
/// typing, or, when it is empty, go back to idle.
pub open spec fn finalize_post(
    text: Seq<char>,
    focus: Option<FocusTarget>,
    next: PipelineState,
    acts: Seq<PipelineAction>,
) -> bool {
    if text.len() > 0 {
        &&& next is AwaitPaste
        &&& acts.len() == 1
        &&& acts[0] matches PipelineAction::Paste { text: t, focus: f }
        &&& t@ == text
        &&& f == focus
    } else {
        &&& next is Done
        &&& acts == seq![PipelineAction::Emit(UiState::Idle), PipelineAction::FinishCleanup]
    }
}

/// The run failed with the message `m`.
pub open spec fn fail_post(m: Seq<char>, next: PipelineState, acts: Seq<PipelineAction>) -> bool {
    &&& next is Done
    &&& acts.len() == 1
    &&& acts[0] matches PipelineAction::Fail(x)
    &&& x@ == m
}

/// Waiting for the transcript with the clean-up settings of `cfg`.
pub open spec fn awaits_transcript(next: PipelineState, focus: Option<FocusTarget>, cfg: Settings) -> bool {
    &&& next matches PipelineState::AwaitTranscript { focus: f, cleanup }
    &&& f == focus
    &&& cleanup.enabled == cfg.ai_cleanup_enabled
    &&& cleanup.api_key@ == cfg.anthropic_api_key@
    &&& opt_view(cleanup.model) == opt_view(cfg.haiku_model)
}

/// What `step` does: the next state and the work it asks for.
pub open spec fn step_post(
    s: PipelineState,
    e: PipelineEvent,
    next: PipelineState,
    acts: Seq<PipelineAction>,
) -> bool {
    match (s, e) {
        (PipelineState::AwaitAudio { focus }, PipelineEvent::Audio(Err(m))) => fail_post(
            m@,
            next,
            acts,
        ),
        (PipelineState::AwaitAudio { focus }, PipelineEvent::Audio(Ok(len))) => if len
            < MIN_WAV_BYTES {
            &&& next is Done
            &&& acts == seq![PipelineAction::Emit(UiState::Idle), PipelineAction::FinishCleanup]
        } else {
            &&& next == PipelineState::AwaitSettings { focus }
            &&& acts == seq![PipelineAction::LoadSettings]
        },
        (PipelineState::AwaitSettings { focus }, PipelineEvent::SettingsLoaded(cfg)) => if cfg.engine@
            == ENGINE_GROQ@ {
            if cfg.groq_api_key@.len() == 0 {
                fail_post("Groq API key not set"@, next, acts)
            } else {
                &&& awaits_transcript(next, focus, cfg)
                &&& acts.len() == 1
                &&& acts[0] matches PipelineAction::TranscribeGroq(req)
                &&& req.api_key@ == cfg.groq_api_key@
                &&& req.model@ == model_or(opt_view(cfg.whisper_model), GROQ_DEFAULT_MODEL@)
            }
        } else {
            &&& awaits_transcript(next, focus, cfg)
            &&& acts.len() == 1
            &&& acts[0] is TranscribeNative
        },
        (PipelineState::AwaitTranscript { focus, cleanup }, PipelineEvent::Transcribed(Err(m))) => fail_post(
            m@,
            next,
            acts,
        ),
        (
            PipelineState::AwaitTranscript { focus, cleanup },
            PipelineEvent::Transcribed(Ok(text)),
        ) => if cleanup.enabled && text@.len() > 0 {
            if cleanup.api_key@.len() == 0 || cleanup.model is None {
                &&& acts.len() >= 1
                &&& acts[0] == PipelineAction::Emit(UiState::Cleaning)
                &&& finalize_post(text@, focus, next, acts.skip(1))
            } else {
                &&& next matches PipelineState::AwaitCleanup { focus: f, raw }
                &&& f == focus
                &&& raw@ == text@
                &&& acts.len() == 2
                &&& acts[0] == PipelineAction::Emit(UiState::Cleaning)
                &&& acts[1] matches PipelineAction::RunCleanup(req)
                &&& req.api_key@ == cleanup.api_key@
                &&& cleanup.model matches Some(m) && req.model@ == m@
                &&& req.max_tokens == 1024
                &&& req.system@ == SYSTEM_PROMPT@
                &&& req.text@ == text@
            }
        } else {
            finalize_post(text@, focus, next, acts)
        },
        (PipelineState::AwaitCleanup { focus, raw }, PipelineEvent::Cleaned(Ok(t))) => finalize_post(
            t@,
            focus,
            next,
            acts,
        ),
        (PipelineState::AwaitCleanup { focus, raw }, PipelineEvent::Cleaned(Err(_))) => finalize_post(
            raw@,
            focus,
            next,
            acts,
        ),
        (PipelineState::AwaitPaste, PipelineEvent::Pasted(Ok(_))) => {
            &&& next is Done
            &&& acts == seq![PipelineAction::Emit(UiState::Idle), PipelineAction::FinishCleanup]
        },
        (PipelineState::AwaitPaste, PipelineEvent::Pasted(Err(m))) => fail_post(m@, next, acts),
        _ => next == s && acts.len() == 0,
    }
}

fn finalize(text: String, focus: Option<FocusTarget>) -> (r: (PipelineState, Vec<PipelineAction>))
    ensures
        finalize_post(text@, focus, r.0, r.1@),
{
    let mut acts: Vec<PipelineAction> = Vec::new();
    let c = chars_of(text.as_str());
    if c.len() > 0 {
        acts.push(PipelineAction::Paste { text, focus });
        (PipelineState::AwaitPaste, acts)
    } else {
        acts.push(PipelineAction::Emit(UiState::Idle));
        acts.push(PipelineAction::FinishCleanup);
        assert(acts@ =~= seq![PipelineAction::Emit(UiState::Idle), PipelineAction::FinishCleanup]);
        (PipelineState::Done, acts)
    }
}

fn fail(m: String) -> (r: (PipelineState, Vec<PipelineAction>))
    ensures
        fail_post(m@, r.0, r.1@),
{
    let mut acts: Vec<PipelineAction> = Vec::new();
    acts.push(PipelineAction::Fail(m));
    (PipelineState::Done, acts)
}

fn back_to_idle() -> (r: (PipelineState, Vec<PipelineAction>))
    ensures
        r.0 is Done,
        r.1@ == seq![PipelineAction::Emit(UiState::Idle), PipelineAction::FinishCleanup],
{
    let mut acts: Vec<PipelineAction> = Vec::new();
    acts.push(PipelineAction::Emit(UiState::Idle));
    acts.push(PipelineAction::FinishCleanup);
    assert(acts@ =~= seq![PipelineAction::Emit(UiState::Idle), PipelineAction::FinishCleanup]);
    (PipelineState::Done, acts)
}

/// Decides the pipeline's next state and work from the outcome `event` of
/// the work asked for in `state`; see `step_post`.
pub fn step(state: PipelineState, event: PipelineEvent) -> (r: (PipelineState, Vec<PipelineAction>))
    ensures
        step_post(state, event, r.0, r.1@),
{
    match (state, event) {
        (PipelineState::AwaitAudio { focus }, PipelineEvent::Audio(Err(m))) => fail(m),
        (PipelineState::AwaitAudio { focus }, PipelineEvent::Audio(Ok(len))) => {
            if len < MIN_WAV_BYTES {
                back_to_idle()
            } else {
                let mut acts: Vec<PipelineAction> = Vec::new();
                acts.push(PipelineAction::LoadSettings);
                assert(acts@ =~= seq![PipelineAction::LoadSettings]);
                (PipelineState::AwaitSettings { focus }, acts)
            }
        },
        (PipelineState::AwaitSettings { focus }, PipelineEvent::SettingsLoaded(cfg)) => {
            let plan = CleanupPlan {
                enabled: cfg.ai_cleanup_enabled,
                api_key: cfg.anthropic_api_key.clone(),
                model: cfg.haiku_model.clone(),
            };
            proof {
                assert(opt_view(plan.model) == opt_view(cfg.haiku_model));
            }
            let mut acts: Vec<PipelineAction> = Vec::new();
            if str_eq(cfg.engine.as_str(), ENGINE_GROQ) {
                match groq_request(cfg.groq_api_key.as_str(), &cfg.whisper_model) {
                    Err(e) => {
                        proof {
                            reveal_strlit("Groq");
                            reveal_strlit(" API key not set");
                            reveal_strlit("Groq API key not set");
                            assert(e.message_spec() =~= "Groq API key not set"@);
                        }
                        fail(e.message())
                    },
                    Ok(req) => {
                        acts.push(PipelineAction::TranscribeGroq(req));
                        (PipelineState::AwaitTranscript { focus, cleanup: plan }, acts)
                    },
                }
            } else {
                acts.push(PipelineAction::TranscribeNative);
                (PipelineState::AwaitTranscript { focus, cleanup: plan }, acts)
            }
        },
        (PipelineState::AwaitTranscript { focus, cleanup }, PipelineEvent::Transcribed(Err(m))) => fail(m),
        (PipelineState::AwaitTranscript { focus, cleanup }, PipelineEvent::Transcribed(Ok(text))) => {
            let c = chars_of(text.as_str());
            if cleanup.enabled && c.len() > 0 {
                match cleanup_request(cleanup.api_key.as_str(), &cleanup.model, text.as_str()) {
                    Err(_) => {
                        let (next, rest) = finalize(text, focus);
                        let mut acts: Vec<PipelineAction> = Vec::new();
                        acts.push(PipelineAction::Emit(UiState::Cleaning));
                        let ghost rest_view = rest@;
                        let mut rest = rest;
                        acts.append(&mut rest);
                        assert(acts@.skip(1) =~= rest_view);
                        (next, acts)
                    },
                    Ok(req) => {
                        let mut acts: Vec<PipelineAction> = Vec::new();
                        acts.push(PipelineAction::Emit(UiState::Cleaning));
                        acts.push(PipelineAction::RunCleanup(req));
                        (PipelineState::AwaitCleanup { focus, raw: text }, acts)
                    },
                }
            } else {
                finalize(text, focus)
            }
        },
        (PipelineState::AwaitCleanup { focus, raw }, PipelineEvent::Cleaned(Ok(t))) => finalize(t, focus),
        (PipelineState::AwaitCleanup { focus, raw }, PipelineEvent::Cleaned(Err(_))) => finalize(raw, focus),
        (PipelineState::AwaitPaste, PipelineEvent::Pasted(Ok(_))) => back_to_idle(),
        (PipelineState::AwaitPaste, PipelineEvent::Pasted(Err(m))) => fail(m),
        (s, _) => (s, Vec::new()),
    }
}


/// A recording whose WAV file is under `MIN_WAV_BYTES` is never
/// transcribed: the run goes straight back to idle and hides the overlay.
pub proof fn law_short_audio_is_not_transcribed(
    focus: Option<FocusTarget>,
    len: usize,
    next: PipelineState,
    acts: Seq<PipelineAction>,
)
    requires
        len < MIN_WAV_BYTES,
        step_post(PipelineState::AwaitAudio { focus }, PipelineEvent::Audio(Ok(len)), next, acts),
    ensures
        next is Done,
        acts == seq![PipelineAction::Emit(UiState::Idle), PipelineAction::FinishCleanup],
{
}

/// The 16 kHz WAV file of `n` samples is too short to transcribe exactly
/// when `n` is under 978 samples (about 61 ms).
pub proof fn law_short_audio_threshold(n: nat)
    ensures
        (44 + 2 * n < MIN_WAV_BYTES) <==> n < 978,
{
}

/// Whenever a run ends, its last work either hides the overlay and releases
/// Escape, or reports the failure (which cancels, with the same effect).
pub proof fn law_runs_end_cleanly(
    s: PipelineState,
    e: PipelineEvent,
    next: PipelineState,
    acts: Seq<PipelineAction>,
)
    requires
        !(s is Done),
        step_post(s, e, next, acts),
        next is Done,
    ensures
        acts.len() > 0,
        acts.last() is FinishCleanup || acts.last() is Fail,
{
    match (s, e) {
        (
            PipelineState::AwaitTranscript { focus, cleanup },
            PipelineEvent::Transcribed(Ok(text)),
        ) => {
            if cleanup.enabled && text@.len() > 0 && (cleanup.api_key@.len() == 0
                || cleanup.model is None) {
                let rest = acts.skip(1);
                assert(rest.len() == 2);
                assert(acts.last() == rest.last());
            }
        },
        _ => {},
    }
}

/// A failed clean-up does not lose the transcript: the raw text is pasted.
pub proof fn law_cleanup_failure_pastes_raw(
    focus: Option<FocusTarget>,
    raw: String,
    err: String,
    next: PipelineState,
    acts: Seq<PipelineAction>,
)
    requires
        raw@.len() > 0,
        step_post(
            PipelineState::AwaitCleanup { focus, raw },
            PipelineEvent::Cleaned(Err(err)),
            next,
            acts,
        ),
    ensures
        next is AwaitPaste,
        acts.len() == 1,
        acts[0] matches PipelineAction::Paste { text, focus: f } && text@ == raw@ && f == focus,
{
}

/// With clean-up on but no key or no model in the settings, the clean-up
/// is not asked for: "cleaning" is shown and the raw transcript is pasted.
pub proof fn law_cleanup_unconfigured_pastes_raw(
    focus: Option<FocusTarget>,
    cleanup: CleanupPlan,
    text: String,
    next: PipelineState,
    acts: Seq<PipelineAction>,
)
    requires
        cleanup.enabled,
        text@.len() > 0,
        cleanup.api_key@.len() == 0 || cleanup.model is None,
        step_post(
            PipelineState::AwaitTranscript { focus, cleanup },
            PipelineEvent::Transcribed(Ok(text)),
            next,
            acts,
        ),
    ensures
        next is AwaitPaste,
        acts.len() == 2,
        acts[0] == PipelineAction::Emit(UiState::Cleaning),
        acts[1] matches PipelineAction::Paste { text: t, focus: f } && t@ == text@ && f == focus,
{
    assert(acts[1] == acts.skip(1)[0]);
}

/// Nothing empty is ever pasted.
pub proof fn law_never_pastes_empty_text(
    s: PipelineState,
    e: PipelineEvent,
    next: PipelineState,
    acts: Seq<PipelineAction>,
    i: int,
)
    requires
        step_post(s, e, next, acts),
        0 <= i < acts.len(),
        acts[i] is Paste,
    ensures
        acts[i] matches PipelineAction::Paste { text, .. } && text@.len() > 0,
{
    match (s, e) {
        (
            PipelineState::AwaitTranscript { focus, cleanup },
            PipelineEvent::Transcribed(Ok(text)),
        ) => {
            if cleanup.enabled && text@.len() > 0 && (cleanup.api_key@.len() == 0
                || cleanup.model is None) {
                assert(acts[i] == acts.skip(1)[i - 1]);
            }
        },
        _ => {},
    }
}

/// With AI clean-up off (the default), a transcript goes straight to the
/// paste: no clean-up request and no "cleaning" state.
pub proof fn law_cleanup_off_goes_straight_to_paste(
    focus: Option<FocusTarget>,
    cleanup: CleanupPlan,
    text: String,
    next: PipelineState,
    acts: Seq<PipelineAction>,
)
    requires
        !cleanup.enabled,
        step_post(
            PipelineState::AwaitTranscript { focus, cleanup },
            PipelineEvent::Transcribed(Ok(text)),
            next,
            acts,
        ),
    ensures
        finalize_post(text@, focus, next, acts),
        forall|i: int| 0 <= i < acts.len() ==> !(acts[i] is RunCleanup),
        forall|i: int| 0 <= i < acts.len() ==> acts[i] != PipelineAction::Emit(UiState::Cleaning),
{
}

/// The engine is the one the settings choose, whatever keys are stored:
/// the local engine for any setting but `"groq"`, Groq's only for `"groq"`
/// (and then with the stored Groq key).
pub proof fn law_engine_follows_the_setting(
    focus: Option<FocusTarget>,
    cfg: Settings,
    next: PipelineState,
    acts: Seq<PipelineAction>,
)
    requires
        step_post(PipelineState::AwaitSettings { focus }, PipelineEvent::SettingsLoaded(cfg), next, acts),
    ensures
        cfg.engine@ != "groq"@ ==> acts.len() == 1 && acts[0] is TranscribeNative,
        forall|i: int| 0 <= i < acts.len() && (#[trigger] acts[i]) is TranscribeGroq ==> cfg.engine@ == "groq"@,
        forall|i: int| 0 <= i < acts.len() && (#[trigger] acts[i]) is TranscribeNative ==> cfg.engine@ != "groq"@,
        cfg.engine@ == "groq"@ && cfg.groq_api_key@.len() > 0 ==> acts.len() == 1 && (
        acts[0] matches PipelineAction::TranscribeGroq(req) && req.api_key@ == cfg.groq_api_key@),
{
}

} // verus!
