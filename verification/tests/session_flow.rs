use hearye::paste::FocusTarget;
use hearye::pipeline::{choose_engine, start, step, Engine, PipelineAction, PipelineEvent, PipelineState};
use hearye::session::{AppState, Effect, Session};
use hearye::settings::Settings;
use hearye::ui::UiState;

const APP: Option<FocusTarget> = Some(FocusTarget { pid: 42 });

#[test]
fn toggle_starts_then_finishes() {
    let mut st = AppState::default();
    let e = st.on_toggle(APP);
    assert_eq!(e, vec![Effect::StartRecording, Effect::ShowOverlay, Effect::Emit(UiState::Recording), Effect::PauseMedia]);
    assert!(st.is_recording() && st.escape_active && st.overlay_visible);
    let e = st.on_toggle(None);
    assert_eq!(e, vec![Effect::SpawnPipeline]);
    assert!(st.pipeline);
    assert_eq!(st.session, Some(Session { focus: APP }));
}

#[test]
fn begin_while_recording_does_nothing() {
    let mut st = AppState::default();
    st.begin_session(APP);
    let before = st;
    assert!(st.begin_session(None).is_empty());
    assert_eq!(st, before);
}

#[test]
fn finish_without_recording_does_nothing() {
    let mut st = AppState::default();
    assert!(st.spawn_finish().is_empty());
    assert_eq!(st, AppState::default());
}

#[test]
fn second_finish_replaces_the_pipeline() {
    let mut st = AppState::default();
    st.begin_session(APP);
    st.spawn_finish();
    assert_eq!(st.spawn_finish(), vec![Effect::AbortPipeline, Effect::SpawnPipeline]);
}

#[test]
fn cancel_from_every_phase() {
    let mut st = AppState::default();
    st.begin_session(APP);
    assert_eq!(
        st.cancel_all(),
        vec![Effect::ResumeMedia, Effect::Emit(UiState::Idle), Effect::HideOverlay]
    );
    assert_eq!(st, AppState::default());

    st.begin_session(APP);
    st.spawn_finish();
    let (taken, e) = st.take_session();
    assert_eq!(taken, Some(Session { focus: APP }));
    assert_eq!(e, vec![Effect::ResumeMedia, Effect::Emit(UiState::Transcribing)]);
    assert_eq!(st.cancel_all(), vec![Effect::AbortPipeline, Effect::Emit(UiState::Idle), Effect::HideOverlay]);
    assert_eq!(st, AppState::default());
}

#[test]
fn pipeline_takes_the_session_once() {
    let mut st = AppState::default();
    st.begin_session(APP);
    st.spawn_finish();
    assert!(st.take_session().0.is_some());
    let (none, e) = st.take_session();
    assert!(none.is_none() && e.is_empty());
    assert_eq!(st.finish_cleanup(), vec![Effect::HideOverlay]);
    assert!(!st.escape_active && !st.overlay_visible);
}

fn settings(engine: &str, groq_key: &str, cleanup: bool, anthropic_key: &str) -> Settings {
    let mut s = Settings::default();
    s.engine = engine.to_string();
    s.groq_api_key = groq_key.to_string();
    s.ai_cleanup_enabled = cleanup;
    s.anthropic_api_key = anthropic_key.to_string();
    s.haiku_model = Some("cleanup-model".to_string());
    s
}

fn is_idle_end(acts: &[PipelineAction]) -> bool {
    matches!(acts, [PipelineAction::Emit(UiState::Idle), PipelineAction::FinishCleanup])
}

#[test]
fn engine_choice() {
    assert_eq!(choose_engine("groq"), Engine::Groq);
    assert_eq!(choose_engine("native"), Engine::Native);
    assert_eq!(choose_engine("Groq"), Engine::Native);
}

#[test]
fn short_audio_goes_back_to_idle() {
    let s = start(Session { focus: APP });
    let (next, acts) = step(s, PipelineEvent::Audio(Ok(1_999)));
    assert!(matches!(next, PipelineState::Done));
    assert!(is_idle_end(&acts));
}

#[test]
fn audio_failure_fails_the_run() {
    let (next, acts) = step(start(Session { focus: APP }), PipelineEvent::Audio(Err("no audio".into())));
    assert!(matches!(next, PipelineState::Done));
    assert!(matches!(&acts[..], [PipelineAction::Fail(m)] if m == "no audio"));
}

#[test]
fn native_run_without_cleanup_pastes() {
    let (s, acts) = step(start(Session { focus: APP }), PipelineEvent::Audio(Ok(2_000)));
    assert!(matches!(&acts[..], [PipelineAction::LoadSettings]));
    let (s, acts) = step(s, PipelineEvent::SettingsLoaded(Settings::default()));
    assert!(matches!(&acts[..], [PipelineAction::TranscribeNative]));
    let (s, acts) = step(s, PipelineEvent::Transcribed(Ok("hello".into())));
    assert!(matches!(&acts[..], [PipelineAction::Paste { text, focus }] if text == "hello" && *focus == APP));
    let (s, acts) = step(s, PipelineEvent::Pasted(Ok(())));
    assert!(matches!(s, PipelineState::Done));
    assert!(is_idle_end(&acts));
}

#[test]
fn groq_without_key_fails() {
    let (s, _) = step(start(Session { focus: None }), PipelineEvent::Audio(Ok(5_000)));
    let (s, acts) = step(s, PipelineEvent::SettingsLoaded(settings("groq", "", false, "")));
    assert!(matches!(s, PipelineState::Done));
    assert!(matches!(&acts[..], [PipelineAction::Fail(m)] if m == "Groq API key not set"));
}

#[test]
fn groq_run_with_cleanup() {
    let (s, _) = step(start(Session { focus: APP }), PipelineEvent::Audio(Ok(5_000)));
    let (s, acts) = step(s, PipelineEvent::SettingsLoaded(settings("groq", "gsk", true, "sk")));
    assert!(matches!(&acts[..], [PipelineAction::TranscribeGroq(r)] if r.api_key == "gsk" && r.model == "whisper-large-v3-turbo"));
    let (s, acts) = step(s, PipelineEvent::Transcribed(Ok("um hello".into())));
    assert!(matches!(&acts[..], [PipelineAction::Emit(UiState::Cleaning), PipelineAction::RunCleanup(r)] if r.text == "um hello" && r.api_key == "sk" && r.model == "cleanup-model"));
    let (_, acts) = step(s, PipelineEvent::Cleaned(Ok("Hello.".into())));
    assert!(matches!(&acts[..], [PipelineAction::Paste { text, .. }] if text == "Hello."));
}

#[test]
fn cleanup_failure_pastes_the_raw_text() {
    let (s, _) = step(start(Session { focus: APP }), PipelineEvent::Audio(Ok(5_000)));
    let (s, _) = step(s, PipelineEvent::SettingsLoaded(settings("native", "", true, "sk")));
    let (s, _) = step(s, PipelineEvent::Transcribed(Ok("raw words".into())));
    let (_, acts) = step(s, PipelineEvent::Cleaned(Err("timeout".into())));
    assert!(matches!(&acts[..], [PipelineAction::Paste { text, .. }] if text == "raw words"));
}

#[test]
fn cleanup_without_key_pastes_the_raw_text() {
    let (s, _) = step(start(Session { focus: APP }), PipelineEvent::Audio(Ok(5_000)));
    let (s, _) = step(s, PipelineEvent::SettingsLoaded(settings("native", "", true, "")));
    let (_, acts) = step(s, PipelineEvent::Transcribed(Ok("raw".into())));
    assert!(matches!(&acts[..], [PipelineAction::Emit(UiState::Cleaning), PipelineAction::Paste { text, .. }] if text == "raw"));
}

#[test]
fn empty_transcript_is_not_pasted() {
    let (s, _) = step(start(Session { focus: APP }), PipelineEvent::Audio(Ok(5_000)));
    let (s, _) = step(s, PipelineEvent::SettingsLoaded(settings("native", "", true, "sk")));
    let (s, acts) = step(s, PipelineEvent::Transcribed(Ok(String::new())));
    assert!(matches!(s, PipelineState::Done));
    assert!(is_idle_end(&acts));
}

#[test]
fn paste_failure_fails_the_run() {
    let (s, _) = step(start(Session { focus: APP }), PipelineEvent::Audio(Ok(5_000)));
    let (s, _) = step(s, PipelineEvent::SettingsLoaded(Settings::default()));
    let (s, _) = step(s, PipelineEvent::Transcribed(Ok("x".into())));
    let (_, acts) = step(s, PipelineEvent::Pasted(Err("no pasteboard".into())));
    assert!(matches!(&acts[..], [PipelineAction::Fail(m)] if m == "no pasteboard"));
}

#[test]
fn unexpected_events_change_nothing() {
    let (s, acts) = step(PipelineState::AwaitPaste, PipelineEvent::Audio(Ok(9_999)));
    assert!(matches!(s, PipelineState::AwaitPaste));
    assert!(acts.is_empty());
    let (s, acts) = step(PipelineState::Done, PipelineEvent::Pasted(Ok(())));
    assert!(matches!(s, PipelineState::Done));
    assert!(acts.is_empty());
}

#[test]
fn cleanup_without_model_pastes_the_raw_text() {
    let mut cfg = settings("native", "", true, "sk");
    cfg.haiku_model = None;
    let (s, _) = step(start(Session { focus: APP }), PipelineEvent::Audio(Ok(5_000)));
    let (s, _) = step(s, PipelineEvent::SettingsLoaded(cfg));
    let (_, acts) = step(s, PipelineEvent::Transcribed(Ok("raw".into())));
    assert!(matches!(&acts[..], [PipelineAction::Emit(UiState::Cleaning), PipelineAction::Paste { text, .. }] if text == "raw"));
}
