//! The recording session: what starting, finishing and cancelling do to the
//! app's state, and which outside work each asks the app to perform.

use vstd::prelude::*;
use crate::paste::FocusTarget;
use crate::ui::UiState;

verus! {

/// Outside work that a transition asks for, in order.
#[derive(PartialEq, Eq, Structural, Clone, Copy, Debug)]
pub enum Effect {
    /// Capture audio from the configured input device.
    StartRecording,
    ShowOverlay,
    HideOverlay,
    /// Tell the overlay the new state.
    Emit(UiState),
    PauseMedia,
    ResumeMedia,
    /// Stop the running finish pipeline.
    AbortPipeline,
    /// Run the finish pipeline in the background.
    SpawnPipeline,
}

/// A recording under way.
#[derive(PartialEq, Eq, Structural, Clone, Copy, Debug)]
pub struct Session {
    /// The application to paste into afterwards.
    pub focus: Option<FocusTarget>,
}

/// The app's state between events.
#[derive(PartialEq, Eq, Structural, Clone, Copy, Debug)]
pub struct AppState {
    /// The recording under way, if any.
    pub session: Option<Session>,
    /// Whether a finish pipeline was started and not cancelled.
    pub pipeline: bool,
    /// Whether Escape is intercepted to cancel.
    pub escape_active: bool,
    /// Whether the overlay is shown.
    pub overlay_visible: bool,
}

/// The state of a freshly started app: nothing under way.
pub open spec fn idle() -> AppState {
    AppState { session: None, pipeline: false, escape_active: false, overlay_visible: false }
}

/// The overlay is shown exactly while Escape is intercepted.
pub open spec fn wf(s: AppState) -> bool {
    s.overlay_visible == s.escape_active
}

/// Starting a recording: nothing when one is under way; otherwise the
/// recording starts with the given focus target, the overlay shows
/// "recording", Escape is intercepted and playing media is paused.
pub open spec fn begin_spec(s: AppState, focus: Option<FocusTarget>) -> (AppState, Seq<Effect>) {
    if s.session is Some {
        (s, seq![])
    } else {
        (
            AppState {
                session: Some(Session { focus }),
                escape_active: true,
                overlay_visible: true,
                ..s
            },
            seq![
                Effect::StartRecording,
                Effect::ShowOverlay,
                Effect::Emit(UiState::Recording),
                Effect::PauseMedia,
            ],
        )
    }
}

/// Finishing a recording: nothing when none is under way; otherwise a
/// finish pipeline is started in the background, after stopping the one
/// that may still run.
pub open spec fn spawn_finish_spec(s: AppState) -> (AppState, Seq<Effect>) {
    if s.session is None {
        (s, seq![])
    } else {
        (
            AppState { pipeline: true, ..s },
            if s.pipeline {
                seq![Effect::AbortPipeline, Effect::SpawnPipeline]
            } else {
                seq![Effect::SpawnPipeline]
            },
        )
    }
}

/// The pipeline's first step: it takes the recording (if it is still
/// there), resumes media and shows "transcribing".
pub open spec fn take_session_spec(s: AppState) -> (AppState, Option<Session>, Seq<Effect>) {
    match s.session {
        None => (s, None, seq![]),
        Some(x) => (
            AppState { session: None, ..s },
            Some(x),
            seq![Effect::ResumeMedia, Effect::Emit(UiState::Transcribing)],
        ),
    }
}

/// The end of every run: the overlay is hidden and Escape released.
pub open spec fn finish_cleanup_spec(s: AppState) -> (AppState, Seq<Effect>) {
    (AppState { overlay_visible: false, escape_active: false, ..s }, seq![Effect::HideOverlay])
}

/// Cancelling: the recording is dropped (resuming media), the pipeline
/// stopped, "idle" shown, the overlay hidden and Escape released.
pub open spec fn cancel_spec(s: AppState) -> (AppState, Seq<Effect>) {
    (
        AppState { session: None, pipeline: false, overlay_visible: false, escape_active: false },
        (if s.session is Some {
            seq![Effect::ResumeMedia]
        } else {
            seq![]
        }) + (if s.pipeline {
            seq![Effect::AbortPipeline]
        } else {
            seq![]
        }) + seq![Effect::Emit(UiState::Idle), Effect::HideOverlay],
    )
}

/// The toggle hotkey: finish when recording, start otherwise.
pub open spec fn toggle_spec(s: AppState, focus: Option<FocusTarget>) -> (AppState, Seq<Effect>) {
    if s.session is Some {
        spawn_finish_spec(s)
    } else {
        begin_spec(s, focus)
    }
}

impl Default for AppState {
    fn default() -> (r: AppState)
        ensures
            r == idle(),
    {
        AppState { session: None, pipeline: false, escape_active: false, overlay_visible: false }
    }
}

impl AppState {
    /// Whether a recording is under way.
    pub fn is_recording(&self) -> (r: bool)
        ensures
            r == self.session is Some,
    {
        self.session.is_some()
    }

    /// Escape now cancels.
    fn register_escape(&mut self)
        ensures
            *final(self) == (AppState { escape_active: true, ..*old(self) }),
    {
        self.escape_active = true;
    }

    /// Escape passes through again.
    fn unregister_escape(&mut self)
        ensures
            *final(self) == (AppState { escape_active: false, ..*old(self) }),
    {
        self.escape_active = false;
    }

    /// Starts a recording unless one is under way; `focus` is the
    /// application that had the focus.
    pub fn begin_session(&mut self, focus: Option<FocusTarget>) -> (r: Vec<Effect>)
        ensures
            (*final(self), r@) == begin_spec(*old(self), focus),
    {
        if self.session.is_some() {
            return Vec::new();
        }
        self.session = Some(Session { focus });
        let mut effects: Vec<Effect> = Vec::new();
        effects.push(Effect::StartRecording);
        self.overlay_visible = true;
        effects.push(Effect::ShowOverlay);
        effects.push(Effect::Emit(UiState::Recording));
        self.register_escape();
        effects.push(Effect::PauseMedia);
        assert(effects@ =~= begin_spec(*old(self), focus).1);
        effects
    }

    /// Sends the recording to be transcribed, in the background.
    pub fn spawn_finish(&mut self) -> (r: Vec<Effect>)
        ensures
            (*final(self), r@) == spawn_finish_spec(*old(self)),
    {
        let mut effects: Vec<Effect> = Vec::new();
        if self.session.is_none() {
            return effects;
        }
        if self.pipeline {
            effects.push(Effect::AbortPipeline);
        }
        effects.push(Effect::SpawnPipeline);
        self.pipeline = true;
        assert(effects@ =~= spawn_finish_spec(*old(self)).1);
        effects
    }

    /// Takes the recording for the pipeline.
    pub fn take_session(&mut self) -> (r: (Option<Session>, Vec<Effect>))
        ensures
            (*final(self), r.0, r.1@) == take_session_spec(*old(self)),
    {
        let mut effects: Vec<Effect> = Vec::new();
        match self.session {
            None => (None, effects),
            Some(s) => {
                self.session = None;
                effects.push(Effect::ResumeMedia);
                effects.push(Effect::Emit(UiState::Transcribing));
                assert(effects@ =~= take_session_spec(*old(self)).2);
                (Some(s), effects)
            },
        }
    }

    /// Hides the overlay and releases Escape.
    pub fn finish_cleanup(&mut self) -> (r: Vec<Effect>)
        ensures
            (*final(self), r@) == finish_cleanup_spec(*old(self)),
    {
        let mut effects: Vec<Effect> = Vec::new();
        self.overlay_visible = false;
        effects.push(Effect::HideOverlay);
        self.unregister_escape();
        assert(effects@ =~= finish_cleanup_spec(*old(self)).1);
        effects
    }

    /// Cancels whatever is under way.
    pub fn cancel_all(&mut self) -> (r: Vec<Effect>)
        ensures
            (*final(self), r@) == cancel_spec(*old(self)),
    {
        let mut effects: Vec<Effect> = Vec::new();
        let session = self.session;
        self.session = None;
        if session.is_some() {
            effects.push(Effect::ResumeMedia);
        }
        if self.pipeline {
            self.pipeline = false;
            effects.push(Effect::AbortPipeline);
        }
        effects.push(Effect::Emit(UiState::Idle));
        let rest = self.finish_cleanup();
        effects.push(rest[0]);
        assert(effects@ =~= cancel_spec(*old(self)).1);
        effects
    }

    /// The toggle hotkey: finishes a recording under way, else starts one.
    pub fn on_toggle(&mut self, focus: Option<FocusTarget>) -> (r: Vec<Effect>)
        ensures
            (*final(self), r@) == toggle_spec(*old(self), focus),
    {
        if self.is_recording() {
            self.spawn_finish()
        } else {
            self.begin_session(focus)
        }
    }
}

/// Every transition keeps the overlay shown exactly while Escape is
/// intercepted.
pub proof fn law_overlay_follows_escape(s: AppState, focus: Option<FocusTarget>)
    requires
        wf(s),
    ensures
        wf(begin_spec(s, focus).0),
        wf(spawn_finish_spec(s).0),
        wf(take_session_spec(s).0),
        wf(finish_cleanup_spec(s).0),
        wf(cancel_spec(s).0),
        wf(toggle_spec(s, focus).0),
{
}

/// Escape can cancel in every phase: it is armed when a recording starts
/// and stays armed while the recording is sent off and taken by the
/// pipeline (transcribing, cleaning up), until the run ends or is cancelled.
pub proof fn law_escape_armed_through_the_run(s: AppState, focus: Option<FocusTarget>)
    ensures
        s.session is None ==> begin_spec(s, focus).0.escape_active,
        spawn_finish_spec(s).0.escape_active == s.escape_active,
        take_session_spec(s).0.escape_active == s.escape_active,
        !finish_cleanup_spec(s).0.escape_active,
        !cancel_spec(s).0.escape_active,
{
}

/// Starting while a recording is under way changes nothing and asks for
/// nothing.
pub proof fn law_begin_while_recording_is_noop(s: AppState, focus: Option<FocusTarget>)
    requires
        s.session is Some,
    ensures
        begin_spec(s, focus) == (s, Seq::<Effect>::empty()),
{
}

/// Cancelling in any phase (recording, transcribing, cleaning up) leaves
/// the app idle, shows "idle" and hides the overlay.
pub proof fn law_cancel_goes_idle(s: AppState)
    ensures
        cancel_spec(s).0 == idle(),
        cancel_spec(s).1.contains(Effect::Emit(UiState::Idle)),
        cancel_spec(s).1.last() == Effect::HideOverlay,
        s.session is Some ==> cancel_spec(s).1[0] == Effect::ResumeMedia,
        s.pipeline ==> cancel_spec(s).1.contains(Effect::AbortPipeline),
{
    let e = cancel_spec(s).1;
    assert(e[e.len() - 2] == Effect::Emit(UiState::Idle));
    if s.pipeline {
        if s.session is Some {
            assert(e[1] == Effect::AbortPipeline);
        } else {
            assert(e[0] == Effect::AbortPipeline);
        }
    }
}

/// The toggle hotkey: pressed when idle it starts recording; pressed again
/// it sends the recording off.
pub proof fn law_toggle_starts_then_finishes(s: AppState, f1: Option<FocusTarget>, f2: Option<FocusTarget>)
    requires
        s.session is None,
    ensures
        toggle_spec(s, f1).0.session == Some(Session { focus: f1 }),
        toggle_spec(s, f1).1[0] == Effect::StartRecording,
        toggle_spec(toggle_spec(s, f1).0, f2).0.pipeline,
        toggle_spec(toggle_spec(s, f1).0, f2).1.last() == Effect::SpawnPipeline,
        toggle_spec(toggle_spec(s, f1).0, f2).0.session == Some(Session { focus: f1 }),
{
}

/// Push-to-talk: pressing starts a recording, releasing sends it off.
pub proof fn law_push_to_talk(s: AppState, f: Option<FocusTarget>)
    requires
        s.session is None,
    ensures
        begin_spec(s, f).1[0] == Effect::StartRecording,
        spawn_finish_spec(begin_spec(s, f).0).1.last() == Effect::SpawnPipeline,
        spawn_finish_spec(begin_spec(s, f).0).0.pipeline,
{
}

/// A finish pipeline is only started after the previous one, if any, is
/// stopped: never two at once.
pub proof fn law_one_pipeline_at_a_time(s: AppState)
    requires
        s.pipeline,
        s.session is Some,
    ensures
        spawn_finish_spec(s).1 == seq![Effect::AbortPipeline, Effect::SpawnPipeline],
{
}

/// Whenever a transition shows the overlay (it was hidden, it is shown
/// after), it asks for `ShowOverlay`; whenever one hides it, it asks for
/// `HideOverlay`; whenever one starts a recording (none before, one after),
/// it asks for `StartRecording`. Starting from no recording gives exactly
/// start, show, "recording", pause, whatever else the state holds.
pub proof fn law_effects_follow_the_state(s: AppState, focus: Option<FocusTarget>)
    ensures
        ({
            let (t, e) = begin_spec(s, focus);
            &&& !s.overlay_visible && t.overlay_visible ==> e.contains(Effect::ShowOverlay)
            &&& s.overlay_visible && !t.overlay_visible ==> e.contains(Effect::HideOverlay)
            &&& s.session is None && t.session is Some ==> e.contains(Effect::StartRecording)
        }),
        ({
            let (t, e) = spawn_finish_spec(s);
            &&& !s.overlay_visible && t.overlay_visible ==> e.contains(Effect::ShowOverlay)
            &&& s.overlay_visible && !t.overlay_visible ==> e.contains(Effect::HideOverlay)
            &&& s.session is None && t.session is Some ==> e.contains(Effect::StartRecording)
        }),
        ({
            let (t, x, e) = take_session_spec(s);
            &&& !s.overlay_visible && t.overlay_visible ==> e.contains(Effect::ShowOverlay)
            &&& s.overlay_visible && !t.overlay_visible ==> e.contains(Effect::HideOverlay)
            &&& s.session is None && t.session is Some ==> e.contains(Effect::StartRecording)
        }),
        ({
            let (t, e) = finish_cleanup_spec(s);
            &&& !s.overlay_visible && t.overlay_visible ==> e.contains(Effect::ShowOverlay)
            &&& s.overlay_visible && !t.overlay_visible ==> e.contains(Effect::HideOverlay)
            &&& s.session is None && t.session is Some ==> e.contains(Effect::StartRecording)
        }),
        ({
            let (t, e) = cancel_spec(s);
            &&& !s.overlay_visible && t.overlay_visible ==> e.contains(Effect::ShowOverlay)
            &&& s.overlay_visible && !t.overlay_visible ==> e.contains(Effect::HideOverlay)
            &&& s.session is None && t.session is Some ==> e.contains(Effect::StartRecording)
        }),
        s.session is None ==> begin_spec(s, focus).1 == seq![
            Effect::StartRecording,
            Effect::ShowOverlay,
            Effect::Emit(UiState::Recording),
            Effect::PauseMedia,
        ],
        s.session is None ==> begin_spec(s, focus).0.overlay_visible && begin_spec(s, focus).0.session
            == Some(Session { focus }),
{
    let e = begin_spec(s, focus).1;
    if s.session is None {
        assert(e[0] == Effect::StartRecording);
        assert(e[1] == Effect::ShowOverlay);
    }
    let c = cancel_spec(s).1;
    assert(c[c.len() - 1] == Effect::HideOverlay);
    let f = finish_cleanup_spec(s).1;
    assert(f[0] == Effect::HideOverlay);
}

} // verus!
