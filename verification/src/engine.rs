//! Dictation engine decisions: what the worker does for each command it
//! receives, for each poll timeout, and for the outcome of the outside work
//! (opening the microphone, loading a model) that it asked for.
//!
//! The worker loop itself (the channel, the microphone stream, whisper, the
//! UI events) lives outside this crate; it feeds events to [`EngineState`] and
//! performs the [`Effect`]s it gets back, in order.
//!
//! Recording state machine: Idle → Recording → [Locked] → Finalizing → Idle.

use std::path::PathBuf;
use std::sync::atomic::AtomicBool;
use std::sync::Arc;
use vstd::prelude::*;
use vstd::string::StringExecFns;
use crate::model::ModelId;

verus! {

#[verifier::external_type_specification]
#[verifier::external_body]
pub struct ExPathBuf(PathBuf);

/// Sample rate assumed when no microphone stream is open.
pub const FALLBACK_RATE: u32 = 16_000;

/// Poll interval while recording (interim transcription and level meter).
pub const RECORDING_POLL_MS: u64 = 200;

/// Poll interval while idle: the worker sleeps until a command arrives.
pub const IDLE_POLL_MS: u64 = 3_600_000;

/// Commands sent from the UI to the engine worker.
#[derive(Debug)]
pub enum EngineCommand {
    Start,
    SetLocked(bool),
    Stop,
    Cancel,
    LoadModel(ModelId),
    /// Transcribe an audio/video file; the flag is raised to cancel it.
    TranscribeFile(PathBuf, Arc<AtomicBool>),
}

/// Recording state as shown by the UI.
#[derive(Clone, Copy, Debug, PartialEq, Eq)]
pub enum RecordingState {
    Idle,
    Recording,
    Locked,
    Finalizing,
}

/// Current model status, shared so the UI can query it at any time.
#[derive(Clone, Debug)]
pub struct ModelStatusValue {
    pub model: Option<ModelId>,
    pub loaded: bool,
    pub error: Option<String>,
}

/// What a [`ModelStatusValue`] says, with the error text as characters.
pub struct StatusView {
    pub model: Option<ModelId>,
    pub loaded: bool,
    pub error: Option<Seq<char>>,
}

impl View for ModelStatusValue {
    type V = StatusView;

    open spec fn view(&self) -> StatusView {
        StatusView {
            model: self.model,
            loaded: self.loaded,
            error: match self.error {
                Some(e) => Some(e@),
                None => None,
            },
        }
    }
}

impl Default for ModelStatusValue {
    fn default() -> (r: Self)
        ensures
            r.model is None,
            !r.loaded,
            r.error is None,
    {
        ModelStatusValue { model: None, loaded: false, error: None }
    }
}

/// Builds the status published after a model event.
pub fn model_status(id: ModelId, loaded: bool, error: Option<String>) -> (r: ModelStatusValue)
    ensures
        r.model == Some(id),
        r.loaded == loaded,
        r.error == error,
{
    ModelStatusValue { model: Some(id), loaded, error }
}

/// An event that the worker loop hands to the engine.
#[derive(Debug)]
pub enum EngineEvent {
    /// A command arrived from the UI.
    Command(EngineCommand),
    /// No command arrived within [`EngineState::poll_timeout_ms`].
    Timeout,
    /// Every command sender is gone: the worker should end.
    Disconnected,
}

/// Work that the worker loop performs for the engine, in the order given.
#[derive(Debug)]
pub enum Effect {
    /// Empty the shared sample buffer.
    ClearBuffer,
    /// Open the microphone, then report the result with [`EngineState::on_capture_result`].
    StartCapture,
    /// Close the microphone stream, if one is open.
    StopCapture,
    /// Tell the UI the recording state.
    EmitState(RecordingState),
    /// Tell the UI about an engine error.
    EmitError(String),
    /// Run the final transcription pass over the buffer recorded at `rate`.
    Finalize { rate: u32, model_loaded: bool },
    /// Load the model, then report the result with [`EngineState::on_model_result`].
    LoadModel(ModelId),
    /// Store this model status and tell the UI.
    PublishStatus(ModelStatusValue),
    /// Transcribe a file.
    TranscribeFile { path: PathBuf, cancel: Arc<AtomicBool>, model_loaded: bool },
    /// Periodic work while recording at `rate`: level meter and interim transcription.
    Tick { rate: u32, model_loaded: bool },
    /// Restart the interim-transcription clock.
    ResetInterimTimer,
    /// Leave the worker loop.
    Exit,
}

/// What an [`Effect`] says, with texts as characters.
pub enum EffectView {
    ClearBuffer,
    StartCapture,
    StopCapture,
    EmitState(RecordingState),
    EmitError(Seq<char>),
    Finalize { rate: u32, model_loaded: bool },
    LoadModel(ModelId),
    PublishStatus(StatusView),
    TranscribeFile { path: PathBuf, cancel: Arc<AtomicBool>, model_loaded: bool },
    Tick { rate: u32, model_loaded: bool },
    ResetInterimTimer,
    Exit,
}

impl View for Effect {
    type V = EffectView;

    open spec fn view(&self) -> EffectView {
        match self {
            Effect::ClearBuffer => EffectView::ClearBuffer,
            Effect::StartCapture => EffectView::StartCapture,
            Effect::StopCapture => EffectView::StopCapture,
            Effect::EmitState(s) => EffectView::EmitState(*s),
            Effect::EmitError(e) => EffectView::EmitError(e@),
            Effect::Finalize { rate, model_loaded } => EffectView::Finalize {
                rate: *rate,
                model_loaded: *model_loaded,
            },
            Effect::LoadModel(id) => EffectView::LoadModel(*id),
            Effect::PublishStatus(s) => EffectView::PublishStatus(s@),
            Effect::TranscribeFile { path, cancel, model_loaded } => EffectView::TranscribeFile {
                path: *path,
                cancel: *cancel,
                model_loaded: *model_loaded,
            },
            Effect::Tick { rate, model_loaded } => EffectView::Tick {
                rate: *rate,
                model_loaded: *model_loaded,
            },
            Effect::ResetInterimTimer => EffectView::ResetInterimTimer,
            Effect::Exit => EffectView::Exit,
        }
    }
}

pub open spec fn effects_view(v: Seq<Effect>) -> Seq<EffectView> {
    v.map_values(|e: Effect| e@)
}

/// The engine's state as a mathematical value.
pub struct EngineModel {
    /// A microphone stream is open and recording.
    pub recording: bool,
    /// Sample rate of the open microphone stream.
    pub capture_rate: Option<u32>,
    /// The model that is loaded, or was last asked for.
    pub current_model: ModelId,
    /// Whether a model is loaded and ready to transcribe.
    pub model_loaded: bool,
}

impl EngineModel {
    /// Recording exactly when a microphone stream is open.
    pub open spec fn wf(self) -> bool {
        self.recording == self.capture_rate is Some
    }

    pub open spec fn rate(self) -> u32 {
        match self.capture_rate {
            Some(r) => r,
            None => FALLBACK_RATE,
        }
    }

    pub open spec fn idle(self) -> EngineModel {
        EngineModel { recording: false, capture_rate: None, ..self }
    }
}

pub open spec fn status_view(id: ModelId, loaded: bool, error: Option<Seq<char>>) -> StatusView {
    StatusView { model: Some(id), loaded, error }
}

/// Next state after an event.
pub open spec fn next_state(m: EngineModel, ev: EngineEvent) -> EngineModel {
    match ev {
        EngineEvent::Command(EngineCommand::Stop) => if m.recording {
            m.idle()
        } else {
            m
        },
        EngineEvent::Command(EngineCommand::Cancel) => m.idle(),
        EngineEvent::Command(EngineCommand::LoadModel(id)) => EngineModel { current_model: id, ..m },
        _ => m,
    }
}

/// Work the worker does for an event, in order.
pub open spec fn event_effects(m: EngineModel, ev: EngineEvent) -> Seq<EffectView> {
    match ev {
        EngineEvent::Command(EngineCommand::Start) => seq![
            EffectView::ClearBuffer,
            EffectView::StartCapture,
        ],
        EngineEvent::Command(EngineCommand::SetLocked(locked)) => if m.recording {
            seq![
                EffectView::EmitState(
                    if locked {
                        RecordingState::Locked
                    } else {
                        RecordingState::Recording
                    },
                ),
            ]
        } else {
            seq![]
        },
        EngineEvent::Command(EngineCommand::Stop) => if m.recording {
            seq![
                EffectView::StopCapture,
                EffectView::EmitState(RecordingState::Finalizing),
                EffectView::Finalize { rate: m.rate(), model_loaded: m.model_loaded },
                EffectView::ClearBuffer,
                EffectView::EmitState(RecordingState::Idle),
            ]
        } else {
            seq![]
        },
        EngineEvent::Command(EngineCommand::Cancel) => seq![
            EffectView::StopCapture,
            EffectView::ClearBuffer,
            EffectView::EmitState(RecordingState::Idle),
        ],
        EngineEvent::Command(EngineCommand::LoadModel(id)) => seq![
            EffectView::PublishStatus(status_view(id, false, Some("loading"@))),
            EffectView::LoadModel(id),
        ],
        EngineEvent::Command(EngineCommand::TranscribeFile(path, cancel)) => seq![
            EffectView::TranscribeFile { path, cancel, model_loaded: m.model_loaded },
        ],
        EngineEvent::Timeout => if m.recording {
            seq![EffectView::Tick { rate: m.rate(), model_loaded: m.model_loaded }]
        } else {
            seq![]
        },
        EngineEvent::Disconnected => seq![EffectView::Exit],
    }
}

/// Next state once the microphone was opened (`Ok(rate)`) or failed (`Err(message)`).
pub open spec fn capture_state(m: EngineModel, r: Result<u32, Seq<char>>) -> EngineModel {
    match r {
        Ok(rate) => EngineModel { recording: true, capture_rate: Some(rate), ..m },
        Err(_) => m,
    }
}

pub open spec fn capture_effects(r: Result<u32, Seq<char>>) -> Seq<EffectView> {
    match r {
        Ok(_) => seq![
            EffectView::ResetInterimTimer,
            EffectView::EmitState(RecordingState::Recording),
        ],
        Err(e) => seq![EffectView::EmitError("microphone: "@ + e)],
    }
}

/// Next state once the current model was loaded (`None`) or failed (`Some(message)`).
pub open spec fn model_state(m: EngineModel, failure: Option<Seq<char>>) -> EngineModel {
    EngineModel { model_loaded: failure is None, ..m }
}

pub open spec fn model_effects(m: EngineModel, failure: Option<Seq<char>>) -> Seq<EffectView> {
    seq![EffectView::PublishStatus(status_view(m.current_model, failure is None, failure))]
}

pub open spec fn result_view<T>(r: Result<T, String>) -> Result<T, Seq<char>> {
    match r {
        Ok(v) => Ok(v),
        Err(e) => Err(e@),
    }
}

pub open spec fn failure_view<T>(r: Result<T, String>) -> Option<Seq<char>> {
    match r {
        Ok(_) => None,
        Err(e) => Some(e@),
    }
}

/// The dictation engine's state machine.
pub struct EngineState {
    recording: bool,
    capture_rate: Option<u32>,
    current_model: ModelId,
    model_loaded: bool,
}

impl View for EngineState {
    type V = EngineModel;

    closed spec fn view(&self) -> EngineModel {
        EngineModel {
            recording: self.recording,
            capture_rate: self.capture_rate,
            current_model: self.current_model,
            model_loaded: self.model_loaded,
        }
    }
}

impl EngineState {
    pub open spec fn wf(&self) -> bool {
        self@.wf()
    }

    /// A fresh engine: not recording, nothing loaded yet; its first job is to
    /// load `initial_model`.
    pub fn new(initial_model: ModelId) -> (r: (EngineState, Vec<Effect>))
        ensures
            r.0.wf(),
            r.0@ == (EngineModel {
                recording: false,
                capture_rate: None,
                current_model: initial_model,
                model_loaded: false,
            }),
            effects_view(r.1@) == seq![EffectView::LoadModel(initial_model)],
    {
        let state = EngineState {
            recording: false,
            capture_rate: None,
            current_model: initial_model,
            model_loaded: false,
        };
        let mut effects: Vec<Effect> = Vec::new();
        effects.push(Effect::LoadModel(initial_model));
        assert(effects_view(effects@) =~= seq![EffectView::LoadModel(initial_model)]);
        (state, effects)
    }

    pub fn is_recording(&self) -> (r: bool)
        ensures
            r == self@.recording,
    {
        self.recording
    }

    pub fn current_model(&self) -> (r: ModelId)
        ensures
            r == self@.current_model,
    {
        self.current_model
    }

    pub fn model_loaded(&self) -> (r: bool)
        ensures
            r == self@.model_loaded,
    {
        self.model_loaded
    }

    /// Sample rate of the open microphone stream, or the fallback rate.
    pub fn rate(&self) -> (r: u32)
        ensures
            r == self@.rate(),
    {
        match self.capture_rate {
            Some(r) => r,
            None => FALLBACK_RATE,
        }
    }

    /// How long the worker waits for the next command before a [`EngineEvent::Timeout`].
    pub fn poll_timeout_ms(&self) -> (r: u64)
        ensures
            r == (if self@.recording { RECORDING_POLL_MS } else { IDLE_POLL_MS }),
    {
        if self.recording {
            RECORDING_POLL_MS
        } else {
            IDLE_POLL_MS
        }
    }

    /// Handles one event from the worker loop.
    pub fn handle(&mut self, ev: EngineEvent) -> (r: Vec<Effect>)
        requires
            old(self).wf(),
        ensures
            final(self).wf(),
            final(self)@ == next_state(old(self)@, ev),
            effects_view(r@) == event_effects(old(self)@, ev),
    {
        let ghost m = self@;
        let ghost e = ev;
        let mut out: Vec<Effect> = Vec::new();
        match ev {
            EngineEvent::Command(cmd) => match cmd {
                EngineCommand::Start => {
                    out.push(Effect::ClearBuffer);
                    out.push(Effect::StartCapture);
                },
                EngineCommand::SetLocked(locked) => {
                    if self.recording {
                        let s = if locked {
                            RecordingState::Locked
                        } else {
                            RecordingState::Recording
                        };
                        out.push(Effect::EmitState(s));
                    }
                },
                EngineCommand::Stop => {
                    if self.recording {
                        let rate = self.rate();
                        self.capture_rate = None;
                        self.recording = false;
                        out.push(Effect::StopCapture);
                        out.push(Effect::EmitState(RecordingState::Finalizing));
                        out.push(Effect::Finalize { rate, model_loaded: self.model_loaded });
                        out.push(Effect::ClearBuffer);
                        out.push(Effect::EmitState(RecordingState::Idle));
                    }
                },
                EngineCommand::Cancel => {
                    self.capture_rate = None;
                    self.recording = false;
                    out.push(Effect::StopCapture);
                    out.push(Effect::ClearBuffer);
                    out.push(Effect::EmitState(RecordingState::Idle));
                },
                EngineCommand::LoadModel(id) => {
                    self.current_model = id;
                    let loading = "loading".to_owned();
                    out.push(Effect::PublishStatus(model_status(id, false, Some(loading))));
                    out.push(Effect::LoadModel(id));
                },
                EngineCommand::TranscribeFile(path, cancel) => {
                    out.push(
                        Effect::TranscribeFile { path, cancel, model_loaded: self.model_loaded },
                    );
                },
            },
            EngineEvent::Timeout => {
                if self.recording {
                    let rate = self.rate();
                    out.push(Effect::Tick { rate, model_loaded: self.model_loaded });
                }
            },
            EngineEvent::Disconnected => {
                out.push(Effect::Exit);
            },
        }
        assert(effects_view(out@) =~= event_effects(m, e));
        out
    }

    /// Reports the outcome of [`Effect::StartCapture`]: the stream's sample
    /// rate, or why the microphone could not be opened.
    pub fn on_capture_result(&mut self, result: Result<u32, String>) -> (r: Vec<Effect>)
        requires
            old(self).wf(),
        ensures
            final(self).wf(),
            final(self)@ == capture_state(old(self)@, result_view(result)),
            effects_view(r@) == capture_effects(result_view(result)),
    {
        let ghost rv = result_view(result);
        let mut out: Vec<Effect> = Vec::new();
        match result {
            Ok(rate) => {
                self.recording = true;
                self.capture_rate = Some(rate);
                out.push(Effect::ResetInterimTimer);
                out.push(Effect::EmitState(RecordingState::Recording));
            },
            Err(e) => {
                let mut msg = "microphone: ".to_owned();
                msg.append(e.as_str());
                out.push(Effect::EmitError(msg));
            },
        }
        assert(effects_view(out@) =~= capture_effects(rv));
        out
    }

    /// Reports the outcome of [`Effect::LoadModel`] for the current model:
    /// `Ok(gpu)` when it loaded, or why it could not be loaded.
    pub fn on_model_result(&mut self, result: Result<bool, String>) -> (r: Vec<Effect>)
        requires
            old(self).wf(),
        ensures
            final(self).wf(),
            final(self)@ == model_state(old(self)@, failure_view(result)),
            effects_view(r@) == model_effects(old(self)@, failure_view(result)),
    {
        let ghost m = self@;
        let ghost f = failure_view(result);
        let mut out: Vec<Effect> = Vec::new();
        let id = self.current_model;
        match result {
            Ok(_) => {
                self.model_loaded = true;
                out.push(Effect::PublishStatus(model_status(id, true, None)));
            },
            Err(e) => {
                self.model_loaded = false;
                out.push(Effect::PublishStatus(model_status(id, false, Some(e))));
            },
        }
        assert(effects_view(out@) =~= model_effects(m, f));
        out
    }
}


/// The recording states that a run of effects tells the UI, in order.
pub open spec fn emitted_states(s: Seq<EffectView>) -> Seq<RecordingState>
    decreases s.len(),
{
    if s.len() == 0 {
        seq![]
    } else {
        emitted_states(s.drop_last()) + match s.last() {
            EffectView::EmitState(st) => seq![st],
            _ => seq![],
        }
    }
}

pub proof fn lemma_emitted_states_concat(a: Seq<EffectView>, b: Seq<EffectView>)
    ensures
        emitted_states(a + b) == emitted_states(a) + emitted_states(b),
    decreases b.len(),
{
    if b.len() == 0 {
        assert(a + b =~= a);
        assert(emitted_states(b) =~= seq![]);
        assert(emitted_states(a) + emitted_states(b) =~= emitted_states(a));
    } else {
        lemma_emitted_states_concat(a, b.drop_last());
        assert((a + b).drop_last() =~= a + b.drop_last());
        assert((a + b).last() == b.last());
        assert(emitted_states(a) + emitted_states(b) =~= emitted_states(a) + emitted_states(
            b.drop_last(),
        ) + match b.last() {
            EffectView::EmitState(st) => seq![st],
            _ => seq![],
        });
    }
}

/// Whatever happens, the engine records exactly when a microphone stream is open.
pub proof fn lemma_engine_wf_preserved(
    m: EngineModel,
    ev: EngineEvent,
    capture: Result<u32, Seq<char>>,
    failure: Option<Seq<char>>,
)
    requires
        m.wf(),
    ensures
        next_state(m, ev).wf(),
        capture_state(m, capture).wf(),
        model_state(m, failure).wf(),
{
}

/// Stop ends a running recording: the microphone is closed, the buffer recorded
/// at the stream's rate gets its final pass, and the UI is told Finalizing, then Idle.
pub proof fn lemma_stop_returns_to_idle(m: EngineModel)
    requires
        m.wf(),
        m.recording,
    ensures
        ({
            let n = next_state(m, EngineEvent::Command(EngineCommand::Stop));
            let fx = event_effects(m, EngineEvent::Command(EngineCommand::Stop));
            &&& !n.recording
            &&& n.capture_rate is None
            &&& n.current_model == m.current_model
            &&& n.model_loaded == m.model_loaded
            &&& fx[0] == EffectView::StopCapture
            &&& fx.contains(EffectView::Finalize { rate: m.rate(), model_loaded: m.model_loaded })
            &&& fx.last() == EffectView::EmitState(RecordingState::Idle)
            &&& emitted_states(fx) == seq![RecordingState::Finalizing, RecordingState::Idle]
        }),
{
    let fx = event_effects(m, EngineEvent::Command(EngineCommand::Stop));
    assert(fx[2] == EffectView::Finalize { rate: m.rate(), model_loaded: m.model_loaded });
    reveal_with_fuel(emitted_states, 6);
    assert(fx.drop_last().drop_last().drop_last() =~= fx.take(2));
    assert(fx.take(2).drop_last() =~= fx.take(1));
    assert(fx.take(1).drop_last() =~= Seq::<EffectView>::empty());
    assert(fx.drop_last() =~= fx.take(4));
    assert(fx.take(4).drop_last() =~= fx.take(3));
    assert(fx.take(3).drop_last() =~= fx.take(2));
    assert(emitted_states(fx.take(1)) =~= seq![]);
    assert(emitted_states(fx.take(2)) =~= seq![RecordingState::Finalizing]);
}

/// Stop without a running recording changes nothing and tells the UI nothing:
/// no Finalizing, no final pass.
pub proof fn lemma_stop_while_idle_is_quiet(m: EngineModel)
    requires
        m.wf(),
        !m.recording,
    ensures
        next_state(m, EngineEvent::Command(EngineCommand::Stop)) == m,
        event_effects(m, EngineEvent::Command(EngineCommand::Stop)) =~= Seq::<EffectView>::empty(),
{
}

/// Cancel drops the recording without a final pass and tells the UI Idle.
pub proof fn lemma_cancel_returns_to_idle(m: EngineModel)
    requires
        m.wf(),
    ensures
        ({
            let n = next_state(m, EngineEvent::Command(EngineCommand::Cancel));
            let fx = event_effects(m, EngineEvent::Command(EngineCommand::Cancel));
            &&& !n.recording
            &&& n.capture_rate is None
            &&& n.model_loaded == m.model_loaded
            &&& forall|i: int| 0 <= i < fx.len() ==> !(#[trigger] fx[i] is Finalize)
            &&& emitted_states(fx) == seq![RecordingState::Idle]
        }),
{
    let fx = event_effects(m, EngineEvent::Command(EngineCommand::Cancel));
    reveal_with_fuel(emitted_states, 4);
    assert(fx.drop_last() =~= fx.take(2));
    assert(fx.take(2).drop_last() =~= fx.take(1));
    assert(fx.take(1).drop_last() =~= Seq::<EffectView>::empty());
}

/// Locking or unlocking changes nothing in the engine; the UI hears about it
/// only while a recording runs.
pub proof fn lemma_set_locked_only_reports(m: EngineModel, locked: bool)
    ensures
        next_state(m, EngineEvent::Command(EngineCommand::SetLocked(locked))) == m,
        m.recording ==> event_effects(m, EngineEvent::Command(EngineCommand::SetLocked(locked)))
            == seq![
            EffectView::EmitState(
                if locked {
                    RecordingState::Locked
                } else {
                    RecordingState::Recording
                },
            ),
        ],
        !m.recording ==> event_effects(m, EngineEvent::Command(EngineCommand::SetLocked(locked)))
            =~= Seq::<EffectView>::empty(),
{
}

/// An idle engine does nothing when its poll times out; a recording engine ticks
/// once, at the stream's sample rate.
pub proof fn lemma_timeout_ticks_only_while_recording(m: EngineModel)
    requires
        m.wf(),
    ensures
        next_state(m, EngineEvent::Timeout) == m,
        !m.recording ==> event_effects(m, EngineEvent::Timeout) =~= Seq::<EffectView>::empty(),
        m.recording ==> event_effects(m, EngineEvent::Timeout) == seq![
            EffectView::Tick { rate: m.capture_rate->0, model_loaded: m.model_loaded },
        ],
{
}

/// A full dictation from an idle engine: Start, the microphone opens at `rate`,
/// the user locks, then stops. The UI sees Recording, Locked, Finalizing, Idle;
/// the final pass runs at `rate`; the engine ends idle.
pub proof fn lemma_dictation_cycle(m: EngineModel, rate: u32)
    requires
        m.wf(),
        !m.recording,
    ensures
        ({
            let e1 = EngineEvent::Command(EngineCommand::Start);
            let m1 = next_state(m, e1);
            let m2 = capture_state(m1, Ok(rate));
            let e3 = EngineEvent::Command(EngineCommand::SetLocked(true));
            let m3 = next_state(m2, e3);
            let e4 = EngineEvent::Command(EngineCommand::Stop);
            let m4 = next_state(m3, e4);
            let fx = event_effects(m, e1) + capture_effects(Ok(rate)) + event_effects(m2, e3)
                + event_effects(m3, e4);
            &&& emitted_states(fx) == seq![
                RecordingState::Recording,
                RecordingState::Locked,
                RecordingState::Finalizing,
                RecordingState::Idle,
            ]
            &&& fx.contains(EffectView::Finalize { rate, model_loaded: m.model_loaded })
            &&& m4 == m
        }),
{
    let e1 = EngineEvent::Command(EngineCommand::Start);
    let m1 = next_state(m, e1);
    let m2 = capture_state(m1, Ok(rate));
    let e3 = EngineEvent::Command(EngineCommand::SetLocked(true));
    let m3 = next_state(m2, e3);
    let e4 = EngineEvent::Command(EngineCommand::Stop);
    let a = event_effects(m, e1);
    let b = capture_effects(Ok(rate));
    let c = event_effects(m2, e3);
    let d = event_effects(m3, e4);
    lemma_stop_returns_to_idle(m3);
    reveal_with_fuel(emitted_states, 3);
    assert(a.drop_last() =~= seq![EffectView::ClearBuffer]);
    assert(a.drop_last().drop_last() =~= Seq::<EffectView>::empty());
    assert(emitted_states(a) =~= seq![]);
    assert(b.drop_last() =~= seq![EffectView::ResetInterimTimer]);
    assert(b.drop_last().drop_last() =~= Seq::<EffectView>::empty());
    assert(emitted_states(b) =~= seq![RecordingState::Recording]);
    assert(c.drop_last() =~= Seq::<EffectView>::empty());
    assert(emitted_states(c) =~= seq![RecordingState::Locked]);
    lemma_emitted_states_concat(a, b);
    lemma_emitted_states_concat(a + b, c);
    lemma_emitted_states_concat(a + b + c, d);
    assert(emitted_states(a + b + c + d) =~= seq![
        RecordingState::Recording,
        RecordingState::Locked,
        RecordingState::Finalizing,
        RecordingState::Idle,
    ]);
    let fx = a + b + c + d;
    assert(fx[(a.len() + b.len() + c.len() + 2) as int] == d[2]);
    assert(d[2] == EffectView::Finalize { rate, model_loaded: m.model_loaded });
}

/// Switching models: the engine follows the requested model, the UI is first
/// told it is loading, and the status published after the load names that model
/// and says whether it loaded, with the failure's message if it did not.
pub proof fn lemma_model_switch(m: EngineModel, id: ModelId, failure: Option<Seq<char>>)
    requires
        m.wf(),
    ensures
        ({
            let e = EngineEvent::Command(EngineCommand::LoadModel(id));
            let m1 = next_state(m, e);
            let m2 = model_state(m1, failure);
            &&& event_effects(m, e)[0] == EffectView::PublishStatus(
                status_view(id, false, Some("loading"@)),
            )
            &&& event_effects(m, e)[1] == EffectView::LoadModel(id)
            &&& m2.current_model == id
            &&& m2.model_loaded == (failure is None)
            &&& m2.recording == m.recording
            &&& model_effects(m1, failure) == seq![
                EffectView::PublishStatus(status_view(id, failure is None, failure)),
            ]
        }),
{
}


/// One input of the engine: an event from the worker loop, or the outcome of
/// the outside work that an effect asked for.
pub enum EngineInput {
    Event(EngineEvent),
    /// What [`EngineState::on_capture_result`] is told.
    CaptureResult(Result<u32, Seq<char>>),
    /// What [`EngineState::on_model_result`] is told: `None` when the model loaded.
    ModelResult(Option<Seq<char>>),
}

pub open spec fn input_state(m: EngineModel, i: EngineInput) -> EngineModel {
    match i {
        EngineInput::Event(ev) => next_state(m, ev),
        EngineInput::CaptureResult(r) => capture_state(m, r),
        EngineInput::ModelResult(f) => model_state(m, f),
    }
}

pub open spec fn input_effects(m: EngineModel, i: EngineInput) -> Seq<EffectView> {
    match i {
        EngineInput::Event(ev) => event_effects(m, ev),
        EngineInput::CaptureResult(r) => capture_effects(r),
        EngineInput::ModelResult(f) => model_effects(m, f),
    }
}

/// The engine's state after a run of inputs.
pub open spec fn run_state(m: EngineModel, ins: Seq<EngineInput>) -> EngineModel
    decreases ins.len(),
{
    if ins.len() == 0 {
        m
    } else {
        input_state(run_state(m, ins.drop_last()), ins.last())
    }
}

/// All the effects of a run of inputs, in order.
pub open spec fn run_effects(m: EngineModel, ins: Seq<EngineInput>) -> Seq<EffectView>
    decreases ins.len(),
{
    if ins.len() == 0 {
        seq![]
    } else {
        run_effects(m, ins.drop_last()) + input_effects(run_state(m, ins.drop_last()), ins.last())
    }
}

/// The steps the UI's recording state may take: Idle → Recording,
/// Recording ↔ Locked, Recording or Locked → Finalizing → Idle, Recording or
/// Locked → Idle on cancel; a state may repeat.
pub open spec fn allowed_step(a: RecordingState, b: RecordingState) -> bool {
    match b {
        RecordingState::Idle => true,
        RecordingState::Recording => a != RecordingState::Finalizing,
        RecordingState::Locked => a == RecordingState::Recording || a == RecordingState::Locked,
        RecordingState::Finalizing => a == RecordingState::Recording || a
            == RecordingState::Locked,
    }
}

/// Every state in `s` is an allowed step from the one before it, the first
/// from `prev`.
pub open spec fn steps_allowed(prev: RecordingState, s: Seq<RecordingState>) -> bool
    decreases s.len(),
{
    if s.len() == 0 {
        true
    } else {
        allowed_step(prev, s[0]) && steps_allowed(s[0], s.drop_first())
    }
}

/// The state the UI shows after being told `s`, starting from `prev`.
pub open spec fn shown_after(prev: RecordingState, s: Seq<RecordingState>) -> RecordingState {
    if s.len() == 0 {
        prev
    } else {
        s.last()
    }
}

/// What the UI shows agrees with the engine: a recording runs exactly when the
/// UI shows Recording or Locked; otherwise it shows Idle.
pub open spec fn shown_matches(m: EngineModel, shown: RecordingState) -> bool {
    &&& m.wf()
    &&& m.recording ==> (shown == RecordingState::Recording || shown == RecordingState::Locked)
    &&& !m.recording ==> shown == RecordingState::Idle
}

proof fn lemma_steps_allowed_concat(p: RecordingState, a: Seq<RecordingState>, b: Seq<RecordingState>)
    ensures
        steps_allowed(p, a + b) == (steps_allowed(p, a) && steps_allowed(shown_after(p, a), b)),
        shown_after(p, a + b) == shown_after(shown_after(p, a), b),
    decreases a.len(),
{
    if a.len() == 0 {
        assert(a + b =~= b);
    } else {
        lemma_steps_allowed_concat(a[0], a.drop_first(), b);
        assert((a + b).drop_first() =~= a.drop_first() + b);
        assert((a + b)[0] == a[0]);
        if a.len() == 1 {
            assert(a.drop_first() =~= Seq::<RecordingState>::empty());
        } else {
            assert(a.drop_first().last() == a.last());
        }
        if b.len() > 0 {
            assert((a + b).last() == b.last());
        } else {
            assert(a + b =~= a);
        }
    }
}

proof fn lemma_emitted_one(x: EffectView)
    ensures
        emitted_states(seq![x]) == match x {
            EffectView::EmitState(st) => seq![st],
            _ => Seq::<RecordingState>::empty(),
        },
{
    reveal_with_fuel(emitted_states, 2);
    assert(seq![x].drop_last() =~= Seq::<EffectView>::empty());
    assert(emitted_states(Seq::<EffectView>::empty()) =~= Seq::<RecordingState>::empty());
    match x {
        EffectView::EmitState(st) => {
            assert(Seq::<RecordingState>::empty() + seq![st] =~= seq![st]);
        },
        _ => {
            assert(Seq::<RecordingState>::empty() + Seq::<RecordingState>::empty()
                =~= Seq::<RecordingState>::empty());
        },
    }
}

proof fn lemma_emitted_two(x: EffectView, y: EffectView)
    ensures
        emitted_states(seq![x, y]) == emitted_states(seq![x]) + emitted_states(seq![y]),
{
    assert(seq![x, y] =~= seq![x] + seq![y]);
    lemma_emitted_states_concat(seq![x], seq![y]);
}

proof fn lemma_emitted_three(x: EffectView, y: EffectView, z: EffectView)
    ensures
        emitted_states(seq![x, y, z]) == emitted_states(seq![x]) + emitted_states(seq![y])
            + emitted_states(seq![z]),
{
    assert(seq![x, y, z] =~= seq![x, y] + seq![z]);
    lemma_emitted_states_concat(seq![x, y], seq![z]);
    lemma_emitted_two(x, y);
}

/// The recording states one input tells the UI.
pub open spec fn input_states(m: EngineModel, i: EngineInput) -> Seq<RecordingState> {
    match i {
        EngineInput::Event(EngineEvent::Command(EngineCommand::SetLocked(locked))) => if m.recording {
            seq![
                if locked {
                    RecordingState::Locked
                } else {
                    RecordingState::Recording
                },
            ]
        } else {
            seq![]
        },
        EngineInput::Event(EngineEvent::Command(EngineCommand::Stop)) => if m.recording {
            seq![RecordingState::Finalizing, RecordingState::Idle]
        } else {
            seq![]
        },
        EngineInput::Event(EngineEvent::Command(EngineCommand::Cancel)) => seq![RecordingState::Idle],
        EngineInput::CaptureResult(Ok(_)) => seq![RecordingState::Recording],
        _ => seq![],
    }
}

proof fn lemma_input_states(m: EngineModel, i: EngineInput)
    requires
        m.wf(),
    ensures
        emitted_states(input_effects(m, i)) == input_states(m, i),
{
    reveal_with_fuel(emitted_states, 2);
    let fx = input_effects(m, i);
    match i {
        EngineInput::Event(ev) => match ev {
            EngineEvent::Command(cmd) => match cmd {
                EngineCommand::Start => {
                    lemma_emitted_two(fx[0], fx[1]);
                    lemma_emitted_one(fx[0]);
                    lemma_emitted_one(fx[1]);
                    assert(fx =~= seq![fx[0], fx[1]]);
                    assert(emitted_states(fx) =~= input_states(m, i));
                },
                EngineCommand::SetLocked(_) => {
                    if m.recording {
                        assert(fx =~= seq![fx[0]]);
                        lemma_emitted_one(fx[0]);
                    } else {
                        assert(fx =~= Seq::<EffectView>::empty());
                    }
                },
                EngineCommand::Stop => {
                    if m.recording {
                        lemma_stop_returns_to_idle(m);
                    } else {
                        assert(fx =~= Seq::<EffectView>::empty());
                    }
                },
                EngineCommand::Cancel => {
                    assert(fx =~= seq![fx[0], fx[1], fx[2]]);
                    lemma_emitted_three(fx[0], fx[1], fx[2]);
                    lemma_emitted_one(fx[0]);
                    lemma_emitted_one(fx[1]);
                    lemma_emitted_one(fx[2]);
                    assert(emitted_states(fx) =~= input_states(m, i));
                },
                EngineCommand::LoadModel(_) => {
                    assert(fx =~= seq![fx[0], fx[1]]);
                    lemma_emitted_two(fx[0], fx[1]);
                    lemma_emitted_one(fx[0]);
                    lemma_emitted_one(fx[1]);
                    assert(emitted_states(fx) =~= input_states(m, i));
                },
                EngineCommand::TranscribeFile(_, _) => {
                    assert(fx =~= seq![fx[0]]);
                    lemma_emitted_one(fx[0]);
                },
            },
            EngineEvent::Timeout => {
                if m.recording {
                    assert(fx =~= seq![fx[0]]);
                    lemma_emitted_one(fx[0]);
                } else {
                    assert(fx =~= Seq::<EffectView>::empty());
                }
            },
            EngineEvent::Disconnected => {
                assert(fx =~= seq![fx[0]]);
                lemma_emitted_one(fx[0]);
            },
        },
        EngineInput::CaptureResult(r) => match r {
            Ok(_) => {
                assert(fx =~= seq![fx[0], fx[1]]);
                lemma_emitted_two(fx[0], fx[1]);
                lemma_emitted_one(fx[0]);
                lemma_emitted_one(fx[1]);
                assert(emitted_states(fx) =~= input_states(m, i));
            },
            Err(_) => {
                assert(fx =~= seq![fx[0]]);
                lemma_emitted_one(fx[0]);
            },
        },
        EngineInput::ModelResult(_) => {
            assert(fx =~= seq![fx[0]]);
            lemma_emitted_one(fx[0]);
        },
    }
}

proof fn lemma_input_follows_machine(m: EngineModel, shown: RecordingState, i: EngineInput)
    requires
        shown_matches(m, shown),
    ensures
        steps_allowed(shown, emitted_states(input_effects(m, i))),
        shown_matches(input_state(m, i), shown_after(shown, emitted_states(input_effects(m, i)))),
{
    lemma_input_states(m, i);
    let s = input_states(m, i);
    reveal_with_fuel(steps_allowed, 3);
    if s.len() == 2 {
        assert(s.drop_first() =~= seq![s[1]]);
        assert(s.drop_first().drop_first() =~= Seq::<RecordingState>::empty());
    } else if s.len() == 1 {
        assert(s.drop_first() =~= Seq::<RecordingState>::empty());
    }
}

/// Over any run of inputs from an idle engine, the UI's recording state only
/// takes the documented steps: Idle → Recording → (Recording ↔ Locked)* →
/// Finalizing → Idle, or back to Idle on cancel, a state possibly repeating.
/// Finalizing comes only after Recording or Locked. And what the UI last shows
/// agrees with the engine: Recording or Locked exactly while a recording runs.
pub proof fn lemma_recording_states_follow_machine(m: EngineModel, ins: Seq<EngineInput>)
    requires
        m.wf(),
        !m.recording,
    ensures
        steps_allowed(RecordingState::Idle, emitted_states(run_effects(m, ins))),
        shown_matches(
            run_state(m, ins),
            shown_after(RecordingState::Idle, emitted_states(run_effects(m, ins))),
        ),
    decreases ins.len(),
{
    if ins.len() == 0 {
        assert(emitted_states(run_effects(m, ins)) =~= Seq::<RecordingState>::empty());
    } else {
        let prev = ins.drop_last();
        lemma_recording_states_follow_machine(m, prev);
        let a = emitted_states(run_effects(m, prev));
        let mp = run_state(m, prev);
        let fx = input_effects(mp, ins.last());
        lemma_emitted_states_concat(run_effects(m, prev), fx);
        lemma_input_follows_machine(mp, shown_after(RecordingState::Idle, a), ins.last());
        lemma_steps_allowed_concat(RecordingState::Idle, a, emitted_states(fx));
    }
}


/// A file request carries whether a model is loaded: after a model load that
/// failed the job is told there is none, after one that succeeded that there
/// is one; path and cancel flag are passed on unchanged.
pub proof fn lemma_file_request_carries_model_state(
    m: EngineModel,
    failure: Option<Seq<char>>,
    path: PathBuf,
    cancel: Arc<AtomicBool>,
)
    requires
        m.wf(),
    ensures
        ({
            let e = EngineEvent::Command(EngineCommand::TranscribeFile(path, cancel));
            let m1 = model_state(m, failure);
            &&& event_effects(m, e) == seq![
                EffectView::TranscribeFile { path, cancel, model_loaded: m.model_loaded },
            ]
            &&& event_effects(m1, e) == seq![
                EffectView::TranscribeFile { path, cancel, model_loaded: failure is None },
            ]
            &&& next_state(m, e) == m
        }),
{
}

/// The model state that the final pass and the tick are given is whether the
/// last model load succeeded.
pub proof fn lemma_passes_carry_model_state(m: EngineModel, failure: Option<Seq<char>>)
    requires
        m.wf(),
        m.recording,
    ensures
        ({
            let m1 = model_state(m, failure);
            &&& event_effects(m1, EngineEvent::Timeout) == seq![
                EffectView::Tick { rate: m.capture_rate->0, model_loaded: failure is None },
            ]
            &&& event_effects(m1, EngineEvent::Command(EngineCommand::Stop))[2]
                == EffectView::Finalize { rate: m.capture_rate->0, model_loaded: failure is None }
        }),
{
}


/// Start changes nothing by itself: it asks for the buffer to be emptied and
/// the microphone opened. Only an opened microphone starts the recording, at
/// its rate, and tells the UI Recording; a failure is reported with its message
/// and changes nothing.
pub proof fn lemma_start_needs_microphone(m: EngineModel, rate: u32, err: Seq<char>)
    requires
        m.wf(),
    ensures
        next_state(m, EngineEvent::Command(EngineCommand::Start)) == m,
        event_effects(m, EngineEvent::Command(EngineCommand::Start)) == seq![
            EffectView::ClearBuffer,
            EffectView::StartCapture,
        ],
        capture_state(m, Ok(rate)).recording,
        capture_state(m, Ok(rate)).capture_rate == Some(rate),
        capture_state(m, Ok(rate)).model_loaded == m.model_loaded,
        capture_effects(Ok(rate)).contains(EffectView::EmitState(RecordingState::Recording)),
        capture_state(m, Err(err)) == m,
        capture_effects(Err(err)) == seq![EffectView::EmitError("microphone: "@ + err)],
{
    assert(capture_effects(Ok(rate))[1] == EffectView::EmitState(RecordingState::Recording));
}

} // verus!
