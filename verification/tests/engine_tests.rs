use std::path::PathBuf;
use std::sync::atomic::AtomicBool;
use std::sync::Arc;
use whisper_dictate::engine::{
    model_status, Effect, EngineCommand, EngineEvent, EngineState, ModelStatusValue,
    RecordingState,
};
use whisper_dictate::model::ModelId;

fn states(effects: &[Effect]) -> Vec<RecordingState> {
    effects
        .iter()
        .filter_map(|e| match e {
            Effect::EmitState(s) => Some(*s),
            _ => None,
        })
        .collect()
}

fn loaded_engine() -> EngineState {
    let (mut engine, first) = EngineState::new(ModelId::LargeV3Turbo);
    assert!(matches!(first.as_slice(), [Effect::LoadModel(ModelId::LargeV3Turbo)]));
    let fx = engine.on_model_result(Ok(true));
    match fx.as_slice() {
        [Effect::PublishStatus(s)] => {
            assert_eq!(s.model, Some(ModelId::LargeV3Turbo));
            assert!(s.loaded);
            assert_eq!(s.error, None);
        }
        other => panic!("unexpected effects {other:?}"),
    }
    engine
}

#[test]
fn new_engine_is_idle() {
    let (engine, _) = EngineState::new(ModelId::LargeV3);
    assert!(!engine.is_recording());
    assert!(!engine.model_loaded());
    assert_eq!(engine.current_model(), ModelId::LargeV3);
    assert_eq!(engine.rate(), 16_000);
    assert_eq!(engine.poll_timeout_ms(), 3_600_000);
}

#[test]
fn dictation_cycle_reports_states_in_order() {
    let mut engine = loaded_engine();
    let mut all = Vec::new();
    let fx = engine.handle(EngineEvent::Command(EngineCommand::Start));
    assert!(matches!(fx.as_slice(), [Effect::ClearBuffer, Effect::StartCapture]));
    all.extend(fx);
    let fx = engine.on_capture_result(Ok(48_000));
    assert!(matches!(fx.as_slice(), [Effect::ResetInterimTimer, Effect::EmitState(RecordingState::Recording)]));
    all.extend(fx);
    assert!(engine.is_recording());
    assert_eq!(engine.poll_timeout_ms(), 200);
    all.extend(engine.handle(EngineEvent::Command(EngineCommand::SetLocked(true))));
    let fx = engine.handle(EngineEvent::Command(EngineCommand::Stop));
    assert!(matches!(
        fx.as_slice(),
        [
            Effect::StopCapture,
            Effect::EmitState(RecordingState::Finalizing),
            Effect::Finalize { rate: 48_000, model_loaded: true },
            Effect::ClearBuffer,
            Effect::EmitState(RecordingState::Idle),
        ]
    ));
    all.extend(fx);
    assert_eq!(
        states(&all),
        vec![
            RecordingState::Recording,
            RecordingState::Locked,
            RecordingState::Finalizing,
            RecordingState::Idle
        ]
    );
    assert!(!engine.is_recording());
}

#[test]
fn stop_without_recording_does_nothing() {
    let (mut engine, _) = EngineState::new(ModelId::LargeV3);
    assert!(engine.handle(EngineEvent::Command(EngineCommand::Stop)).is_empty());
    assert!(!engine.is_recording());
}

#[test]
fn second_stop_reports_nothing() {
    let mut engine = loaded_engine();
    engine.handle(EngineEvent::Command(EngineCommand::Start));
    engine.on_capture_result(Ok(16_000));
    let fx = engine.handle(EngineEvent::Command(EngineCommand::Stop));
    assert_eq!(states(&fx), vec![RecordingState::Finalizing, RecordingState::Idle]);
    assert!(engine.handle(EngineEvent::Command(EngineCommand::Stop)).is_empty());
}

#[test]
fn stop_after_failed_start_reports_nothing() {
    let mut engine = loaded_engine();
    engine.handle(EngineEvent::Command(EngineCommand::Start));
    engine.on_capture_result(Err("busy".to_string()));
    assert!(engine.handle(EngineEvent::Command(EngineCommand::Stop)).is_empty());
}

#[test]
fn cancel_discards_recording() {
    let mut engine = loaded_engine();
    engine.handle(EngineEvent::Command(EngineCommand::Start));
    engine.on_capture_result(Ok(44_100));
    let fx = engine.handle(EngineEvent::Command(EngineCommand::Cancel));
    assert!(matches!(
        fx.as_slice(),
        [Effect::StopCapture, Effect::ClearBuffer, Effect::EmitState(RecordingState::Idle)]
    ));
    assert!(!engine.is_recording());
}

#[test]
fn lock_is_ignored_while_idle() {
    let mut engine = loaded_engine();
    assert!(engine.handle(EngineEvent::Command(EngineCommand::SetLocked(true))).is_empty());
    engine.handle(EngineEvent::Command(EngineCommand::Start));
    engine.on_capture_result(Ok(16_000));
    let fx = engine.handle(EngineEvent::Command(EngineCommand::SetLocked(false)));
    assert!(matches!(fx.as_slice(), [Effect::EmitState(RecordingState::Recording)]));
}

#[test]
fn microphone_failure_is_reported() {
    let mut engine = loaded_engine();
    engine.handle(EngineEvent::Command(EngineCommand::Start));
    let fx = engine.on_capture_result(Err("no default input device found".to_string()));
    match fx.as_slice() {
        [Effect::EmitError(m)] => assert_eq!(m, "microphone: no default input device found"),
        other => panic!("unexpected effects {other:?}"),
    }
    assert!(!engine.is_recording());
    assert!(engine.handle(EngineEvent::Timeout).is_empty());
}

#[test]
fn timeout_ticks_while_recording() {
    let mut engine = loaded_engine();
    assert!(engine.handle(EngineEvent::Timeout).is_empty());
    engine.handle(EngineEvent::Command(EngineCommand::Start));
    engine.on_capture_result(Ok(44_100));
    let fx = engine.handle(EngineEvent::Timeout);
    assert!(matches!(fx.as_slice(), [Effect::Tick { rate: 44_100, model_loaded: true }]));
}

#[test]
fn model_switch_publishes_loading_then_result() {
    let mut engine = loaded_engine();
    let fx = engine.handle(EngineEvent::Command(EngineCommand::LoadModel(ModelId::LargeV3)));
    match fx.as_slice() {
        [Effect::PublishStatus(s), Effect::LoadModel(ModelId::LargeV3)] => {
            assert_eq!(s.model, Some(ModelId::LargeV3));
            assert!(!s.loaded);
            assert_eq!(s.error.as_deref(), Some("loading"));
        }
        other => panic!("unexpected effects {other:?}"),
    }
    assert_eq!(engine.current_model(), ModelId::LargeV3);
    let fx = engine.on_model_result(Err("failed to load model".to_string()));
    match fx.as_slice() {
        [Effect::PublishStatus(s)] => {
            assert_eq!(s.model, Some(ModelId::LargeV3));
            assert!(!s.loaded);
            assert_eq!(s.error.as_deref(), Some("failed to load model"));
        }
        other => panic!("unexpected effects {other:?}"),
    }
    assert!(!engine.model_loaded());
}

#[test]
fn file_request_carries_path_and_flag() {
    let mut engine = loaded_engine();
    let flag = Arc::new(AtomicBool::new(false));
    let fx = engine.handle(EngineEvent::Command(EngineCommand::TranscribeFile(
        PathBuf::from("/tmp/a.mp3"),
        flag.clone(),
    )));
    match fx.as_slice() {
        [Effect::TranscribeFile { path, cancel, model_loaded: true }] => {
            assert_eq!(path, &PathBuf::from("/tmp/a.mp3"));
            assert!(Arc::ptr_eq(cancel, &flag));
        }
        other => panic!("unexpected effects {other:?}"),
    }
}

#[test]
fn disconnect_exits() {
    let mut engine = loaded_engine();
    assert!(matches!(engine.handle(EngineEvent::Disconnected).as_slice(), [Effect::Exit]));
}

#[test]
fn status_values() {
    let d = ModelStatusValue::default();
    assert_eq!(d.model, None);
    assert!(!d.loaded);
    let s = model_status(ModelId::LargeV3, true, None);
    assert_eq!(s.model, Some(ModelId::LargeV3));
    assert!(s.loaded);
}
