use whisper_dictate::model::{
    list_models, model_info, resolve_model_source, DownloadError, DownloadTracker, ModelId,
    ModelSource, Progress,
};

#[test]
fn model_catalogue_names() {
    assert_eq!(ModelId::LargeV3Turbo.filename(), "ggml-large-v3-turbo-q5_0.bin");
    assert_eq!(ModelId::LargeV3.filename(), "ggml-large-v3.bin");
    assert_eq!(ModelId::LargeV3Turbo.label(), "Large v3 Turbo (q5_0)");
    assert_eq!(ModelId::LargeV3.label(), "Large v3");
    assert_eq!(ModelId::LargeV3Turbo.approx_size(), "≈ 570 MB");
    assert_eq!(ModelId::LargeV3.approx_size(), "≈ 3.1 GB");
}

#[test]
fn download_url_ends_with_filename() {
    assert_eq!(
        ModelId::LargeV3Turbo.download_url(),
        "https://huggingface.co/ggerganov/whisper.cpp/resolve/main/ggml-large-v3-turbo-q5_0.bin"
    );
    assert_eq!(
        ModelId::LargeV3.download_url(),
        "https://huggingface.co/ggerganov/whisper.cpp/resolve/main/ggml-large-v3.bin"
    );
    assert_ne!(ModelId::LargeV3.download_url(), ModelId::LargeV3Turbo.download_url());
}

#[test]
fn only_turbo_is_recommended() {
    assert!(ModelId::LargeV3Turbo.is_recommended());
    assert!(!ModelId::LargeV3.is_recommended());
    let recommended = ModelId::all().iter().filter(|m| m.is_recommended()).count();
    assert_eq!(recommended, 1);
}

#[test]
fn all_lists_each_model_once() {
    let all = ModelId::all();
    assert_eq!(all, [ModelId::LargeV3Turbo, ModelId::LargeV3]);
    for id in [ModelId::LargeV3Turbo, ModelId::LargeV3] {
        assert_eq!(all.iter().filter(|m| **m == id).count(), 1);
    }
}

#[test]
fn model_info_fields() {
    let info = model_info(ModelId::LargeV3, true);
    assert_eq!(info.id, ModelId::LargeV3);
    assert_eq!(info.label, "Large v3");
    assert!(!info.recommended);
    assert_eq!(info.size, "≈ 3.1 GB");
    assert!(info.available);
}

#[test]
fn list_models_follows_catalogue_order() {
    let list = list_models([false, true]);
    assert_eq!(list.len(), 2);
    assert_eq!(list[0].id, ModelId::LargeV3Turbo);
    assert!(list[0].recommended);
    assert!(!list[0].available);
    assert_eq!(list[0].label, "Large v3 Turbo (q5_0)");
    assert_eq!(list[1].id, ModelId::LargeV3);
    assert!(list[1].available);
}

#[test]
fn user_download_wins_over_bundle() {
    assert_eq!(resolve_model_source(ModelId::LargeV3, true, true), Ok(ModelSource::UserData));
    assert_eq!(resolve_model_source(ModelId::LargeV3, true, false), Ok(ModelSource::UserData));
    assert_eq!(resolve_model_source(ModelId::LargeV3, false, true), Ok(ModelSource::Bundle));
}

#[test]
fn missing_model_names_the_file() {
    let err = resolve_model_source(ModelId::LargeV3Turbo, false, false).unwrap_err();
    assert_eq!(
        err,
        "model file 'ggml-large-v3-turbo-q5_0.bin' not found (checked app data and bundle). \
         Run scripts/fetch-model.sh or download it from the app settings."
    );
}

#[test]
fn progress_reported_every_two_megabytes() {
    let (mut t, first) = DownloadTracker::start(Some(5_000_000));
    assert_eq!(first, Progress { received: 0, total: Some(5_000_000) });
    assert_eq!(t.record(1_000_000), None);
    assert_eq!(t.record(999_999), None);
    assert_eq!(t.record(1), Some(Progress { received: 2_000_000, total: Some(5_000_000) }));
    assert_eq!(t.record(1_999_999), None);
    assert_eq!(t.record(1_000_000), Some(Progress { received: 4_999_999, total: Some(5_000_000) }));
    assert_eq!(t.received_bytes(), 4_999_999);
}

#[test]
fn complete_download_finishes() {
    let (mut t, _) = DownloadTracker::start(Some(10));
    t.record(10);
    assert_eq!(t.finish(), Ok(Progress { received: 10, total: Some(10) }));
}

#[test]
fn download_without_length_never_reports_a_total() {
    let (mut t, first) = DownloadTracker::start(None);
    assert_eq!(first, Progress { received: 0, total: None });
    assert_eq!(t.record(2_000_123), Some(Progress { received: 2_000_123, total: None }));
    assert_eq!(t.finish(), Ok(Progress { received: 2_000_123, total: None }));
}

#[test]
fn short_download_is_incomplete() {
    let (mut t, _) = DownloadTracker::start(Some(3_000_000_000));
    t.record(1_234_567);
    let err = t.finish().unwrap_err();
    assert_eq!(err, DownloadError::Incomplete { received: 1_234_567, expected: 3_000_000_000 });
    assert_eq!(
        err.message(),
        "incomplete download: received 1234567 of 3000000000 bytes (connection interrupted) — please retry"
    );
}

#[test]
fn incomplete_message_renders_zero() {
    let err = DownloadError::Incomplete { received: 0, expected: 7 };
    assert_eq!(
        err.message(),
        "incomplete download: received 0 of 7 bytes (connection interrupted) — please retry"
    );
}
