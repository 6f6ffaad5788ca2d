use std::sync::atomic::Ordering;
use whisper_dictate::audio::{
    capture_supported, device_line, device_list_error, finish_device_list, SampleKind,
};
use whisper_dictate::decode::{
    on_decode_failure, on_read_failure, plan_decode, pre_skip_drop, DecodeFailure, OpusPlan,
    PacketFlow, ReadFailure, TrackParams,
};
use whisper_dictate::diag::{codesign_summary, is_translocated, os_version_summary, quarantine_summary};
use whisper_dictate::flags::{DownloadFlags, FileCancel};
use whisper_dictate::loop_scan::loop_scan_positions;
use whisper_dictate::mic::{ensure_mic_authorized, mic_access_for_status, MicAccess};
use whisper_dictate::model::ModelId;
use whisper_dictate::text::{split_lines, trim_text};

#[test]
fn second_download_of_a_model_is_refused() {
    let mut flags = DownloadFlags::default();
    let first = flags.begin(ModelId::LargeV3).expect("first download starts");
    assert!(flags.begin(ModelId::LargeV3).is_none());
    assert!(flags.contains(ModelId::LargeV3));
    assert!(!flags.contains(ModelId::LargeV3Turbo));
    assert!(flags.begin(ModelId::LargeV3Turbo).is_some());
    assert!(flags.cancel(ModelId::LargeV3));
    assert!(first.load(Ordering::Relaxed));
    flags.finish(ModelId::LargeV3);
    assert!(!flags.contains(ModelId::LargeV3));
    assert!(!flags.cancel(ModelId::LargeV3));
    let again = flags.begin(ModelId::LargeV3).expect("a new download may start");
    assert!(!again.load(Ordering::Relaxed));
}

#[test]
fn file_cancel_starts_lowered() {
    let c = FileCancel::default();
    assert!(!c.0.load(Ordering::Relaxed));
}

#[test]
fn mic_status_decisions() {
    assert_eq!(mic_access_for_status(3), MicAccess::Granted);
    assert_eq!(mic_access_for_status(1), MicAccess::Denied);
    assert_eq!(mic_access_for_status(2), MicAccess::Denied);
    assert_eq!(mic_access_for_status(0), MicAccess::Ask);
    assert_eq!(mic_access_for_status(7), MicAccess::Granted);
}

#[test]
fn mic_asks_only_when_undetermined() {
    let denied = "microphone access denied — open System Settings → Privacy & Security → Microphone";
    assert_eq!(ensure_mic_authorized(3, || panic!("must not ask")), Ok(()));
    assert_eq!(ensure_mic_authorized(2, || panic!("must not ask")), Err(denied.to_string()));
    assert_eq!(ensure_mic_authorized(0, || true), Ok(()));
    assert_eq!(ensure_mic_authorized(0, || false), Err(denied.to_string()));
}

#[test]
fn decode_plans() {
    let p = plan_decode(&TrackParams { is_opus: false, sample_rate: None, channels: Some(0), delay: None });
    assert_eq!(p.src_rate, 16_000);
    assert_eq!(p.channel_count, 1);
    assert_eq!(p.opus, None);
    let p = plan_decode(&TrackParams { is_opus: true, sample_rate: Some(48_000), channels: Some(6), delay: Some(312) });
    assert_eq!(p.src_rate, 48_000);
    assert_eq!(p.channel_count, 6);
    assert_eq!(p.opus, Some(OpusPlan { channels: 2, pre_skip: 312, buffer_len: 11_520 }));
    let p = plan_decode(&TrackParams { is_opus: true, sample_rate: None, channels: None, delay: None });
    assert_eq!(p.opus, Some(OpusPlan { channels: 1, pre_skip: 0, buffer_len: 5_760 }));
}

#[test]
fn packet_failures() {
    assert!(matches!(on_read_failure(ReadFailure::EndOfStream), PacketFlow::Stop));
    assert!(matches!(on_read_failure(ReadFailure::ResetRequired), PacketFlow::Stop));
    assert!(matches!(on_read_failure(ReadFailure::Other("bad".into())), PacketFlow::Fail(m) if m == "stream read error: bad"));
    assert!(matches!(on_decode_failure(DecodeFailure::Malformed), PacketFlow::Continue));
    assert!(matches!(on_decode_failure(DecodeFailure::Io), PacketFlow::Stop));
    assert!(matches!(on_decode_failure(DecodeFailure::Other("x".into())), PacketFlow::Fail(m) if m == "decode error: x"));
    assert_eq!(pre_skip_drop(312, 10_000), 312);
    assert_eq!(pre_skip_drop(312, 100), 100);
}

#[test]
fn loop_scan_positions_follow_quarter_seconds() {
    assert!(loop_scan_positions(239_999).is_empty());
    assert_eq!(loop_scan_positions(240_000), vec![160_000]);
    assert_eq!(loop_scan_positions(243_999), vec![160_000]);
    assert_eq!(loop_scan_positions(248_000), vec![160_000, 164_000, 168_000]);
    let p = loop_scan_positions(1_000_000);
    assert_eq!(p.len(), 191);
    assert_eq!(*p.last().unwrap() + 80_000, 1_000_000);
}

#[test]
fn codesign_summaries() {
    let report = "Executable=/Applications/X.app/Contents/MacOS/x\r\nSignature=adhoc\nAuthority=Developer ID Application: V  \nAuthority=Apple Root CA\n";
    assert_eq!(codesign_summary(report, true), "Authority=Developer ID Application: V");
    assert_eq!(codesign_summary("Identifier=x\nSignature=adhoc\n", true), "Signature=adhoc");
    assert_eq!(codesign_summary("Identifier=x\n", true), "signed (no authority line)");
    assert_eq!(codesign_summary("x: code object is not signed at all\n", false), "unsigned or not a bundle");
    assert_eq!(codesign_summary("", false), "unsigned or not a bundle");
}

#[test]
fn quarantine_and_version_summaries() {
    assert_eq!(quarantine_summary(true, "0083;65a1;Safari;\n"), "present (0083;65a1;Safari;)");
    assert_eq!(quarantine_summary(false, "whatever"), "absent");
    assert_eq!(os_version_summary(Some("14.5\n")), "14.5");
    assert_eq!(os_version_summary(Some("  \n")), "unknown");
    assert_eq!(os_version_summary(None), "unknown");
}

#[test]
fn translocation_is_detected() {
    assert!(is_translocated("/private/var/folders/x/AppTranslocation/ABC/d/W.app/Contents/MacOS/w"));
    assert!(!is_translocated("/Applications/W.app/Contents/MacOS/w"));
    assert!(!is_translocated(""));
}

#[test]
fn lines_match_str_lines() {
    for s in ["", "a", "a\n", "a\r\nb", "a\rb\n\nc\r", "\n\n", "x\r\n\r\n"] {
        let ours = split_lines(s);
        let std: Vec<String> = s.lines().map(|l| l.to_string()).collect();
        assert_eq!(ours, std, "input {s:?}");
    }
}

#[test]
fn trim_matches_str_trim() {
    for s in ["", "  ", " a ", "\t\nab c\r\n", "\u{2003}x\u{205f}", "\u{200b}x"] {
        assert_eq!(trim_text(s), s.trim(), "input {s:?}");
    }
}

#[test]
fn device_list_lines() {
    assert_eq!(
        device_line(Some("MacBook Mic".into()), "MacBook Mic", Ok("48000 Hz".into())),
        "MacBook Mic [default] — 48000 Hz"
    );
    assert_eq!(device_line(None, "MacBook Mic", Err("busy".into())), "<unknown> — config error: busy");
    assert_eq!(device_list_error("no host"), "input_devices() error: no host");
    let mut v = Vec::new();
    finish_device_list(&mut v);
    assert_eq!(v, vec!["<no input devices>".to_string()]);
    let mut v = vec!["a".to_string()];
    finish_device_list(&mut v);
    assert_eq!(v, vec!["a".to_string()]);
    assert!(capture_supported(SampleKind::I16));
    assert!(!capture_supported(SampleKind::Unsupported));
}
