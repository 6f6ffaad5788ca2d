use whisper_dictate::file_job::{FileJob, FileNotice, FileStage};
use whisper_dictate::recording::{
    final_resampled, final_start, final_transcribed, interim_text, long_enough, plan_tick,
    FinalReport, FinalStep, TickPlan,
};
use whisper_dictate::transcription::{collect_segments, WindowedTranscript};

fn run_windows(total: usize, text: impl Fn(usize) -> String) -> (Vec<(usize, usize)>, String) {
    let mut t = WindowedTranscript::new(total);
    let mut windows = Vec::new();
    while t.has_more() {
        match t.next_window() {
            None => break,
            Some((s, e)) => {
                windows.push((s, e));
                t.add_text(text(windows.len()));
            }
        }
    }
    (windows, t.finish())
}

#[test]
fn long_recording_is_cut_in_thirty_second_windows() {
    let (w, text) = run_windows(1_000_000, |k| format!("part{k}"));
    assert_eq!(w, vec![(0, 480_000), (480_000, 960_000), (960_000, 1_000_000)]);
    assert_eq!(text, "part1 part2 part3");
}

#[test]
fn short_tail_is_dropped() {
    let (w, _) = run_windows(965_000, |_| "x".to_string());
    assert_eq!(w, vec![(0, 480_000), (480_000, 960_000)]);
    let (w, text) = run_windows(7_999, |_| "x".to_string());
    assert!(w.is_empty());
    assert_eq!(text, "");
}

#[test]
fn empty_window_texts_are_skipped() {
    let (_, text) = run_windows(1_500_000, |k| if k == 2 { String::new() } else { format!("t{k}") });
    assert_eq!(text, "t1 t3 t4");
}

#[test]
fn segments_are_joined_and_trimmed() {
    let segs = vec![" Hello".to_string(), " world.".to_string(), "  \n".to_string()];
    assert_eq!(collect_segments(&segs), "Hello world.");
    assert_eq!(collect_segments(&vec![]), "");
    let unicode = vec!["\u{3000}Привет\u{a0}".to_string()];
    assert_eq!(collect_segments(&unicode), "Привет");
}

#[test]
fn tick_level_window_is_a_tenth_of_a_second() {
    assert_eq!(
        plan_tick(48_000, 48_000, 100, true),
        TickPlan { level_start: 43_200, interim_due: false, run_interim: false }
    );
    assert_eq!(plan_tick(100, 48_000, 900, true).level_start, 0);
    assert_eq!(plan_tick(10, 5, 0, true).level_start, 9);
    let p = plan_tick(0, 16_000, 901, false);
    assert!(p.interim_due);
    assert!(!p.run_interim);
    assert!(plan_tick(0, 16_000, 900, true).run_interim);
}

#[test]
fn interim_needs_half_a_second() {
    assert!(!long_enough(7_999));
    assert!(long_enough(8_000));
    assert_eq!(interim_text(Ok("hi".to_string())), Some("hi".to_string()));
    assert_eq!(interim_text(Ok(String::new())), None);
    assert_eq!(interim_text(Err("whisper run failed".to_string())), None);
}

#[test]
fn final_pass_steps() {
    match final_start(false) {
        FinalStep::Report(FinalReport::Error(e)) => assert_eq!(e, "model not loaded"),
        other => panic!("unexpected {other:?}"),
    }
    assert!(matches!(final_start(true), FinalStep::Resample));
    match final_resampled(7_999) {
        FinalStep::Report(FinalReport::Transcript(t)) => assert_eq!(t, ""),
        other => panic!("unexpected {other:?}"),
    }
    assert!(matches!(final_resampled(8_000), FinalStep::Transcribe));
    match final_transcribed(Ok("done".to_string())) {
        FinalStep::Report(FinalReport::Transcript(t)) => assert_eq!(t, "done"),
        other => panic!("unexpected {other:?}"),
    }
    match final_transcribed(Err("bad".to_string())) {
        FinalStep::Report(FinalReport::Error(e)) => assert_eq!(e, "bad"),
        other => panic!("unexpected {other:?}"),
    }
}

fn terminal(n: &FileNotice) -> bool {
    matches!(n, FileNotice::Error(_) | FileNotice::Cancelled | FileNotice::Done)
}

#[test]
fn file_job_success_path() {
    let (mut job, n) = FileJob::start(Some("talk.mp4".to_string()), true);
    assert!(matches!(n.as_slice(), [FileNotice::Started(s)] if s == "talk.mp4"));
    assert!(job.decoded(Ok(500_000), false).is_empty());
    assert_eq!(job.stage, FileStage::LoopCheck { len: 500_000 });
    let (keep, n) = job.loop_checked(Some(320_000));
    assert_eq!(keep, 320_000);
    assert!(matches!(n.as_slice(), [FileNotice::Duration { samples: 320_000 }]));
    let n = job.transcribed(Ok("hello".to_string()), false);
    assert!(matches!(n.as_slice(), [FileNotice::Final(t), FileNotice::Done] if t == "hello"));
    assert_eq!(job.stage, FileStage::Finished);
}

#[test]
fn file_job_without_model_fails_at_once() {
    let (job, n) = FileJob::start(None, false);
    assert!(matches!(n.as_slice(), [FileNotice::Started(s), FileNotice::Error(e)] if s == "file" && e == "model not loaded"));
    assert_eq!(job.stage, FileStage::Finished);
}

#[test]
fn file_job_decode_outcomes() {
    let (mut job, _) = FileJob::start(None, true);
    let n = job.decoded(Ok(0), false);
    assert!(matches!(n.as_slice(), [FileNotice::Error(e)] if e == "failed to extract audio from file"));
    let (mut job, _) = FileJob::start(None, true);
    let n = job.decoded(Ok(0), true);
    assert!(matches!(n.as_slice(), [FileNotice::Cancelled]));
    let (mut job, _) = FileJob::start(None, true);
    let n = job.decoded(Err("file format not recognized or unsupported".to_string()), false);
    assert!(matches!(n.as_slice(), [FileNotice::Error(e)] if e == "file format not recognized or unsupported"));
    assert_eq!(job.stage, FileStage::Finished);
}

#[test]
fn file_job_ends_with_one_terminal_notice() {
    for (result, cancelled) in [
        (Ok(String::new()), false),
        (Ok("x".to_string()), true),
        (Err("cancelled".to_string()), false),
    ] {
        let (mut job, mut all) = FileJob::start(None, true);
        all.extend(job.decoded(Ok(10), false));
        all.extend(job.loop_checked(None).1);
        all.extend(job.transcribed(result, cancelled));
        assert_eq!(all.iter().filter(|n| terminal(n)).count(), 1);
        assert!(terminal(all.last().unwrap()));
    }
}

#[test]
fn loop_point_beyond_end_keeps_everything() {
    let (mut job, _) = FileJob::start(None, true);
    job.decoded(Ok(100), false);
    assert_eq!(job.loop_checked(Some(150)).0, 100);
}
