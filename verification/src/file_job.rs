//! Transcription of an audio or video file, step by step: what the UI is told
//! after the file is decoded, after loop detection and after whisper ran.
//!
//! Every job tells the UI first that it started, and ends with exactly one of
//! an error, a cancellation or "done".

use vstd::prelude::*;
use vstd::string::StringExecFns;

verus! {

/// What the UI is told about a file job.
#[derive(Debug)]
pub enum FileNotice {
    /// The job started on the file with this name.
    Started(String),
    /// The job failed.
    Error(String),
    /// The job was cancelled.
    Cancelled,
    /// Length of the audio that will be transcribed, in 16 kHz samples.
    Duration { samples: usize },
    /// Text for the transcript.
    Final(String),
    /// The job finished.
    Done,
}

pub enum NoticeView {
    Started(Seq<char>),
    Error(Seq<char>),
    Cancelled,
    Duration { samples: usize },
    Final(Seq<char>),
    Done,
}

impl View for FileNotice {
    type V = NoticeView;

    open spec fn view(&self) -> NoticeView {
        match self {
            FileNotice::Started(s) => NoticeView::Started(s@),
            FileNotice::Error(s) => NoticeView::Error(s@),
            FileNotice::Cancelled => NoticeView::Cancelled,
            FileNotice::Duration { samples } => NoticeView::Duration { samples: *samples },
            FileNotice::Final(s) => NoticeView::Final(s@),
            FileNotice::Done => NoticeView::Done,
        }
    }
}

pub open spec fn notices_view(v: Seq<FileNotice>) -> Seq<NoticeView> {
    v.map_values(|n: FileNotice| n@)
}

/// Notices that end a job.
pub open spec fn is_terminal(n: NoticeView) -> bool {
    n is Error || n is Cancelled || n is Done
}

pub open spec fn terminal_count(s: Seq<NoticeView>) -> nat {
    s.filter(|n: NoticeView| is_terminal(n)).len()
}

/// Where a file job stands.
#[derive(Clone, Copy, Debug, PartialEq, Eq)]
pub enum FileStage {
    /// The file is being decoded to 16 kHz mono samples.
    Decoding,
    /// The samples were decoded; loop detection runs on `len` samples.
    LoopCheck { len: usize },
    /// Whisper runs on the samples.
    Transcribing,
    /// The job ended.
    Finished,
}

/// One file transcription job.
#[derive(Debug)]
pub struct FileJob {
    pub stage: FileStage,
}

pub open spec fn started_notices(name: Option<Seq<char>>, model_loaded: bool) -> Seq<NoticeView> {
    let shown = match name {
        Some(n) => n,
        None => "file"@,
    };
    if model_loaded {
        seq![NoticeView::Started(shown)]
    } else {
        seq![NoticeView::Started(shown), NoticeView::Error("model not loaded"@)]
    }
}

pub open spec fn decoded_notices(result: Result<usize, Seq<char>>, cancelled: bool) -> Seq<NoticeView> {
    match result {
        Err(e) => seq![NoticeView::Error(e)],
        Ok(n) => if cancelled {
            seq![NoticeView::Cancelled]
        } else if n == 0 {
            seq![NoticeView::Error("failed to extract audio from file"@)]
        } else {
            seq![]
        },
    }
}

pub open spec fn transcribed_notices(result: Result<Seq<char>, Seq<char>>, cancelled: bool) -> Seq<
    NoticeView,
> {
    if cancelled {
        seq![NoticeView::Cancelled]
    } else {
        match result {
            Ok(t) => if t.len() > 0 {
                seq![NoticeView::Final(t), NoticeView::Done]
            } else {
                seq![NoticeView::Done]
            },
            Err(e) => seq![NoticeView::Error(e)],
        }
    }
}

/// Length of the recording after cutting it at the loop point, if any.
pub open spec fn trimmed_len(len: usize, loop_point: Option<usize>) -> usize {
    match loop_point {
        Some(p) => if p < len {
            p
        } else {
            len
        },
        None => len,
    }
}

pub open spec fn string_result_view<T>(r: Result<T, String>) -> Result<T, Seq<char>> {
    match r {
        Ok(v) => Ok(v),
        Err(e) => Err(e@),
    }
}

pub open spec fn opt_string_view(o: Option<String>) -> Option<Seq<char>> {
    match o {
        Some(s) => Some(s@),
        None => None,
    }
}

pub open spec fn text_result_view(r: Result<String, String>) -> Result<Seq<char>, Seq<char>> {
    match r {
        Ok(t) => Ok(t@),
        Err(e) => Err(e@),
    }
}

proof fn lemma_terminal_count_small(s: Seq<NoticeView>)
    ensures
        s.len() == 0 ==> terminal_count(s) == 0,
        s.len() == 1 ==> terminal_count(s) == (if is_terminal(s[0]) { 1nat } else { 0 }),
        s.len() == 2 ==> terminal_count(s) == (if is_terminal(s[0]) { 1nat } else { 0 }) + (
        if is_terminal(s[1]) {
            1nat
        } else {
            0
        }),
{
    reveal_with_fuel(Seq::filter, 3);
    if s.len() == 2 {
        assert(s.drop_last() =~= seq![s[0]]);
        assert(s.drop_last().drop_last() =~= Seq::<NoticeView>::empty());
    }
    if s.len() == 1 {
        assert(s.drop_last() =~= Seq::<NoticeView>::empty());
    }
}

impl FileJob {
    pub open spec fn finished(&self) -> bool {
        self.stage is Finished
    }

    /// Starts a job on the file called `name` (shown as "file" when it has
    /// no usable name). Without a loaded model the job fails at once.
    pub fn start(name: Option<String>, model_loaded: bool) -> (r: (FileJob, Vec<FileNotice>))
        ensures
            notices_view(r.1@) == started_notices(opt_string_view(name), model_loaded),
            model_loaded ==> r.0.stage is Decoding,
            !model_loaded ==> r.0.finished(),
            terminal_count(notices_view(r.1@)) == (if r.0.finished() { 1nat } else { 0 }),
            r.1@.len() > 0,
            r.0.finished() ==> is_terminal(notices_view(r.1@).last()),
    {
        let ghost nv = opt_string_view(name);
        let shown = match name {
            Some(n) => n,
            None => "file".to_owned(),
        };
        let mut out: Vec<FileNotice> = Vec::new();
        out.push(FileNotice::Started(shown));
        let stage = if model_loaded {
            FileStage::Decoding
        } else {
            out.push(FileNotice::Error("model not loaded".to_owned()));
            FileStage::Finished
        };
        assert(notices_view(out@) =~= started_notices(nv, model_loaded));
        proof {
            lemma_terminal_count_small(notices_view(out@));
        }
        (FileJob { stage }, out)
    }

    /// Reports the decoding: the number of samples, or why the file could not
    /// be decoded; and whether the job was cancelled meanwhile.
    pub fn decoded(&mut self, result: Result<usize, String>, cancelled: bool) -> (r: Vec<FileNotice>)
        requires
            old(self).stage is Decoding,
        ensures
            notices_view(r@) == decoded_notices(string_result_view(result), cancelled),
            result matches Ok(n) ==> (n > 0 && !cancelled ==> final(self).stage == (
            FileStage::LoopCheck { len: n })),
            result matches Ok(n) ==> (n == 0 || cancelled ==> final(self).finished()),
            result is Err ==> final(self).finished(),
            terminal_count(notices_view(r@)) == (if final(self).finished() { 1nat } else { 0 }),
            final(self).finished() ==> r@.len() > 0 && is_terminal(notices_view(r@).last()),
    {
        let ghost rv = string_result_view(result);
        let mut out: Vec<FileNotice> = Vec::new();
        match result {
            Err(e) => {
                out.push(FileNotice::Error(e));
                self.stage = FileStage::Finished;
            },
            Ok(n) => {
                if cancelled {
                    out.push(FileNotice::Cancelled);
                    self.stage = FileStage::Finished;
                } else if n == 0 {
                    out.push(FileNotice::Error("failed to extract audio from file".to_owned()));
                    self.stage = FileStage::Finished;
                } else {
                    self.stage = FileStage::LoopCheck { len: n };
                }
            },
        }
        assert(notices_view(out@) =~= decoded_notices(rv, cancelled));
        proof {
            lemma_terminal_count_small(notices_view(out@));
        }
        out
    }

    /// Reports loop detection: where the looped part starts, if anywhere.
    /// Returns how many samples to keep, and tells the UI that length.
    pub fn loop_checked(&mut self, loop_point: Option<usize>) -> (r: (usize, Vec<FileNotice>))
        requires
            old(self).stage is LoopCheck,
        ensures
            r.0 == trimmed_len(old(self).stage->len, loop_point),
            loop_point is None ==> r.0 == old(self).stage->len,
            loop_point matches Some(p) ==> (p < old(self).stage->len ==> r.0 == p),
            loop_point matches Some(p) ==> (p >= old(self).stage->len ==> r.0 == old(self).stage->len),
            notices_view(r.1@) == seq![NoticeView::Duration { samples: r.0 }],
            final(self).stage is Transcribing,
            terminal_count(notices_view(r.1@)) == 0,
    {
        let len = match self.stage {
            FileStage::LoopCheck { len } => len,
            _ => 0,
        };
        let keep = match loop_point {
            Some(p) => if p < len {
                p
            } else {
                len
            },
            None => len,
        };
        let mut out: Vec<FileNotice> = Vec::new();
        out.push(FileNotice::Duration { samples: keep });
        self.stage = FileStage::Transcribing;
        assert(notices_view(out@) =~= seq![NoticeView::Duration { samples: keep }]);
        proof {
            lemma_terminal_count_small(notices_view(out@));
        }
        (keep, out)
    }

    /// Reports the whisper run: the transcript or why it failed; and whether
    /// the job was cancelled meanwhile. Ends the job.
    pub fn transcribed(&mut self, result: Result<String, String>, cancelled: bool) -> (r: Vec<FileNotice>)
        requires
            old(self).stage is Transcribing,
        ensures
            notices_view(r@) == transcribed_notices(text_result_view(result), cancelled),
            final(self).finished(),
            terminal_count(notices_view(r@)) == 1,
            r@.len() > 0 && is_terminal(notices_view(r@).last()),
    {
        let ghost rv = text_result_view(result);
        let mut out: Vec<FileNotice> = Vec::new();
        if cancelled {
            out.push(FileNotice::Cancelled);
        } else {
            match result {
                Ok(text) => {
                    if !text.as_str().is_empty() {
                        out.push(FileNotice::Final(text));
                    }
                    out.push(FileNotice::Done);
                },
                Err(e) => {
                    out.push(FileNotice::Error(e));
                },
            }
        }
        self.stage = FileStage::Finished;
        assert(notices_view(out@) =~= transcribed_notices(rv, cancelled));
        proof {
            lemma_terminal_count_small(notices_view(out@));
        }
        out
    }
}


/// Cutting at the loop point keeps the recording up to that point: without a
/// loop point everything is kept, with one the kept part is the shorter of the
/// recording and the part before the loop, and nothing is ever added.
pub proof fn lemma_trim_keeps_up_to_loop(len: usize, loop_point: Option<usize>)
    ensures
        trimmed_len(len, None) == len,
        trimmed_len(len, loop_point) <= len,
        loop_point matches Some(p) ==> trimmed_len(len, loop_point) == (if p < len {
            p
        } else {
            len
        }),
        loop_point matches Some(p) ==> trimmed_len(len, loop_point) <= p,
{
}

/// The job tells the UI the name of the file it works on, or "file" when the
/// file has no usable name; without a model it fails with "model not loaded"
/// right after that, and with one it tells nothing else yet.
pub proof fn lemma_start_names_the_file(name: Option<Seq<char>>, model_loaded: bool)
    ensures
        started_notices(name, model_loaded)[0] == NoticeView::Started(
            match name {
                Some(n) => n,
                None => "file"@,
            },
        ),
        model_loaded ==> started_notices(name, model_loaded).len() == 1,
        !model_loaded ==> started_notices(name, model_loaded).len() == 2
            && started_notices(name, model_loaded)[1] == NoticeView::Error("model not loaded"@),
{
}

/// After decoding: a decode error is passed on as it is; a cancellation is
/// reported as such; an empty result is an error; audio that was decoded and
/// not cancelled lets the job go on without a notice.
pub proof fn lemma_decoded_outcomes(result: Result<usize, Seq<char>>, cancelled: bool)
    ensures
        result matches Err(e) ==> decoded_notices(result, cancelled) == seq![NoticeView::Error(e)],
        result is Ok && cancelled ==> decoded_notices(result, cancelled) == seq![
            NoticeView::Cancelled,
        ],
        result matches Ok(n) ==> (n > 0 && !cancelled ==> decoded_notices(result, cancelled).len()
            == 0),
        result matches Ok(n) ==> (n == 0 && !cancelled ==> decoded_notices(result, cancelled)
            == seq![NoticeView::Error("failed to extract audio from file"@)]),
{
}

/// After whisper ran: a cancellation wins over any result; otherwise a
/// non-empty transcript goes to the UI before "done", an empty one is not
/// sent, and a failure is passed on as it is.
pub proof fn lemma_transcribed_outcomes(result: Result<Seq<char>, Seq<char>>, cancelled: bool)
    ensures
        cancelled ==> transcribed_notices(result, cancelled) == seq![NoticeView::Cancelled],
        result matches Ok(t) ==> (!cancelled && t.len() > 0 ==> transcribed_notices(result, cancelled)
            == seq![NoticeView::Final(t), NoticeView::Done]),
        result matches Ok(t) ==> (!cancelled && t.len() == 0 ==> transcribed_notices(
            result,
            cancelled,
        ) == seq![NoticeView::Done]),
        result matches Err(e) ==> (!cancelled ==> transcribed_notices(result, cancelled) == seq![
            NoticeView::Error(e),
        ]),
{
}

} // verus!
