//! How a transcription is put together from whisper's output: the segments of
//! one run, and the 30-second windows that a long recording is cut into.

use vstd::prelude::*;
use crate::text::{concat_all, concat_texts, join_spaced, join_with_spaces, strings_view, trim, trim_text};

verus! {

/// One whisper run covers at most 30 s of 16 kHz audio.
pub const FILE_WINDOW: usize = 480_000;

/// A window shorter than half a second is not worth a whisper run.
pub const MIN_CHUNK: usize = 8_000;

/// The text of one whisper run: its segments one after another, trimmed.
pub fn collect_segments(segments: &Vec<String>) -> (r: String)
    ensures
        r@ == trim(concat_all(strings_view(segments@))),
{
    let all = concat_texts(segments);
    trim_text(all.as_str())
}

pub open spec fn non_empty(texts: Seq<Seq<char>>) -> Seq<Seq<char>> {
    texts.filter(|t: Seq<char>| t.len() > 0)
}

pub open spec fn min(a: int, b: int) -> int {
    if a <= b {
        a
    } else {
        b
    }
}

/// Transcription of a long recording in consecutive 30-second windows. The
/// caller asks for the next window, runs whisper on it and hands the text back;
/// the texts that are not empty make up the transcript, separated by spaces.
pub struct WindowedTranscript {
    start: usize,
    total: usize,
    parts: Vec<String>,
    texts: Ghost<Seq<Seq<char>>>,
}

impl WindowedTranscript {
    /// Where the next window starts.
    pub closed spec fn start(&self) -> nat {
        self.start as nat
    }

    /// Number of samples in the recording.
    pub closed spec fn total(&self) -> nat {
        self.total as nat
    }

    /// The texts handed back so far, one per window, empty ones included.
    pub closed spec fn texts(&self) -> Seq<Seq<char>> {
        self.texts@
    }

    pub closed spec fn wf(&self) -> bool {
        &&& self.start as int == FILE_WINDOW as int * self.texts@.len()
        &&& strings_view(self.parts@) == non_empty(self.texts@)
        &&& self.total + FILE_WINDOW <= usize::MAX
    }

    /// Starts on a recording of `total` samples.
    pub fn new(total: usize) -> (r: WindowedTranscript)
        requires
            total + FILE_WINDOW <= usize::MAX,
        ensures
            r.wf(),
            r.start() == 0,
            r.total() == total,
            r.texts() == Seq::<Seq<char>>::empty(),
    {
        let r = WindowedTranscript {
            start: 0,
            total,
            parts: Vec::new(),
            texts: Ghost(Seq::empty()),
        };
        assert(strings_view(r.parts@) =~= non_empty(r.texts@));
        r
    }

    /// Whether audio is left after the windows done so far.
    pub fn has_more(&self) -> (r: bool)
        requires
            self.wf(),
        ensures
            r == (self.start() < self.total()),
    {
        self.start < self.total
    }

    /// The next window `(start, end)`, or `None` when what is left is shorter
    /// than [`MIN_CHUNK`] and the transcription ends.
    pub fn next_window(&self) -> (r: Option<(usize, usize)>)
        requires
            self.wf(),
            self.start() < self.total(),
        ensures
            ({
                let end = min(self.start() + FILE_WINDOW, self.total() as int);
                &&& end - self.start() < MIN_CHUNK ==> r is None
                &&& end - self.start() >= MIN_CHUNK ==> r == Some(
                    (self.start() as usize, end as usize),
                )
            }),
    {
        let end = if self.start + FILE_WINDOW <= self.total {
            self.start + FILE_WINDOW
        } else {
            self.total
        };
        if end - self.start < MIN_CHUNK {
            None
        } else {
            Some((self.start, end))
        }
    }

    /// Hands back the text of the current window and moves on to the next one.
    pub fn add_text(&mut self, text: String)
        requires
            old(self).wf(),
            old(self).start() < old(self).total(),
        ensures
            final(self).wf(),
            final(self).total() == old(self).total(),
            final(self).texts() == old(self).texts().push(text@),
            final(self).start() == old(self).start() + FILE_WINDOW,
    {
        let ghost old_texts = self.texts@;
        let ghost new_texts = old_texts.push(text@);
        proof {
            assert(new_texts.drop_last() =~= old_texts);
            old_texts.lemma_filter_push(text@, |t: Seq<char>| t.len() > 0);
        }
        if !text.as_str().is_empty() {
            self.parts.push(text);
        }
        self.start = self.start + FILE_WINDOW;
        self.texts = Ghost(new_texts);
        assert(strings_view(self.parts@) =~= non_empty(self.texts@));
    }

    /// The transcript: the non-empty texts joined by single spaces.
    pub fn finish(self) -> (r: String)
        requires
            self.wf(),
        ensures
            r@ == join_spaced(non_empty(self.texts())),
    {
        join_with_spaces(&self.parts)
    }
}


/// The kept texts are exactly the non-empty window texts, in order and all of
/// them: one more text is kept if and only if it is not empty.
pub proof fn lemma_non_empty_parts(texts: Seq<Seq<char>>, t: Seq<char>)
    ensures
        non_empty(Seq::<Seq<char>>::empty()) == Seq::<Seq<char>>::empty(),
        t.len() > 0 ==> non_empty(texts.push(t)) == non_empty(texts).push(t),
        t.len() == 0 ==> non_empty(texts.push(t)) == non_empty(texts),
        non_empty(texts).len() <= texts.len(),
        forall|i: int| 0 <= i < non_empty(texts).len() ==> (#[trigger] non_empty(texts)[i]).len()
            > 0,
{
    texts.lemma_filter_push(t, |x: Seq<char>| x.len() > 0);
    assert(Seq::<Seq<char>>::empty().filter(|x: Seq<char>| x.len() > 0) =~= Seq::<
        Seq<char>,
    >::empty()) by {
        reveal_with_fuel(Seq::filter, 1);
    }
    texts.filter_lemma(|x: Seq<char>| x.len() > 0);
}

/// Windows handed back one by one: after the texts of all windows, the
/// transcript holds each non-empty one, in order, separated by single spaces.
/// Handing back one more non-empty text adds a space and that text; an empty
/// one changes nothing.
pub proof fn lemma_transcript_grows(texts: Seq<Seq<char>>, t: Seq<char>)
    ensures
        t.len() == 0 ==> join_spaced(non_empty(texts.push(t))) == join_spaced(non_empty(texts)),
        t.len() > 0 && non_empty(texts).len() == 0 ==> join_spaced(non_empty(texts.push(t))) == t,
        t.len() > 0 && non_empty(texts).len() > 0 ==> join_spaced(non_empty(texts.push(t)))
            == join_spaced(non_empty(texts)) + " "@ + t,
{
    lemma_non_empty_parts(texts, t);
    crate::text::lemma_join_spaced_parts(non_empty(texts), t);
    if t.len() > 0 && non_empty(texts).len() == 0 {
        assert(non_empty(texts).push(t) =~= seq![t]);
    }
}

} // verus!
