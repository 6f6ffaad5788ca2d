//! Whisper model catalogue and the decisions around model files: which copy of
//! a model is used, what the model list shows, and how a download reports its
//! progress and checks that it is complete.

use vstd::prelude::*;
use vstd::string::StringExecFns;
use crate::text::{append_decimal, spec_decimal};

verus! {

/// The Whisper ggml models that the application knows about.
#[derive(Clone, Copy, Debug, PartialEq, Eq, Structural, Hash)]
pub enum ModelId {
    LargeV3Turbo,
    LargeV3,
}

/// Where every model file is published; the file name follows it.
pub open spec fn url_prefix() -> Seq<char> {
    "https://huggingface.co/ggerganov/whisper.cpp/resolve/main/"@
}

pub open spec fn spec_filename(id: ModelId) -> Seq<char> {
    match id {
        ModelId::LargeV3Turbo => "ggml-large-v3-turbo-q5_0.bin"@,
        ModelId::LargeV3 => "ggml-large-v3.bin"@,
    }
}

pub open spec fn spec_label(id: ModelId) -> Seq<char> {
    match id {
        ModelId::LargeV3Turbo => "Large v3 Turbo (q5_0)"@,
        ModelId::LargeV3 => "Large v3"@,
    }
}

pub open spec fn spec_approx_size(id: ModelId) -> Seq<char> {
    match id {
        ModelId::LargeV3Turbo => "≈ 570 MB"@,
        ModelId::LargeV3 => "≈ 3.1 GB"@,
    }
}

/// Every known model, in the order the model list shows them.
pub open spec fn spec_all_models() -> Seq<ModelId> {
    seq![ModelId::LargeV3Turbo, ModelId::LargeV3]
}

impl ModelId {
    /// File name of the model's ggml weights.
    pub fn filename(self) -> (r: &'static str)
        ensures
            r@ == spec_filename(self),
    {
        match self {
            ModelId::LargeV3Turbo => "ggml-large-v3-turbo-q5_0.bin",
            ModelId::LargeV3 => "ggml-large-v3.bin",
        }
    }

    /// Human-readable name of the model.
    pub fn label(self) -> (r: &'static str)
        ensures
            r@ == spec_label(self),
    {
        match self {
            ModelId::LargeV3Turbo => "Large v3 Turbo (q5_0)",
            ModelId::LargeV3 => "Large v3",
        }
    }

    /// Download URL of the model's weights: the publishing location followed by the file name.
    pub fn download_url(self) -> (r: String)
        ensures
            r@ == url_prefix() + spec_filename(self),
    {
        let mut url = "https://huggingface.co/ggerganov/whisper.cpp/resolve/main/".to_owned();
        url.append(self.filename());
        url
    }

    /// Only the turbo model is recommended.
    pub fn is_recommended(self) -> (r: bool)
        ensures
            r == (self == ModelId::LargeV3Turbo),
    {
        match self {
            ModelId::LargeV3Turbo => true,
            ModelId::LargeV3 => false,
        }
    }

    /// Approximate download size, for display.
    pub fn approx_size(self) -> (r: &'static str)
        ensures
            r@ == spec_approx_size(self),
    {
        match self {
            ModelId::LargeV3Turbo => "≈ 570 MB",
            ModelId::LargeV3 => "≈ 3.1 GB",
        }
    }

    /// All known models.
    pub fn all() -> (r: [ModelId; 2])
        ensures
            r@ == spec_all_models(),
    {
        let r = [ModelId::LargeV3Turbo, ModelId::LargeV3];
        assert(r@ =~= spec_all_models());
        r
    }
}

/// How a model download ended.
#[derive(Clone, Copy, Debug, PartialEq, Eq)]
pub enum DownloadOutcome {
    Completed,
    Cancelled,
}

/// A model as the model list shows it.
#[derive(Clone, Debug)]
pub struct ModelInfo {
    pub id: ModelId,
    pub label: String,
    pub recommended: bool,
    pub size: String,
    /// Whether the model file is available locally.
    pub available: bool,
}

/// The list entry of one model.
pub fn model_info(id: ModelId, available: bool) -> (r: ModelInfo)
    ensures
        r.id == id,
        r.label@ == spec_label(id),
        r.recommended == (id == ModelId::LargeV3Turbo),
        r.size@ == spec_approx_size(id),
        r.available == available,
{
    ModelInfo {
        id,
        label: id.label().to_owned(),
        recommended: id.is_recommended(),
        size: id.approx_size().to_owned(),
        available,
    }
}

/// The model list: every known model in catalogue order; `available[i]` says
/// whether the file of the `i`-th model was found.
pub fn list_models(available: [bool; 2]) -> (r: Vec<ModelInfo>)
    ensures
        r.len() == 2,
        forall|i: int|
            0 <= i < 2 ==> {
                let m = #[trigger] r[i];
                &&& m.id == spec_all_models()[i]
                &&& m.label@ == spec_label(m.id)
                &&& m.recommended == (m.id == ModelId::LargeV3Turbo)
                &&& m.size@ == spec_approx_size(m.id)
                &&& m.available == available[i]
            },
{
    let ids = ModelId::all();
    let mut out: Vec<ModelInfo> = Vec::new();
    let mut k: usize = 0;
    while k < 2
        invariant
            k <= 2,
            ids@ == spec_all_models(),
            out.len() == k,
            forall|i: int|
                0 <= i < k ==> {
                    let m = #[trigger] out[i];
                    &&& m.id == spec_all_models()[i]
                    &&& m.label@ == spec_label(m.id)
                    &&& m.recommended == (m.id == ModelId::LargeV3Turbo)
                    &&& m.size@ == spec_approx_size(m.id)
                    &&& m.available == available[i]
                },
        decreases 2 - k,
    {
        out.push(model_info(ids[k], available[k]));
        k = k + 1;
    }
    out
}

/// Which copy of a model file is used.
#[derive(Clone, Copy, Debug, PartialEq, Eq)]
pub enum ModelSource {
    /// The file downloaded into the user's app data folder.
    UserData,
    /// The file shipped inside the application bundle.
    Bundle,
}

pub open spec fn not_found_message(id: ModelId) -> Seq<char> {
    "model file '"@ + spec_filename(id)
        + "' not found (checked app data and bundle). Run scripts/fetch-model.sh or download it from the app settings."@
}

/// Picks the model file to load: the user's download first, then the bundled
/// copy; with neither, an error that names the missing file.
pub fn resolve_model_source(id: ModelId, user_file_exists: bool, bundled_file_exists: bool) -> (r:
    Result<ModelSource, String>)
    ensures
        user_file_exists ==> r == Ok::<ModelSource, String>(ModelSource::UserData),
        !user_file_exists && bundled_file_exists ==> r == Ok::<ModelSource, String>(
            ModelSource::Bundle,
        ),
        !user_file_exists && !bundled_file_exists ==> (r matches Err(e) && e@ == not_found_message(
            id,
        )),
{
    if user_file_exists {
        Ok(ModelSource::UserData)
    } else if bundled_file_exists {
        Ok(ModelSource::Bundle)
    } else {
        let mut msg = "model file '".to_owned();
        msg.append(id.filename());
        msg.append(
            "' not found (checked app data and bundle). Run scripts/fetch-model.sh or download it from the app settings.",
        );
        Err(msg)
    }
}

/// Progress is reported again once this many more bytes arrived.
pub const PROGRESS_STEP: u64 = 2_000_000;

/// A progress report: bytes received so far, and the expected total if the
/// server announced one.
#[derive(Clone, Copy, Debug, PartialEq, Eq)]
pub struct Progress {
    pub received: u64,
    pub total: Option<u64>,
}

/// Why a download failed after all its data was read.
#[derive(Clone, Copy, Debug, PartialEq, Eq)]
pub enum DownloadError {
    /// The connection ended before the announced number of bytes arrived.
    Incomplete { received: u64, expected: u64 },
}

pub open spec fn incomplete_message(received: u64, expected: u64) -> Seq<char> {
    "incomplete download: received "@ + spec_decimal(received as nat) + " of "@ + spec_decimal(
        expected as nat,
    ) + " bytes (connection interrupted) — please retry"@
}

impl DownloadError {
    /// The message shown to the user.
    pub fn message(&self) -> (r: String)
        ensures
            self matches DownloadError::Incomplete { received, expected } ==> r@
                == incomplete_message(*received, *expected),
    {
        match self {
            DownloadError::Incomplete { received, expected } => {
                let mut msg = "incomplete download: received ".to_owned();
                append_decimal(&mut msg, *received);
                msg.append(" of ");
                append_decimal(&mut msg, *expected);
                msg.append(" bytes (connection interrupted) — please retry");
                msg
            },
        }
    }
}

/// Bookkeeping of one model download: how much arrived, and when the UI was
/// last told.
pub struct DownloadTracker {
    received: u64,
    last_report: u64,
    total: Option<u64>,
}

impl DownloadTracker {
    pub closed spec fn received(&self) -> u64 {
        self.received
    }

    pub closed spec fn last_report(&self) -> u64 {
        self.last_report
    }

    pub closed spec fn total(&self) -> Option<u64> {
        self.total
    }

    /// Never more than [`PROGRESS_STEP`] bytes arrive without a report.
    pub open spec fn wf(&self) -> bool {
        &&& self.last_report() <= self.received()
        &&& self.received() - self.last_report() < PROGRESS_STEP
    }

    /// Starts a download of `total` bytes (if announced); the UI is told at once
    /// that nothing arrived yet.
    pub fn start(total: Option<u64>) -> (r: (DownloadTracker, Progress))
        ensures
            r.0.wf(),
            r.0.received() == 0,
            r.0.last_report() == 0,
            r.0.total() == total,
            r.1 == (Progress { received: 0, total }),
    {
        (DownloadTracker { received: 0, last_report: 0, total }, Progress { received: 0, total })
    }

    /// Bytes received so far.
    pub fn received_bytes(&self) -> (r: u64)
        ensures
            r == self.received(),
    {
        self.received
    }

    /// Records `n` more bytes; returns the report to send, if one is due.
    pub fn record(&mut self, n: u64) -> (r: Option<Progress>)
        requires
            old(self).wf(),
            old(self).received() + n <= u64::MAX,
        ensures
            final(self).wf(),
            final(self).received() == old(self).received() + n,
            final(self).total() == old(self).total(),
            final(self).received() - old(self).last_report() >= PROGRESS_STEP ==> {
                &&& r == Some(Progress { received: final(self).received(), total: old(self).total() })
                &&& final(self).last_report() == final(self).received()
            },
            final(self).received() - old(self).last_report() < PROGRESS_STEP ==> {
                &&& r is None
                &&& final(self).last_report() == old(self).last_report()
            },
    {
        self.received = self.received + n;
        if self.received - self.last_report >= PROGRESS_STEP {
            self.last_report = self.received;
            Some(Progress { received: self.received, total: self.total })
        } else {
            None
        }
    }

    /// Ends the download once the stream is exhausted: it is complete unless a
    /// total was announced and a different number of bytes arrived. The final
    /// report carries the announced total, or none when none was announced.
    pub fn finish(&self) -> (r: Result<Progress, DownloadError>)
        ensures
            self.total() matches Some(e) ==> (e != self.received() ==> r == Err::<
                Progress,
                DownloadError,
            >(DownloadError::Incomplete { received: self.received(), expected: e })),
            self.total() matches Some(e) ==> (e == self.received() ==> r == Ok::<
                Progress,
                DownloadError,
            >(Progress { received: self.received(), total: Some(e) })),
            self.total() is None ==> r == Ok::<Progress, DownloadError>(
                Progress { received: self.received(), total: None },
            ),
    {
        match self.total {
            Some(expected) => if self.received != expected {
                Err(DownloadError::Incomplete { received: self.received, expected })
            } else {
                Ok(Progress { received: self.received, total: Some(expected) })
            },
            None => Ok(Progress { received: self.received, total: None }),
        }
    }
}

/// Two different models never share a weights file, so neither can overwrite
/// the other on disk, and their download URLs differ too.
pub proof fn lemma_filenames_distinct(a: ModelId, b: ModelId)
    requires
        a != b,
    ensures
        spec_filename(a) != spec_filename(b),
        url_prefix() + spec_filename(a) != url_prefix() + spec_filename(b),
{
    reveal_strlit("ggml-large-v3-turbo-q5_0.bin");
    reveal_strlit("ggml-large-v3.bin");
    let fa = spec_filename(a);
    let fb = spec_filename(b);
    if fa.len() == fb.len() {
        assert(false);
    }
    assert((url_prefix() + fa).len() != (url_prefix() + fb).len());
}

/// The model list names every model exactly once, and exactly one model in it
/// is the recommended one.
pub proof fn lemma_catalogue_complete(id: ModelId)
    ensures
        spec_all_models().contains(id),
        spec_all_models().filter(|m: ModelId| m == id).len() == 1,
        spec_all_models().filter(|m: ModelId| m == ModelId::LargeV3Turbo).len() == 1,
{
    let all = spec_all_models();
    reveal_with_fuel(Seq::filter, 3);
    assert(all.drop_last() =~= seq![ModelId::LargeV3Turbo]);
    assert(all.drop_last().drop_last() =~= Seq::<ModelId>::empty());
    match id {
        ModelId::LargeV3Turbo => assert(all[0] == id),
        ModelId::LargeV3 => assert(all[1] == id),
    }
}

} // verus!
