//! Cancellation flags shared between the UI commands and the background jobs:
//! one per model download in flight, and one for the file transcription.

use std::sync::atomic::{AtomicBool, Ordering};
use std::sync::Arc;
use vstd::prelude::*;
use crate::model::ModelId;

verus! {

/// Another handle on the same flag (`Arc::clone`).
fn share_flag(flag: &Arc<AtomicBool>) -> (r: Arc<AtomicBool>)
    ensures
        r == *flag,
{
    Arc::clone(flag)
}

/// A fresh, lowered cancellation flag.
fn new_flag() -> Arc<AtomicBool> {
    Arc::new(AtomicBool::new(false))
}

/// The downloads in flight, each with the flag that cancels it. A model has at
/// most one download in flight, so two writers never race on its file.
#[derive(Debug)]
pub struct DownloadFlags {
    active: Vec<(ModelId, Arc<AtomicBool>)>,
}

impl DownloadFlags {
    /// The models being downloaded, in the order their downloads began.
    pub closed spec fn models(&self) -> Seq<ModelId> {
        self.active@.map_values(|e: (ModelId, Arc<AtomicBool>)| e.0)
    }

    /// The models being downloaded.
    pub open spec fn in_flight(&self) -> Set<ModelId> {
        self.models().to_set()
    }

    pub open spec fn wf(&self) -> bool {
        self.models().no_duplicates()
    }

    closed spec fn slot(&self, m: ModelId) -> int {
        choose|i: int| 0 <= i < self.active@.len() && self.active@[i].0 == m
    }

    /// The cancellation flag of the download of `m`, while one is in flight.
    pub closed spec fn flag(&self, m: ModelId) -> Arc<AtomicBool> {
        self.active@[self.slot(m)].1
    }

    proof fn lemma_flag_at(&self, i: int)
        requires
            self.wf(),
            0 <= i < self.active@.len(),
        ensures
            self.flag(self.active@[i].0) == self.active@[i].1,
    {
        let m = self.active@[i].0;
        assert(0 <= i < self.active@.len() && self.active@[i].0 == m);
        let j = self.slot(m);
        assert(0 <= j < self.active@.len() && self.active@[j].0 == m);
        assert(self.models()[i] == self.active@[i].0);
        assert(self.models()[j] == self.active@[j].0);
        assert(i == j);
    }

    /// No download in flight.
    pub fn new() -> (r: DownloadFlags)
        ensures
            r.wf(),
            r.models() == Seq::<ModelId>::empty(),
            r.in_flight() == Set::<ModelId>::empty(),
    {
        let r = DownloadFlags { active: Vec::new() };
        assert(r.models() =~= Seq::<ModelId>::empty());
        assert(r.in_flight() =~= Set::<ModelId>::empty());
        r
    }

    fn position(&self, model: ModelId) -> (r: Option<usize>)
        ensures
            r matches Some(i) ==> i < self.models().len() && self.models()[i as int] == model,
            r is None ==> !self.models().contains(model),
    {
        let mut i: usize = 0;
        while i < self.active.len()
            invariant
                i <= self.active.len(),
                forall|j: int| 0 <= j < i ==> self.models()[j] != model,
            decreases self.active.len() - i,
        {
            if self.active[i].0 == model {
                return Some(i);
            }
            i = i + 1;
        }
        None
    }

    /// Whether a download of `model` is in flight.
    pub fn contains(&self, model: ModelId) -> (r: bool)
        ensures
            r == self.in_flight().contains(model),
    {
        self.position(model).is_some()
    }

    /// Registers a download of `model` and returns its cancellation flag; a
    /// second request while one is in flight is refused (`None`) and changes nothing.
    pub fn begin(&mut self, model: ModelId) -> (r: Option<Arc<AtomicBool>>)
        requires
            old(self).wf(),
        ensures
            final(self).wf(),
            old(self).in_flight().contains(model) ==> r is None && *final(self) == *old(self),
            !old(self).in_flight().contains(model) ==> r is Some && final(self).models() == old(
                self,
            ).models().push(model),
            final(self).in_flight() == old(self).in_flight().insert(model),
            r matches Some(f) ==> final(self).flag(model) == f,
            forall|m: ModelId|
                m != model && #[trigger] old(self).in_flight().contains(m) ==> final(self).flag(m)
                    == old(self).flag(m),
    {
        let ghost before = self.models();
        match self.position(model) {
            Some(_) => {
                assert(self.in_flight().insert(model) =~= self.in_flight());
                None
            },
            None => {
                let ghost old_self = *self;
                let flag = new_flag();
                let handle = share_flag(&flag);
                self.active.push((model, flag));
                assert(self.models() =~= before.push(model));
                proof {

                    before.lemma_push_to_set_commute(model);
                    assert forall|i: int, j: int|
                        0 <= i < self.models().len() && 0 <= j < self.models().len() && i != j
                        implies self.models()[i] != self.models()[j] by {
                        if i == before.len() as int {
                            assert(before.contains(before[j]));
                        } else if j == before.len() as int {
                            assert(before.contains(before[i]));
                        }
                    }
                    self.lemma_flag_at(before.len() as int);
                    assert forall|m: ModelId|
                        m != model && #[trigger] old_self.in_flight().contains(m) implies self.flag(m)
                        == old_self.flag(m) by {
                        let k = choose|k: int| 0 <= k < before.len() && before[k] == m;
                        assert(before[k] == old_self.active@[k].0);
                        old_self.lemma_flag_at(k);
                        assert(self.active@[k] == old_self.active@[k]);
                        assert(self.models()[k] == self.active@[k].0);
                        self.lemma_flag_at(k);
                    }
                }
                Some(handle)
            },
        }
    }

    /// Forgets the download of `model` once it ended, whatever its outcome.
    pub fn finish(&mut self, model: ModelId)
        requires
            old(self).wf(),
        ensures
            final(self).wf(),
            final(self).in_flight() == old(self).in_flight().remove(model),
            forall|m: ModelId|
                m != model && #[trigger] old(self).in_flight().contains(m) ==> final(self).flag(m)
                    == old(self).flag(m),
    {
        let ghost before = self.models();
        match self.position(model) {
            Some(i) => {
                let ghost old_self = *self;
                self.active.remove(i);
                assert(self.models() =~= before.remove(i as int));
                proof {
                    assert forall|x: ModelId| #[trigger]
                        self.in_flight().contains(x) == old(self).in_flight().remove(model).contains(
                            x,
                        ) by {
                        if self.models().contains(x) {
                            let k = choose|k: int|
                                0 <= k < self.models().len() && self.models()[k] == x;
                            if k < i {
                                assert(before[k] == x);
                            } else {
                                assert(before[k + 1] == x);
                            }
                        }
                        if x != model && before.contains(x) {
                            let k = choose|k: int| 0 <= k < before.len() && before[k] == x;
                            if k < i {
                                assert(self.models()[k] == x);
                            } else {
                                assert(k != i);
                                assert(self.models()[k - 1] == x);
                            }
                        }
                    }
                    assert(self.in_flight() =~= old(self).in_flight().remove(model));
                    assert forall|m: ModelId|
                        m != model && #[trigger] old_self.in_flight().contains(m) implies self.flag(m)
                        == old_self.flag(m) by {
                        let k = choose|k: int| 0 <= k < before.len() && before[k] == m;
                        assert(before[k] == old_self.active@[k].0);
                        old_self.lemma_flag_at(k);
                        assert(k != i);
                        if k < i {
                            assert(self.active@[k] == old_self.active@[k]);
                            assert(self.models()[k] == self.active@[k].0);
                            self.lemma_flag_at(k);
                        } else {
                            assert(self.active@[k - 1] == old_self.active@[k]);
                            assert(self.models()[k - 1] == self.active@[k - 1].0);
                            self.lemma_flag_at(k - 1);
                        }
                    }
                }
            },
            None => {
                assert(self.in_flight() =~= old(self).in_flight().remove(model));
            },
        }
    }

    /// Raises the cancellation flag of the download of `model`; returns whether
    /// one was in flight.
    pub fn cancel(&self, model: ModelId) -> (r: bool)
        ensures
            r == self.in_flight().contains(model),
    {
        match self.position(model) {
            Some(i) => {
                self.active[i].1.store(true, Ordering::Relaxed);
                true
            },
            None => false,
        }
    }
}

impl Default for DownloadFlags {
    fn default() -> (r: Self)
        ensures
            r.wf(),
            r.in_flight() == Set::<ModelId>::empty(),
    {
        DownloadFlags::new()
    }
}

/// Cancellation flag of the current file transcription.
#[derive(Clone, Debug)]
pub struct FileCancel(pub Arc<AtomicBool>);

impl Default for FileCancel {
    fn default() -> Self {
        FileCancel(new_flag())
    }
}

} // verus!
