//! Change detection: given a freshly read snapshot, decide in O(1) whether
//! it differs from the one last reported, by comparing identity hashes.

use vstd::prelude::*;
use crate::identity::{identity_of, ContentIdentity};
use crate::snapshot::ClipboardData;

verus! {

/// Model of the detector's state: the identity last reported as a change,
/// if any, and when it was reported.
pub ghost struct DetectorModel {
    pub last_identity: Option<u64>,
    pub last_change_time: int,
}

/// One evaluation step: the detector reports a change exactly when the new
/// identity differs from the one last stored, and only then stores it.
pub open spec fn detector_step(last: Option<u64>, id: u64) -> (Option<u64>, bool) {
    if last == Some(id) {
        (last, false)
    } else {
        (Some(id), true)
    }
}

/// The reports a detector starting from `last` makes over a sequence of
/// identities, one boolean per read.
pub open spec fn detector_run(last: Option<u64>, ids: Seq<u64>) -> Seq<bool>
    decreases ids.len(),
{
    if ids.len() == 0 {
        Seq::empty()
    } else {
        let (next, report) = detector_step(last, ids[0]);
        seq![report] + detector_run(next, ids.drop_first())
    }
}

/// Decides whether a snapshot differs from the last one reported. Mutated
/// only by its own methods, once per evaluated read.
pub struct ChangeDetector {
    last_identity: Option<ContentIdentity>,
    last_change_time: u64,
}

impl View for ChangeDetector {
    type V = DetectorModel;

    closed spec fn view(&self) -> DetectorModel {
        DetectorModel {
            last_identity: match self.last_identity {
                Some(id) => Some(id.value),
                None => None,
            },
            last_change_time: self.last_change_time as int,
        }
    }
}

impl ChangeDetector {
    /// A fresh detector stores no identity, so the very first evaluated
    /// read — whatever it holds, including `Empty` — is reported as a
    /// change. This startup behaviour is deliberate and tested.
    pub fn new() -> (d: ChangeDetector)
        ensures
            d@.last_identity is None,
            d@.last_change_time == 0,
    {
        ChangeDetector { last_identity: None, last_change_time: 0 }
    }

    /// Evaluates one read at time `now`: reports whether its identity
    /// differs from the last one stored, and on a change stores the new
    /// identity and the time; on no change, mutates nothing.
    pub fn evaluate(&mut self, d: &ClipboardData, now: u64) -> (changed: bool)
        ensures
            ({
                let (next, report) = detector_step(old(self)@.last_identity, identity_of(d@));
                &&& changed == report
                &&& final(self)@.last_identity == next
                &&& final(self)@.last_change_time == if report {
                    now as int
                } else {
                    old(self)@.last_change_time
                }
            }),
    {
        let id = ContentIdentity::of(d);
        let same = match &self.last_identity {
            Some(prev) => prev.value == id.value,
            None => false,
        };
        if same {
            false
        } else {
            self.last_identity = Some(id);
            self.last_change_time = now;
            true
        }
    }

    /// Stores the identity of a value this process itself just wrote to the
    /// clipboard, so the write is not re-reported as a change; the change
    /// time is left alone.
    pub fn record(&mut self, d: &ClipboardData)
        ensures
            final(self)@.last_identity == Some(identity_of(d@)),
            final(self)@.last_change_time == old(self)@.last_change_time,
    {
        self.last_identity = Some(ContentIdentity::of(d));
    }

    /// When the last change was reported.
    pub fn last_change_time(&self) -> (t: u64)
        ensures
            t as int == self@.last_change_time,
    {
        self.last_change_time
    }
}

/// For any run of reads whose identities are all the same, a detector not
/// already storing that identity reports a change exactly once — on the
/// first read — and reports no change on every later read, until a read
/// with a different identity occurs.
pub proof fn lemma_identical_reads_reported_once(last: Option<u64>, ids: Seq<u64>)
    requires
        ids.len() > 0,
        forall|i: int| 0 <= i < ids.len() ==> #[trigger] ids[i] == ids[0],
        last != Some(ids[0]),
    ensures
        detector_run(last, ids)[0] == true,
        forall|i: int| 1 <= i < ids.len() ==> detector_run(last, ids)[i] == false,
        detector_run(last, ids).len() == ids.len(),
    decreases ids.len(),
{
    let run = detector_run(last, ids);
    lemma_run_length(last, ids);
    if ids.len() > 1 {
        lemma_same_identity_stays_quiet(Some(ids[0]), ids.drop_first());
        assert(forall|i: int| 1 <= i < ids.len() ==> run[i] == detector_run(
            Some(ids[0]),
            ids.drop_first(),
        )[i - 1]);
    }
}

/// A detector already storing the identity of every read in the run never
/// reports a change.
pub proof fn lemma_same_identity_stays_quiet(last: Option<u64>, ids: Seq<u64>)
    requires
        forall|i: int| 0 <= i < ids.len() ==> last == Some(#[trigger] ids[i]),
    ensures
        forall|i: int| 0 <= i < ids.len() ==> detector_run(last, ids)[i] == false,
        detector_run(last, ids).len() == ids.len(),
    decreases ids.len(),
{
    lemma_run_length(last, ids);
    if ids.len() > 0 {
        lemma_same_identity_stays_quiet(last, ids.drop_first());
    }
}

/// A run reports once per read.
pub proof fn lemma_run_length(last: Option<u64>, ids: Seq<u64>)
    ensures
        detector_run(last, ids).len() == ids.len(),
    decreases ids.len(),
{
    if ids.len() > 0 {
        let (next, _) = detector_step(last, ids[0]);
        lemma_run_length(next, ids.drop_first());
    }
}

} // verus!
