//! The watcher's decision logic: what one wake-up does with one raw
//! clipboard read. The blocking loop — waiting on the event source,
//! reading the native clipboard, running the QR decoder — runs outside;
//! it hands every read result to `decide_wake`, which validates and
//! deduplicates, and hands each decode outcome to `publish_scanned`,
//! which says exactly what is published for every value of it. The
//! decoder call itself stays at the unverified edge: its library can
//! panic on adversarial image geometry, so the edge guards it and this
//! logic is verified for every outcome the guard can hand back.

use vstd::prelude::*;
use crate::detector::{detector_step, ChangeDetector, DetectorModel};
use crate::identity::identity_of;
use crate::mailbox::{
    publish_step, DecodeStatus, GlobalClipboardState, MailboxModel, PublishedModel, StatusModel,
};
use crate::snapshot::{
    from_raw_spec, snapshot_wf, ClipboardData, ImageData, ImageModel, RawModel, RawRead, Snapshot,
};

verus! {

/// Decoded text becomes the published content; empty decoded text
/// collapses to `Empty`, as all empty text does.
pub open spec fn collapse_text(t: Seq<char>) -> Snapshot {
    if t.len() == 0 {
        Snapshot::Empty
    } else {
        Snapshot::Text(t)
    }
}

/// The published content and decode status an image snapshot yields for a
/// given scan outcome: decoded text replaces the image; otherwise the
/// image itself is published, tagged with why.
pub open spec fn logical_spec(img: ImageModel, scan: Result<Option<Seq<char>>, Seq<char>>) -> (
    Snapshot,
    StatusModel,
) {
    match scan {
        Ok(Some(t)) => (collapse_text(t), StatusModel::Found),
        Ok(None) => (Snapshot::Image(img), StatusModel::NotFound),
        Err(m) => (Snapshot::Image(img), StatusModel::DecodeError(m)),
    }
}

/// Model of a scan result as handed to `logical_from_scan`.
pub open spec fn scan_model(scan: Result<Option<String>, String>) -> Result<
    Option<Seq<char>>,
    Seq<char>,
> {
    match scan {
        Ok(Some(t)) => Ok(Some(t@)),
        Ok(None) => Ok(None),
        Err(m) => Err(m@),
    }
}

/// Model of a read result as handed to `decide_wake`.
pub open spec fn read_model(read: Result<RawRead, String>) -> Result<RawModel, Seq<char>> {
    match read {
        Ok(r) => Ok(r@),
        Err(e) => Err(e@),
    }
}

/// Model of what one wake-up decided, before any decode runs and before
/// the mailbox is touched.
pub ghost enum DecisionModel {
    ReadFailed,
    DiscardedMalformed,
    Unchanged,
    Publish(Snapshot, StatusModel),
    DecodeImage(ImageModel),
}

/// What one wake-up decides, as a function of the watcher state and the
/// read result alone: a failed or malformed read changes nothing; an
/// unchanged identity changes nothing; a changed text or empty snapshot
/// is published as it is; a changed image must be run through the QR
/// decoder before publication.
pub open spec fn decide_step(
    d: DetectorModel,
    read: Result<RawModel, Seq<char>>,
    now: int,
) -> (DetectorModel, DecisionModel) {
    match read {
        Err(_) => (d, DecisionModel::ReadFailed),
        Ok(raw) => match from_raw_spec(raw) {
            Err(_) => (d, DecisionModel::DiscardedMalformed),
            Ok(snap) => {
                let (next, changed) = detector_step(d.last_identity, identity_of(snap));
                if changed {
                    let updated = DetectorModel { last_identity: next, last_change_time: now };
                    match snap {
                        Snapshot::Image(img) => (updated, DecisionModel::DecodeImage(img)),
                        _ => (updated, DecisionModel::Publish(snap, StatusModel::NotAttempted)),
                    }
                } else {
                    (d, DecisionModel::Unchanged)
                }
            },
        },
    }
}

/// What one wake-up decided, before any decode runs and before the
/// mailbox is touched. Holding this value requires no lock: a caller
/// sharing the mailbox across threads computes the decision first, runs
/// the decoder on a `DecodeImage` decision with nothing held, and takes
/// the lock only to publish, so the lock is held for a pointer swap and
/// never spans a read or a decode.
#[derive(Debug)]
pub enum WakeDecision {
    /// The raw read failed; retry on the next wake-up.
    ReadFailed,
    /// The raw read was malformed; discarded.
    DiscardedMalformed,
    /// Nothing new; nothing to publish.
    Unchanged,
    /// A change was detected: publish this value with this status.
    Publish(ClipboardData, DecodeStatus),
    /// A changed image: run the QR decoder over it, then hand the image
    /// and the decoder's outcome to `publish_scanned`.
    DecodeImage(ImageData),
}

impl View for WakeDecision {
    type V = DecisionModel;

    open spec fn view(&self) -> DecisionModel {
        match self {
            WakeDecision::ReadFailed => DecisionModel::ReadFailed,
            WakeDecision::DiscardedMalformed => DecisionModel::DiscardedMalformed,
            WakeDecision::Unchanged => DecisionModel::Unchanged,
            WakeDecision::Publish(data, status) => DecisionModel::Publish(data@, status@),
            WakeDecision::DecodeImage(img) => DecisionModel::DecodeImage(img@),
        }
    }
}

/// Maps a scan outcome onto the value to publish: decoded text replaces
/// the image (collapsing to `Empty` when the decoded text is empty); on
/// no find or on a decoder failure the image itself is published, tagged
/// with the reason. Verified for every outcome the decoder's guard can
/// hand back.
pub fn logical_from_scan(image: ImageData, scan: Result<Option<String>, String>) -> (r: (
    ClipboardData,
    DecodeStatus,
))
    requires
        image@.wf(),
    ensures
        (r.0@, r.1@) == logical_spec(image@, scan_model(scan)),
        snapshot_wf(r.0@),
{
    match scan {
        Ok(Some(t)) => {
            if t.as_str().is_empty() {
                (ClipboardData::Empty, DecodeStatus::Found)
            } else {
                (ClipboardData::Text(t), DecodeStatus::Found)
            }
        },
        Ok(None) => (ClipboardData::Image(image), DecodeStatus::NotFound),
        Err(m) => (ClipboardData::Image(image), DecodeStatus::DecodeError(m)),
    }
}

/// Completes a `DecodeImage` decision: publishes what `logical_from_scan`
/// makes of the image and the decoder's outcome, setting the unread flag
/// in the same step.
pub fn publish_scanned(
    mailbox: &mut GlobalClipboardState,
    image: ImageData,
    scan: Result<Option<String>, String>,
)
    requires
        image@.wf(),
    ensures
        ({
            let (data, status) = logical_spec(image@, scan_model(scan));
            final(mailbox)@ == publish_step(
                old(mailbox)@,
                PublishedModel { data, status },
            )
        }),
{
    let (data, status) = logical_from_scan(image, scan);
    mailbox.publish(data, status);
}

/// The watcher: owns the change detector and, on each wake-up, turns one
/// raw read into at most one decision to publish.
pub struct ClipboardWatcher {
    detector: ChangeDetector,
}

impl View for ClipboardWatcher {
    type V = DetectorModel;

    closed spec fn view(&self) -> DetectorModel {
        self.detector@
    }
}

impl ClipboardWatcher {
    /// A fresh watcher holds a fresh detector, so the first read it
    /// evaluates is always reported and published.
    pub fn new() -> (w: ClipboardWatcher)
        ensures
            w@.last_identity is None,
            w@.last_change_time == 0,
    {
        ClipboardWatcher { detector: ChangeDetector::new() }
    }

    /// Decides what one wake-up amounts to: validates the raw read and
    /// asks the detector whether it is a change. A changed text or empty
    /// snapshot is ready to publish; a changed image is handed back for
    /// decoding first. Touches no mailbox and calls no decoder. Read
    /// errors are transient by design: the loop retries on the next
    /// wake-up, forever.
    pub fn decide_wake(&mut self, read: Result<RawRead, String>, now: u64) -> (decision:
        WakeDecision)
        ensures
            (final(self)@, decision@) == decide_step(old(self)@, read_model(read), now as int),
            decision matches WakeDecision::Publish(data, _) ==> snapshot_wf(data@),
            decision matches WakeDecision::DecodeImage(img) ==> img@.wf(),
    {
        match read {
            Err(_) => WakeDecision::ReadFailed,
            Ok(raw) => match ClipboardData::from_raw(raw) {
                Err(_) => WakeDecision::DiscardedMalformed,
                Ok(snap) => {
                    let changed = self.detector.evaluate(&snap, now);
                    if changed {
                        match snap {
                            ClipboardData::Image(img) => WakeDecision::DecodeImage(img),
                            other => WakeDecision::Publish(other, DecodeStatus::NotAttempted),
                        }
                    } else {
                        WakeDecision::Unchanged
                    }
                },
            },
        }
    }

    /// Notes a value this process itself just wrote to the clipboard, so
    /// the watcher does not re-report its own write as a change.
    pub fn record_written(&mut self, d: &ClipboardData)
        ensures
            final(self)@.last_identity == Some(identity_of(d@)),
            final(self)@.last_change_time == old(self)@.last_change_time,
    {
        self.detector.record(d);
    }

    /// When the watcher last reported a change.
    pub fn last_change_time(&self) -> (t: u64)
        ensures
            t as int == self@.last_change_time,
    {
        self.detector.last_change_time()
    }
}

/// Two consecutive wake-ups over reads with the same content never yield
/// a second decision to publish: the duplicate is filtered out before
/// anything reaches the mailbox, so its value and its unread flag stay
/// exactly as the first publication left them, drained or not.
pub proof fn lemma_duplicate_wake_filtered(
    d: DetectorModel,
    read: Result<RawModel, Seq<char>>,
    t1: int,
    t2: int,
)
    ensures
        ({
            let (d1, c1) = decide_step(d, read, t1);
            let (d2, c2) = decide_step(d1, read, t2);
            &&& d2 == d1
            &&& !(c2 is Publish)
            &&& !(c2 is DecodeImage)
        }),
{
}

} // verus!
