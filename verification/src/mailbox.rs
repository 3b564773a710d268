//! The shared mailbox: the latest published snapshot plus an unread flag,
//! written by the single watcher and read by any number of consumers. The
//! methods here are the whole interface; a caller that shares one value
//! across threads wraps it in a mutual-exclusion lock and holds the lock
//! across exactly one method call, so each call is one atomic transition.

use vstd::prelude::*;
use crate::snapshot::{snapshot_wf, ClipboardData, Snapshot};

verus! {

/// Outcome of attempting QR decoding against a published image snapshot,
/// surfaced to consumers for display only.
#[derive(Debug)]
pub enum DecodeStatus {
    /// The snapshot was not an image, so no decode was attempted.
    NotAttempted,
    /// A QR code was decoded; the published content is the decoded text.
    Found,
    /// No QR code was found in the image.
    NotFound,
    /// The decoder failed; its message is kept for display.
    DecodeError(String),
}

/// Model of a decode status.
pub ghost enum StatusModel {
    NotAttempted,
    Found,
    NotFound,
    DecodeError(Seq<char>),
}

impl View for DecodeStatus {
    type V = StatusModel;

    open spec fn view(&self) -> StatusModel {
        match self {
            DecodeStatus::NotAttempted => StatusModel::NotAttempted,
            DecodeStatus::Found => StatusModel::Found,
            DecodeStatus::NotFound => StatusModel::NotFound,
            DecodeStatus::DecodeError(m) => StatusModel::DecodeError(m@),
        }
    }
}

impl Clone for DecodeStatus {
    fn clone(&self) -> (res: Self)
        ensures
            res@ == self@,
    {
        match self {
            DecodeStatus::NotAttempted => DecodeStatus::NotAttempted,
            DecodeStatus::Found => DecodeStatus::Found,
            DecodeStatus::NotFound => DecodeStatus::NotFound,
            DecodeStatus::DecodeError(m) => DecodeStatus::DecodeError(m.clone()),
        }
    }
}

/// One published update: the snapshot and the decode status that was
/// determined before publication.
#[derive(Debug)]
pub struct Published {
    pub data: ClipboardData,
    pub status: DecodeStatus,
}

/// Model of one published update.
pub ghost struct PublishedModel {
    pub data: Snapshot,
    pub status: StatusModel,
}

impl View for Published {
    type V = PublishedModel;

    open spec fn view(&self) -> PublishedModel {
        PublishedModel { data: self.data@, status: self.status@ }
    }
}

impl Clone for Published {
    fn clone(&self) -> (res: Self)
        ensures
            res@ == self@,
    {
        Published { data: self.data.clone(), status: self.status.clone() }
    }
}

/// The model of the published option that `peek` and `drain` hand back.
pub open spec fn published_opt_model(o: Option<Published>) -> Option<PublishedModel> {
    match o {
        Some(p) => Some(p@),
        None => None,
    }
}

/// Model of the mailbox: the latest published update, if any, and whether
/// it has been read.
pub ghost struct MailboxModel {
    pub current: Option<PublishedModel>,
    pub unread: bool,
}

/// What `publish` does to a mailbox: the new value replaces the old one
/// — only the most recent update is retained — and the unread flag is
/// set in the same step.
pub open spec fn publish_step(m: MailboxModel, p: PublishedModel) -> MailboxModel {
    MailboxModel { current: Some(p), unread: true }
}

/// What `drain` does to a mailbox: the current value stays, the flag
/// clears, and the current value is what the caller gets.
pub open spec fn drain_step(m: MailboxModel) -> (MailboxModel, Option<PublishedModel>) {
    (MailboxModel { current: m.current, unread: false }, m.current)
}

/// What `peek` observes of a mailbox: the current value and the flag, with
/// nothing cleared.
pub open spec fn peek_view(m: MailboxModel) -> (Option<PublishedModel>, bool) {
    (m.current, m.unread)
}

/// The cross-thread mailbox holding the latest published snapshot and a
/// "has unread change" flag. One writer publishes; many readers peek; a
/// single designated primary consumer drains.
pub struct GlobalClipboardState {
    current: Option<Published>,
    unread: bool,
}

impl View for GlobalClipboardState {
    type V = MailboxModel;

    closed spec fn view(&self) -> MailboxModel {
        MailboxModel { current: published_opt_model(self.current), unread: self.unread }
    }
}

impl GlobalClipboardState {
    /// A fresh mailbox holds nothing and reports nothing unread.
    pub fn new() -> (s: GlobalClipboardState)
        ensures
            s@.current is None,
            s@.unread == false,
    {
        GlobalClipboardState { current: None, unread: false }
    }

    /// Writer-only: replaces the current value and sets the unread flag.
    /// Only a well-formed snapshot may ever enter the mailbox.
    pub fn publish(&mut self, data: ClipboardData, status: DecodeStatus)
        requires
            snapshot_wf(data@),
        ensures
            final(self)@ == publish_step(
                old(self)@,
                PublishedModel { data: data@, status: status@ },
            ),
    {
        self.current = Some(Published { data, status });
        self.unread = true;
    }

    /// Any reader: observes the current value and the unread flag without
    /// clearing anything, so consumers on independent cadences do not
    /// steal each other's updates.
    pub fn peek(&self) -> (r: (Option<Published>, bool))
        ensures
            (published_opt_model(r.0), r.1) == peek_view(self@),
    {
        let current = match &self.current {
            Some(p) => Some(p.clone()),
            None => None,
        };
        (current, self.unread)
    }

    /// The primary consumer: takes the current value and clears the unread
    /// flag; the value itself stays available to later peeks and drains.
    pub fn drain(&mut self) -> (r: Option<Published>)
        ensures
            (final(self)@, published_opt_model(r)) == drain_step(old(self)@),
    {
        self.unread = false;
        match &self.current {
            Some(p) => Some(p.clone()),
            None => None,
        }
    }
}

/// Draining and then immediately peeking observes `unread == false` and
/// the same current value as before the drain: a drain clears only the
/// flag, never the value.
pub proof fn lemma_drain_then_peek(m: MailboxModel)
    ensures
        ({
            let (after, taken) = drain_step(m);
            &&& peek_view(after).0 == peek_view(m).0
            &&& peek_view(after).1 == false
            &&& taken == peek_view(m).0
        }),
{
}

/// The unread flag is never set without the value that set it: a
/// publication installs the value and raises the flag in one step, and
/// draining clears only the flag. So a reader that observes
/// `unread == true` always finds a current value — the one published by
/// the change that raised the flag, or a later one.
pub proof fn lemma_unread_flag_always_backed(m: MailboxModel, p: PublishedModel)
    requires
        m.unread ==> m.current is Some,
    ensures
        ({
            let drained = drain_step(m).0;
            drained.unread ==> drained.current is Some
        }),
        ({
            let published = publish_step(m, p);
            published.unread ==> published.current is Some
        }),
{
}

} // verus!
