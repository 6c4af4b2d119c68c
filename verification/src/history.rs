//! Logging of historical playback events.
//!
//! The player reports when a track starts and when it completes. A start
//! becomes a new listen in the store, which numbers it; a completion is
//! written to the listen that was started last. Both carry the time at
//! which they were reported.

use vstd::prelude::*;
use crate::prim::{QueueId, TrackId};

verus! {

/// Changes in the playback state to be recorded.
#[derive(Clone, Copy, Debug, PartialEq, Eq, Structural)]
pub enum PlaybackEvent {
    Started(QueueId, TrackId),
    Completed(QueueId, TrackId),
}

/// What is to be written to the store for a playback event.
#[derive(Clone, Debug, PartialEq, Eq)]
pub enum Entry {
    /// A new listen. The store answers with its number, which goes to
    /// [`History::inserted`].
    InsertStarted { started_at: String, queue_id: QueueId, track_id: TrackId },
    /// The completion of the listen with the number `listen_id`.
    UpdateCompleted { listen_id: i64, completed_at: String, queue_id: QueueId, track_id: TrackId },
}

/// An [`Entry`] as plain values.
pub enum EntryView {
    InsertStarted { started_at: Seq<char>, queue_id: QueueId, track_id: TrackId },
    UpdateCompleted {
        listen_id: i64,
        completed_at: Seq<char>,
        queue_id: QueueId,
        track_id: TrackId,
    },
}

impl View for Entry {
    type V = EntryView;

    open spec fn view(&self) -> EntryView {
        match self {
            Entry::InsertStarted { started_at, queue_id, track_id } => EntryView::InsertStarted {
                started_at: started_at@,
                queue_id: *queue_id,
                track_id: *track_id,
            },
            Entry::UpdateCompleted {
                listen_id,
                completed_at,
                queue_id,
                track_id,
            } => EntryView::UpdateCompleted {
                listen_id: *listen_id,
                completed_at: completed_at@,
                queue_id: *queue_id,
                track_id: *track_id,
            },
        }
    }
}

/// The moment that lies `secs` seconds and `nanos` nanoseconds after the
/// start of 1970 in UTC, written as RFC 3339 asks, to the millisecond and
/// with `Z` for the time zone. There is none where chrono knows no such
/// moment.
pub uninterp spec fn rfc3339_millis(secs: i64, nanos: u32) -> Option<Seq<char>>;

/// Calls chrono's `DateTime::from_timestamp` and, on the moment that it
/// gives, `DateTime::to_rfc3339_opts` with `SecondsFormat::Millis` and `Z`
/// for UTC. The text depends on the two numbers alone: neither call reads a
/// clock, a time zone or a locale. Nothing is claimed of what the text is
/// or of when there is one.
#[verifier::external_body]
fn format_timestamp(secs: i64, nanos: u32) -> (text: Option<String>)
    ensures
        match text {
            Some(text) => rfc3339_millis(secs, nanos) == Some(text@),
            None => rfc3339_millis(secs, nanos) is None,
        },
{
    let moment = chrono::DateTime::from_timestamp(secs, nanos)?;
    Some(moment.to_rfc3339_opts(chrono::SecondsFormat::Millis, true))
}

/// What the logger remembers between two events.
#[derive(Clone, Copy, Debug, PartialEq, Eq, Structural)]
pub struct History {
    /// The number of the listen that was started last, once there is one.
    pub last_listen_id: Option<i64>,
}

impl History {
    /// An event can be recorded unless it completes a listen before any was
    /// started.
    pub open spec fn accepts(self, event: PlaybackEvent) -> bool {
        event is Completed ==> self.last_listen_id is Some
    }

    /// The entry for an event that was reported at the time `now`.
    pub open spec fn spec_entry(self, event: PlaybackEvent, now: Seq<char>) -> EntryView {
        match event {
            PlaybackEvent::Started(queue_id, track_id) => EntryView::InsertStarted {
                started_at: now,
                queue_id,
                track_id,
            },
            PlaybackEvent::Completed(queue_id, track_id) => EntryView::UpdateCompleted {
                listen_id: self.last_listen_id->0,
                completed_at: now,
                queue_id,
                track_id,
            },
        }
    }

    /// The logger before the first event.
    pub fn new() -> (history: History)
        ensures
            history.last_listen_id is None,
    {
        History { last_listen_id: None }
    }

    /// Whether `event` can be recorded now.
    pub fn can_record(&self, event: &PlaybackEvent) -> (accepted: bool)
        ensures
            accepted == self.accepts(*event),
    {
        match event {
            PlaybackEvent::Started(..) => true,
            PlaybackEvent::Completed(..) => self.last_listen_id.is_some(),
        }
    }

    /// What to write to the store for `event`, which was reported at the
    /// time that `now` names.
    pub fn record(&self, event: PlaybackEvent, now: String) -> (entry: Entry)
        requires
            self.accepts(event),
        ensures
            entry@ == self.spec_entry(event, now@),
    {
        match event {
            PlaybackEvent::Started(queue_id, track_id) => Entry::InsertStarted {
                started_at: now,
                queue_id,
                track_id,
            },
            PlaybackEvent::Completed(queue_id, track_id) => match self.last_listen_id {
                Some(listen_id) => Entry::UpdateCompleted {
                    listen_id,
                    completed_at: now,
                    queue_id,
                    track_id,
                },
                None => vstd::pervasive::unreached(),
            },
        }
    }

    /// What to write to the store for `event`, which was reported `secs`
    /// seconds and `nanos` nanoseconds after the start of 1970 in UTC.
    /// There is nothing to write where that is no moment that can be
    /// written down.
    pub fn record_at(&self, event: PlaybackEvent, secs: i64, nanos: u32) -> (entry: Option<Entry>)
        requires
            self.accepts(event),
        ensures
            match rfc3339_millis(secs, nanos) {
                Some(now) => entry is Some && entry->0@ == self.spec_entry(event, now),
                None => entry is None,
            },
    {
        match format_timestamp(secs, nanos) {
            Some(now) => Some(self.record(event, now)),
            None => None,
        }
    }

    /// Remember the number that the store gave to the listen that was
    /// inserted last.
    pub fn inserted(&mut self, listen_id: i64)
        ensures
            final(self).last_listen_id == Some(listen_id),
    {
        self.last_listen_id = Some(listen_id);
    }
}

} // verus!
