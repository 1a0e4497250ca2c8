//! The sending side: one poll of the watcher per tick, and the line to send
//! where the poll found a change.

use vstd::prelude::*;
use crate::changes::event_view;
use crate::changes::Changes;
use crate::changes::ChangesView;
use crate::codec::encode;
use crate::codec::wire_line;
use crate::watcher::classify;
use crate::watcher::next_baseline;
use crate::watcher::RepositoryError;
use crate::watcher::Watcher;

verus! {

/// Seconds between two polls.
pub const POLL_INTERVAL_SECS: u64 = 5;

/// What the caller does after a tick.
#[derive(Debug)]
pub enum TickAction {
    /// Send this line over a fresh connection.
    Send(String),
    /// Nothing changed: wait for the next tick.
    Idle,
    /// The poll failed: record why and wait for the next tick.
    Skip(RepositoryError),
}

/// The mathematical value of what a poll gave.
pub enum PollView {
    Event(ChangesView),
    Quiet,
    Failed(Seq<char>),
}

/// The mathematical value of an action.
pub enum TickActionView {
    Send(Seq<char>),
    Idle,
    Skip(Seq<char>),
}

impl View for TickAction {
    type V = TickActionView;

    open spec fn view(&self) -> TickActionView {
        match self {
            TickAction::Send(line) => TickActionView::Send(line@),
            TickAction::Idle => TickActionView::Idle,
            TickAction::Skip(error) => TickActionView::Skip(error.text()),
        }
    }
}

/// The mathematical value of the result of a poll.
pub open spec fn poll_view(polled: Result<Option<Changes>, RepositoryError>) -> PollView {
    match polled {
        Ok(Some(event)) => PollView::Event(event@),
        Ok(None) => PollView::Quiet,
        Err(error) => PollView::Failed(error.text()),
    }
}

/// The action that a poll calls for under a key: an event is sent as its
/// line, no event and a failed poll send nothing.
pub open spec fn tick_action(key: u128, polled: PollView) -> TickActionView {
    match polled {
        PollView::Event(event) => TickActionView::Send(wire_line(key, event)),
        PollView::Quiet => TickActionView::Idle,
        PollView::Failed(message) => TickActionView::Skip(message),
    }
}

/// Polls one watcher and frames what it reports under one key.
pub struct Notifier {
    watcher: Watcher,
    key: u128,
}

impl Notifier {
    /// The key that every line carries.
    pub closed spec fn key(&self) -> u128 {
        self.key
    }

    /// The commit id that the watcher compares the next poll with.
    pub closed spec fn baseline(&self) -> Seq<char> {
        self.watcher.baseline()
    }

    /// A notifier that polls `watcher` and sends under `key`.
    pub fn new(watcher: Watcher, key: u128) -> (notifier: Notifier)
        ensures
            notifier.key() == key,
            notifier.baseline() == watcher.baseline(),
    {
        Notifier { watcher, key }
    }

    /// Says what to do with the result of a poll.
    pub fn handle_poll(&self, polled: Result<Option<Changes>, RepositoryError>) -> (action:
        TickAction)
        ensures
            action@ == tick_action(self.key(), poll_view(polled)),
    {
        match polled {
            Ok(Some(event)) => TickAction::Send(encode(self.key, &event)),
            Ok(None) => TickAction::Idle,
            Err(error) => TickAction::Skip(error),
        }
    }

    /// Polls the watcher once and says what to do. Whatever the repository
    /// showed, a line that is sent carries the event that the poll
    /// classified, and a tick that sends nothing leaves the baseline alone.
    pub fn tick(&mut self) -> (action: TickAction)
        ensures
            final(self).key() == old(self).key(),
            match action {
                TickAction::Send(line) => exists|paths: Seq<Seq<char>>, head: Seq<char>|
                    {
                        &&& #[trigger] classify(old(self).baseline(), paths, head) matches Some(
                            event,
                        )
                        &&& line@ == wire_line(old(self).key(), event)
                        &&& final(self).baseline() == next_baseline(old(self).baseline(), head)
                    },
                TickAction::Idle => final(self).baseline() == old(self).baseline(),
                TickAction::Skip(_) => final(self).baseline() == old(self).baseline(),
            },
    {
        let polled = self.watcher.watch();
        proof {
            if polled is Ok {
                let seen = polled->Ok_0;
                let (paths, head) = choose|paths: Seq<Seq<char>>, head: Seq<char>|
                    {
                        &&& event_view(seen) == #[trigger] classify(
                            old(self).baseline(),
                            paths,
                            head,
                        )
                        &&& self.baseline() == next_baseline(old(self).baseline(), head)
                    };
                assert(event_view(seen) == classify(old(self).baseline(), paths, head));
            }
        }
        self.handle_poll(polled)
    }
}

} // verus!
