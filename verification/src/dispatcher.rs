//! The listening side: what to do with each line that a connection delivers.
//!
//! A connection is read line by line until its peer closes it or a read
//! fails. Every line is judged on its own: a rejected line is dropped and the
//! connection reads on.

use vstd::prelude::*;
use crate::changes::Changes;
use crate::changes::ChangesView;
use crate::codec::decode;
use crate::codec::decode_view;
use crate::codec::decoded;
use crate::codec::strip_newline;
use crate::codec::without_newline;
use crate::codec::DecodeError;

verus! {

/// Where a connection stands.
#[derive(Debug, Clone, Copy, PartialEq, Eq, Structural)]
pub enum SessionState {
    /// The connection is open and read line by line.
    Reading,
    /// The connection is over.
    Closed,
}

/// What one read on a connection gave.
#[derive(Debug)]
pub enum ReadOutcome {
    /// A complete line.
    Line(String),
    /// The peer closed the connection.
    EndOfStream,
    /// The read failed.
    Failed,
}

/// What the caller does after a read.
#[derive(Debug)]
pub enum SessionAction {
    /// Hand the event to the action hook and read on.
    Deliver(Changes),
    /// Drop the line, record why, and read on.
    Discard(DecodeError),
    /// Close the connection: its peer is done.
    Close,
    /// Close the connection and report the failed read.
    Abort,
    /// Nothing: the connection is closed already.
    Ignore,
}

/// The mathematical value of a read.
pub enum ReadOutcomeView {
    Line(Seq<char>),
    EndOfStream,
    Failed,
}

/// The mathematical value of an action.
pub enum SessionActionView {
    Deliver(ChangesView),
    Discard(DecodeError),
    Close,
    Abort,
    Ignore,
}

impl View for ReadOutcome {
    type V = ReadOutcomeView;

    open spec fn view(&self) -> ReadOutcomeView {
        match self {
            ReadOutcome::Line(line) => ReadOutcomeView::Line(line@),
            ReadOutcome::EndOfStream => ReadOutcomeView::EndOfStream,
            ReadOutcome::Failed => ReadOutcomeView::Failed,
        }
    }
}

impl View for SessionAction {
    type V = SessionActionView;

    open spec fn view(&self) -> SessionActionView {
        match self {
            SessionAction::Deliver(event) => SessionActionView::Deliver(event@),
            SessionAction::Discard(error) => SessionActionView::Discard(*error),
            SessionAction::Close => SessionActionView::Close,
            SessionAction::Abort => SessionActionView::Abort,
            SessionAction::Ignore => SessionActionView::Ignore,
        }
    }
}

/// The action for one line under a key: deliver what the message on it
/// decodes to, or discard it with the reason.
pub open spec fn line_action(line: Seq<char>, key: u128) -> SessionActionView {
    match decoded(without_newline(line), key) {
        Ok(event) => SessionActionView::Deliver(event),
        Err(error) => SessionActionView::Discard(error),
    }
}

/// One step of a connection: the state after a read and the action it calls
/// for. Lines keep the connection reading whatever they hold; the end of the
/// stream and a failed read close it; a closed connection stays closed.
pub open spec fn session_step(key: u128, state: SessionState, outcome: ReadOutcomeView) -> (
    SessionState,
    SessionActionView,
) {
    match state {
        SessionState::Closed => (SessionState::Closed, SessionActionView::Ignore),
        SessionState::Reading => match outcome {
            ReadOutcomeView::Line(line) => (SessionState::Reading, line_action(line, key)),
            ReadOutcomeView::EndOfStream => (SessionState::Closed, SessionActionView::Close),
            ReadOutcomeView::Failed => (SessionState::Closed, SessionActionView::Abort),
        },
    }
}

/// Accepts the messages that carry its key and decodes them.
#[derive(Debug)]
pub struct Dispatcher {
    msg_key: u128,
}

impl Dispatcher {
    /// The key that a message must carry.
    pub closed spec fn key(&self) -> u128 {
        self.msg_key
    }

    /// A dispatcher that accepts the messages that carry `msg_key`.
    pub fn new(msg_key: u128) -> (dispatcher: Dispatcher)
        ensures
            dispatcher.key() == msg_key,
    {
        Dispatcher { msg_key }
    }

    /// The key that a message must carry.
    pub fn msg_key(&self) -> (key: u128)
        ensures
            key == self.key(),
    {
        self.msg_key
    }

    /// The state in which every connection begins.
    pub fn accept(&self) -> (state: SessionState)
        ensures
            state == SessionState::Reading,
    {
        SessionState::Reading
    }

    /// Judges one message: the event it carries, or why it is dropped.
    pub fn handle_message(&self, message: &str) -> (result: Result<Changes, DecodeError>)
        ensures
            decode_view(result) == decoded(message@, self.key()),
    {
        decode(message, self.msg_key)
    }

    /// Takes one read of a connection and says where the connection stands
    /// after it and what to do.
    pub fn handle_read(&self, state: SessionState, outcome: ReadOutcome) -> (next: (
        SessionState,
        SessionAction,
    ))
        ensures
            (next.0, next.1@) == session_step(self.key(), state, outcome@),
    {
        match state {
            SessionState::Closed => (SessionState::Closed, SessionAction::Ignore),
            SessionState::Reading => match outcome {
                ReadOutcome::Line(line) => {
                    let action = match self.handle_message(strip_newline(line.as_str())) {
                        Ok(event) => SessionAction::Deliver(event),
                        Err(error) => SessionAction::Discard(error),
                    };
                    (SessionState::Reading, action)
                },
                ReadOutcome::EndOfStream => (SessionState::Closed, SessionAction::Close),
                ReadOutcome::Failed => (SessionState::Closed, SessionAction::Abort),
            },
        }
    }
}

} // verus!
