//! The life of one connection as a state machine. The machine decides; its
//! driver reads and writes frames, reaches the store, and hands back what
//! happened.

use crate::command::decode;
use crate::command::Command;
use crate::command::CommandView;
use crate::frame::Frame;
use crate::frame::FrameView;
use crate::handler::decode_error_text;
use crate::handler::refuse;
use crate::handler::unsupported;
use crate::handler::unsupported_text;
use crate::routing::shard_for_key;
use crate::routing::shard_of_key;
use vstd::prelude::*;

verus! {

/// Where a connection stands between two steps. Decoding takes place inside
/// the step that leaves `Reading`.
#[derive(Debug, Clone, Copy, PartialEq, Eq, Structural)]
pub enum ConnState {
    /// Waiting for the next frame from the peer.
    Reading,
    /// A command is being carried out on the store.
    Applying,
    /// A response is being written to the peer.
    Responding,
    /// The peer closed the stream between two frames.
    Closed,
    /// Reading or writing failed.
    Failed,
}

/// What the driver reports back to the machine.
#[derive(Debug, PartialEq, Eq)]
pub enum Event {
    /// A whole frame arrived.
    FrameRead(Frame),
    /// The peer closed the stream.
    Eof,
    /// The stream could not be read, or its bytes were no frame.
    ReadFailed,
    /// The store carried out the command and gave this response.
    Applied(Frame),
    /// The response was written.
    Written,
    /// The response could not be written.
    WriteFailed,
}

/// What an event holds, as mathematical values.
pub enum EventView {
    FrameRead(FrameView),
    Eof,
    ReadFailed,
    Applied(FrameView),
    Written,
    WriteFailed,
}

impl View for Event {
    type V = EventView;

    open spec fn view(&self) -> EventView {
        match self {
            Event::FrameRead(frame) => EventView::FrameRead(frame@),
            Event::Eof => EventView::Eof,
            Event::ReadFailed => EventView::ReadFailed,
            Event::Applied(response) => EventView::Applied(response@),
            Event::Written => EventView::Written,
            Event::WriteFailed => EventView::WriteFailed,
        }
    }
}

/// What the machine asks of the driver next.
#[derive(Debug, PartialEq, Eq)]
pub enum Action {
    /// Read the next frame.
    Read,
    /// Carry out `command` on the shard at index `shard`, under that shard's
    /// guard and nothing else.
    Apply { shard: usize, command: Command },
    /// Write this frame to the peer.
    Write(Frame),
    /// End the connection's task.
    Stop,
}

/// What an action holds, as mathematical values.
pub enum ActionView {
    Read,
    Apply { shard: nat, command: CommandView },
    Write(FrameView),
    Stop,
}

impl View for Action {
    type V = ActionView;

    open spec fn view(&self) -> ActionView {
        match self {
            Action::Read => ActionView::Read,
            Action::Apply { shard, command } => ActionView::Apply {
                shard: *shard as nat,
                command: command@,
            },
            Action::Write(frame) => ActionView::Write(frame@),
            Action::Stop => ActionView::Stop,
        }
    }
}

/// Whether a connection in this state has ended.
pub open spec fn is_terminal(state: ConnState) -> bool {
    state == ConnState::Closed || state == ConnState::Failed
}

/// What follows a frame from the peer: a command with a key goes to the
/// shard of its key; anything else is answered with an error frame and never
/// reaches the store.
pub open spec fn after_frame(frame: FrameView, num_shards: nat) -> (ConnState, ActionView) {
    match decode(frame) {
        Ok(CommandView::Get { key }) => (
            ConnState::Applying,
            ActionView::Apply {
                shard: shard_of_key(key, num_shards),
                command: CommandView::Get { key },
            },
        ),
        Ok(CommandView::SetValue { key, value }) => (
            ConnState::Applying,
            ActionView::Apply {
                shard: shard_of_key(key, num_shards),
                command: CommandView::SetValue { key, value },
            },
        ),
        Ok(CommandView::Unsupported { name }) => (
            ConnState::Responding,
            ActionView::Write(FrameView::Error(unsupported_text(name))),
        ),
        Err(error) => (
            ConnState::Responding,
            ActionView::Write(FrameView::Error(decode_error_text(error))),
        ),
    }
}

/// The machine's transitions. An event that the state does not wait for ends
/// the connection as failed; an ended connection stays as it is.
pub open spec fn transition(state: ConnState, event: EventView, num_shards: nat) -> (
    ConnState,
    ActionView,
) {
    match (state, event) {
        (ConnState::Reading, EventView::FrameRead(frame)) => after_frame(frame, num_shards),
        (ConnState::Reading, EventView::Eof) => (ConnState::Closed, ActionView::Stop),
        (ConnState::Applying, EventView::Applied(response)) => (
            ConnState::Responding,
            ActionView::Write(response),
        ),
        (ConnState::Responding, EventView::Written) => (ConnState::Reading, ActionView::Read),
        (ConnState::Closed, _) => (ConnState::Closed, ActionView::Stop),
        _ => (ConnState::Failed, ActionView::Stop),
    }
}

/// The state and the first action of a fresh connection.
pub fn start() -> (first: (ConnState, Action))
    ensures
        first.0 == ConnState::Reading,
        first.1@ == ActionView::Read,
{
    (ConnState::Reading, Action::Read)
}

/// Decides what follows a frame from the peer.
fn on_frame(frame: Frame, num_shards: usize) -> (next: (ConnState, Action))
    requires
        num_shards > 0,
    ensures
        (next.0, next.1@) == after_frame(frame@, num_shards as nat),
{
    match Command::from_frame(frame) {
        Ok(Command::Get { key }) => {
            let shard = shard_for_key(key.as_str(), num_shards);
            (ConnState::Applying, Action::Apply { shard, command: Command::Get { key } })
        },
        Ok(Command::SetValue { key, value }) => {
            let shard = shard_for_key(key.as_str(), num_shards);
            (ConnState::Applying, Action::Apply { shard, command: Command::SetValue { key, value } })
        },
        Ok(Command::Unsupported { name }) => (
            ConnState::Responding,
            Action::Write(unsupported(name.as_str())),
        ),
        Err(error) => (ConnState::Responding, Action::Write(refuse(error))),
    }
}

/// One step of a connection: from the state and what the driver reports to
/// the next state and what the driver is to do. The driver stops exactly when
/// the connection has ended.
pub fn step(state: ConnState, event: Event, num_shards: usize) -> (next: (ConnState, Action))
    requires
        num_shards > 0,
    ensures
        (next.0, next.1@) == transition(state, event@, num_shards as nat),
        next.1@ is Stop <==> is_terminal(next.0),
        next.1@ matches ActionView::Apply { shard, .. } ==> shard < num_shards,
{
    match state {
        ConnState::Reading => match event {
            Event::FrameRead(frame) => on_frame(frame, num_shards),
            Event::Eof => (ConnState::Closed, Action::Stop),
            _ => (ConnState::Failed, Action::Stop),
        },
        ConnState::Applying => match event {
            Event::Applied(response) => (ConnState::Responding, Action::Write(response)),
            _ => (ConnState::Failed, Action::Stop),
        },
        ConnState::Responding => match event {
            Event::Written => (ConnState::Reading, Action::Read),
            _ => (ConnState::Failed, Action::Stop),
        },
        ConnState::Closed => (ConnState::Closed, Action::Stop),
        ConnState::Failed => (ConnState::Failed, Action::Stop),
    }
}

} // verus!
