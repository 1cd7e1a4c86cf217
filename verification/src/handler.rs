//! Carrying out commands: what a command does to the contents of a store and
//! which frame answers it.

use crate::command::decode;
use crate::command::Command;
use crate::command::CommandView;
use crate::command::DecodeError;
use crate::frame::Frame;
use crate::frame::FrameView;
use crate::shard::Shard;
use crate::store::ShardedDb;
use vstd::prelude::*;
use vstd::string::StringExecFns;

verus! {

/// The message that tells the peer why its frame is no command.
pub open spec fn decode_error_text(error: DecodeError) -> Seq<char> {
    match error {
        DecodeError::NotArray => "ERR protocol error; expected array"@,
        DecodeError::Empty => "ERR protocol error; empty command"@,
        DecodeError::NotBulk => "ERR protocol error; expected bulk string"@,
        DecodeError::InvalidString => "ERR protocol error; invalid string"@,
        DecodeError::WrongArity => "ERR wrong number of arguments"@,
    }
}

/// The message that names a command which the server does not carry out.
pub open spec fn unsupported_text(name: Seq<char>) -> Seq<char> {
    "ERR unknown command '"@ + name + "'"@
}

/// The frame that answers `command` on a store with the given contents: the
/// value or null for a `Get`, `OK` for a `SetValue`, an error that names the
/// command for an `Unsupported`.
pub open spec fn reply(contents: Map<Seq<char>, Seq<u8>>, command: CommandView) -> FrameView {
    match command {
        CommandView::Get { key } => if contents.contains_key(key) {
            FrameView::Bulk(contents[key])
        } else {
            FrameView::Null
        },
        CommandView::SetValue { .. } => FrameView::Simple("OK"@),
        CommandView::Unsupported { name } => FrameView::Error(unsupported_text(name)),
    }
}

/// The contents of a store after `command`: a `SetValue` binds its key, any
/// other command changes nothing.
pub open spec fn effect(contents: Map<Seq<char>, Seq<u8>>, command: CommandView) -> Map<
    Seq<char>,
    Seq<u8>,
> {
    match command {
        CommandView::SetValue { key, value } => contents.insert(key, value),
        _ => contents,
    }
}

/// Whether `command` binds `key`.
pub open spec fn writes_key(command: CommandView, key: Seq<char>) -> bool {
    command matches CommandView::SetValue { key: written, .. } && written == key
}

/// The contents of a store after a run of commands, carried out in order.
pub open spec fn effect_all(contents: Map<Seq<char>, Seq<u8>>, commands: Seq<CommandView>) -> Map<
    Seq<char>,
    Seq<u8>,
>
    decreases commands.len(),
{
    if commands.len() == 0 {
        contents
    } else {
        effect(effect_all(contents, commands.drop_last()), commands.last())
    }
}

/// The frame that answers a decoding: the command's reply, or the error that
/// stopped the decoding.
pub open spec fn reply_to_decoded(
    contents: Map<Seq<char>, Seq<u8>>,
    decoded: Result<CommandView, DecodeError>,
) -> FrameView {
    match decoded {
        Ok(command) => reply(contents, command),
        Err(error) => FrameView::Error(decode_error_text(error)),
    }
}

/// The contents of a store after a decoding: a frame that is no command
/// changes nothing.
pub open spec fn effect_of_decoded(
    contents: Map<Seq<char>, Seq<u8>>,
    decoded: Result<CommandView, DecodeError>,
) -> Map<Seq<char>, Seq<u8>> {
    match decoded {
        Ok(command) => effect(contents, command),
        Err(_) => contents,
    }
}

impl DecodeError {
    /// The message for the peer.
    pub fn message(&self) -> (text: String)
        ensures
            text@ == decode_error_text(*self),
    {
        match self {
            DecodeError::NotArray => "ERR protocol error; expected array".to_owned(),
            DecodeError::Empty => "ERR protocol error; empty command".to_owned(),
            DecodeError::NotBulk => "ERR protocol error; expected bulk string".to_owned(),
            DecodeError::InvalidString => "ERR protocol error; invalid string".to_owned(),
            DecodeError::WrongArity => "ERR wrong number of arguments".to_owned(),
        }
    }
}

/// The error frame for a frame that is no command.
pub fn refuse(error: DecodeError) -> (response: Frame)
    ensures
        response@ == FrameView::Error(decode_error_text(error)),
{
    Frame::Error(error.message())
}

/// The error frame that names an unsupported command.
pub fn unsupported(name: &str) -> (response: Frame)
    ensures
        response@ == FrameView::Error(unsupported_text(name@)),
{
    Frame::Error("ERR unknown command '".to_owned().concat(name).concat("'"))
}

/// Carries out `command` on one shard and gives the answer. A caller that
/// holds the shards of a store apart hands over the shard that the command's
/// key is routed to.
pub fn apply_to_shard(shard: &mut Shard, command: Command) -> (response: Frame)
    ensures
        response@ == reply(old(shard)@, command@),
        final(shard)@ == effect(old(shard)@, command@),
{
    match command {
        Command::Get { key } => match shard.get(key.as_str()) {
            Some(value) => Frame::Bulk(value),
            None => Frame::Null,
        },
        Command::SetValue { key, value } => {
            shard.insert(key.as_str(), value);
            Frame::Simple("OK".to_owned())
        },
        Command::Unsupported { name } => unsupported(name.as_str()),
    }
}

/// Carries out `command` on the store and gives the answer.
pub fn apply(db: &mut ShardedDb, command: Command) -> (response: Frame)
    requires
        old(db).wf(),
    ensures
        final(db).wf(),
        final(db).shard_count() == old(db).shard_count(),
        response@ == reply(old(db)@, command@),
        final(db)@ == effect(old(db)@, command@),
{
    match command {
        Command::Get { key } => match db.get(key.as_str()) {
            Some(value) => Frame::Bulk(value),
            None => Frame::Null,
        },
        Command::SetValue { key, value } => {
            db.insert(key.as_str(), value);
            Frame::Simple("OK".to_owned())
        },
        Command::Unsupported { name } => unsupported(name.as_str()),
    }
}

/// Answers one frame: decodes it, carries the command out on the store, and
/// gives the response. A frame that is no command, or a command that is not
/// supported, gets an error frame and leaves the store as it was.
pub fn respond(db: &mut ShardedDb, frame: Frame) -> (response: Frame)
    requires
        old(db).wf(),
    ensures
        final(db).wf(),
        final(db).shard_count() == old(db).shard_count(),
        response@ == reply_to_decoded(old(db)@, decode(frame@)),
        final(db)@ == effect_of_decoded(old(db)@, decode(frame@)),
{
    match Command::from_frame(frame) {
        Ok(command) => apply(db, command),
        Err(error) => refuse(error),
    }
}

} // verus!
