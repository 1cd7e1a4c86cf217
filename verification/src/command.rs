//! Commands: what a command frame asks of the store, and how a frame is
//! decoded into one.

use crate::frame::lemma_array_view;
use crate::frame::Frame;
use crate::frame::FrameView;
use crate::value::bytes_as_slice;
use crate::value::bytes_content;
use bytes::Bytes;
use vstd::prelude::*;
use vstd::string::StringSliceAdditionalSpecFns;
use vstd::utf8::decode_utf8;
use vstd::utf8::encode_utf8_decode_utf8;
use vstd::utf8::valid_utf8;

verus! {

/// A request, decoded from one frame.
#[derive(Debug, PartialEq, Eq)]
pub enum Command {
    /// Read the value of a key.
    Get { key: String },
    /// Bind a key to a value.
    SetValue { key: String, value: Bytes },
    /// A command, named by the peer, that this server does not carry out.
    Unsupported { name: String },
}

/// What a command holds, as mathematical values.
pub enum CommandView {
    Get { key: Seq<char> },
    SetValue { key: Seq<char>, value: Seq<u8> },
    Unsupported { name: Seq<char> },
}

impl View for Command {
    type V = CommandView;

    open spec fn view(&self) -> CommandView {
        match self {
            Command::Get { key } => CommandView::Get { key: key@ },
            Command::SetValue { key, value } => CommandView::SetValue {
                key: key@,
                value: bytes_content(*value),
            },
            Command::Unsupported { name } => CommandView::Unsupported { name: name@ },
        }
    }
}

/// The key that a command reads or writes, where it has one.
pub open spec fn key_of(command: CommandView) -> Option<Seq<char>> {
    match command {
        CommandView::Get { key } => Some(key),
        CommandView::SetValue { key, .. } => Some(key),
        CommandView::Unsupported { .. } => None,
    }
}

/// Why a frame is no command.
#[derive(Debug, Clone, Copy, PartialEq, Eq, Structural)]
pub enum DecodeError {
    /// The frame is not an array.
    NotArray,
    /// The array is empty: there is no command name.
    Empty,
    /// An element that the command reads is not a bulk string.
    NotBulk,
    /// A command name or a key is not valid UTF-8.
    InvalidString,
    /// `GET` or `SET` with the wrong number of elements.
    WrongArity,
}

/// The ASCII letter `a`.
pub const LOWER_A: u8 = 0x61;

/// The ASCII letter `z`.
pub const LOWER_Z: u8 = 0x7a;

/// How far an ASCII lower-case letter lies above its upper-case letter.
pub const CASE_GAP: u8 = 0x20;

/// The ASCII letter `E`.
pub const UPPER_E: u8 = 0x45;

/// The ASCII letter `G`.
pub const UPPER_G: u8 = 0x47;

/// The ASCII letter `S`.
pub const UPPER_S: u8 = 0x53;

/// The ASCII letter `T`.
pub const UPPER_T: u8 = 0x54;

/// An ASCII lower-case letter as its upper-case letter; any other byte as it
/// is.
pub open spec fn ascii_upper(byte: u8) -> u8 {
    if LOWER_A <= byte <= LOWER_Z {
        (byte - CASE_GAP) as u8
    } else {
        byte
    }
}

/// Whether `name` spells the three upper-case letters given, in any mix of
/// upper and lower case.
pub open spec fn spells(name: Seq<u8>, first: u8, second: u8, third: u8) -> bool {
    &&& name.len() == 3
    &&& ascii_upper(name[0]) == first
    &&& ascii_upper(name[1]) == second
    &&& ascii_upper(name[2]) == third
}

/// Whether `name` is `GET`, in any mix of upper and lower case.
pub open spec fn names_get(name: Seq<u8>) -> bool {
    spells(name, UPPER_G, UPPER_E, UPPER_T)
}

/// Whether `name` is `SET`, in any mix of upper and lower case.
pub open spec fn names_set(name: Seq<u8>) -> bool {
    spells(name, UPPER_S, UPPER_E, UPPER_T)
}

/// The key that an element of a command frame gives: the text of a bulk
/// string.
pub open spec fn decode_key(item: FrameView) -> Result<Seq<char>, DecodeError> {
    match item {
        FrameView::Bulk(data) => if valid_utf8(data) {
            Ok(decode_utf8(data))
        } else {
            Err(DecodeError::InvalidString)
        },
        _ => Err(DecodeError::NotBulk),
    }
}

/// The command that the elements of a `GET` frame give.
pub open spec fn decode_get(items: Seq<FrameView>) -> Result<CommandView, DecodeError> {
    if items.len() != 2 {
        Err(DecodeError::WrongArity)
    } else {
        match decode_key(items[1]) {
            Ok(key) => Ok(CommandView::Get { key }),
            Err(error) => Err(error),
        }
    }
}

/// The command that the elements of a `SET` frame give.
pub open spec fn decode_set(items: Seq<FrameView>) -> Result<CommandView, DecodeError> {
    if items.len() != 3 {
        Err(DecodeError::WrongArity)
    } else {
        match decode_key(items[1]) {
            Ok(key) => match items[2] {
                FrameView::Bulk(value) => Ok(CommandView::SetValue { key, value }),
                _ => Err(DecodeError::NotBulk),
            },
            Err(error) => Err(error),
        }
    }
}

/// The command that a frame gives, or why it gives none. A command frame is
/// an array of bulk strings whose first element names the command.
pub open spec fn decode(frame: FrameView) -> Result<CommandView, DecodeError> {
    match frame {
        FrameView::Array(items) => if items.len() == 0 {
            Err(DecodeError::Empty)
        } else {
            match items[0] {
                FrameView::Bulk(name) => if names_get(name) {
                    decode_get(items)
                } else if names_set(name) {
                    decode_set(items)
                } else if valid_utf8(name) {
                    Ok(CommandView::Unsupported { name: decode_utf8(name) })
                } else {
                    Err(DecodeError::InvalidString)
                },
                _ => Err(DecodeError::NotBulk),
            }
        },
        _ => Err(DecodeError::NotArray),
    }
}

/// `std::str::from_utf8`: the bytes as text, where they are valid UTF-8, and
/// `None` where they are not. Believed, not proved; validity is that of
/// `vstd::utf8`.
#[verifier::external_body]
pub(crate) fn text_of(bytes: &[u8]) -> (text: Option<&str>)
    ensures
        text is Some <==> valid_utf8(bytes@),
        text matches Some(found) ==> found.spec_bytes() == bytes@,
{
    std::str::from_utf8(bytes).ok()
}

fn to_ascii_upper(byte: u8) -> (upper: u8)
    ensures
        upper == ascii_upper(byte),
{
    if LOWER_A <= byte && byte <= LOWER_Z {
        byte - CASE_GAP
    } else {
        byte
    }
}

fn spells_word(name: &[u8], first: u8, second: u8, third: u8) -> (same: bool)
    ensures
        same == spells(name@, first, second, third),
{
    name.len() == 3 && to_ascii_upper(name[0]) == first && to_ascii_upper(name[1]) == second
        && to_ascii_upper(name[2]) == third
}

/// Reads a key from an element of a command frame.
fn key_from(item: &Frame) -> (key: Result<String, DecodeError>)
    ensures
        key matches Ok(text) ==> decode_key(item@) == Ok::<Seq<char>, DecodeError>(text@),
        key matches Err(error) ==> decode_key(item@) == Err::<Seq<char>, DecodeError>(error),
{
    match item {
        Frame::Bulk(data) => match text_of(bytes_as_slice(data)) {
            Some(text) => {
                proof {
                    encode_utf8_decode_utf8(text@);
                }
                Ok(text.to_owned())
            },
            None => Err(DecodeError::InvalidString),
        },
        _ => Err(DecodeError::NotBulk),
    }
}

impl Command {
    /// Whether a decoding gave what `decode` says of the frame.
    pub open spec fn decoded_as(
        decoded: Result<Command, DecodeError>,
        expected: Result<CommandView, DecodeError>,
    ) -> bool {
        match decoded {
            Ok(command) => expected == Ok::<CommandView, DecodeError>(command@),
            Err(error) => expected == Err::<CommandView, DecodeError>(error),
        }
    }

    /// Decodes a frame into a command. The name of the command is matched
    /// without regard to case; `GET` takes a key, `SET` a key and a value, and
    /// any other name gives `Unsupported`, whatever follows it.
    pub fn from_frame(frame: Frame) -> (decoded: Result<Command, DecodeError>)
        ensures
            Command::decoded_as(decoded, decode(frame@)),
    {
        match &frame {
            Frame::Array(items) => {
                proof {
                    lemma_array_view(*items);
                }
                if items.len() == 0 {
                    return Err(DecodeError::Empty);
                }
                match &items[0] {
                    Frame::Bulk(data) => {
                        let name = bytes_as_slice(data);
                        if spells_word(name, UPPER_G, UPPER_E, UPPER_T) {
                            if items.len() != 2 {
                                return Err(DecodeError::WrongArity);
                            }
                            match key_from(&items[1]) {
                                Ok(key) => Ok(Command::Get { key }),
                                Err(error) => Err(error),
                            }
                        } else if spells_word(name, UPPER_S, UPPER_E, UPPER_T) {
                            if items.len() != 3 {
                                return Err(DecodeError::WrongArity);
                            }
                            match key_from(&items[1]) {
                                Ok(key) => match &items[2] {
                                    Frame::Bulk(value) => Ok(
                                        Command::SetValue { key, value: value.clone() },
                                    ),
                                    _ => Err(DecodeError::NotBulk),
                                },
                                Err(error) => Err(error),
                            }
                        } else {
                            match text_of(name) {
                                Some(text) => {
                                    proof {
                                        encode_utf8_decode_utf8(text@);
                                    }
                                    Ok(Command::Unsupported { name: text.to_owned() })
                                },
                                None => Err(DecodeError::InvalidString),
                            }
                        }
                    },
                    _ => Err(DecodeError::NotBulk),
                }
            },
            _ => Err(DecodeError::NotArray),
        }
    }

    /// The key that the command reads or writes, where it has one.
    pub fn key(&self) -> (key: Option<&str>)
        ensures
            key is Some <==> key_of(self@) is Some,
            key matches Some(found) ==> key_of(self@) == Some(found@),
    {
        match self {
            Command::Get { key } => Some(key.as_str()),
            Command::SetValue { key, .. } => Some(key.as_str()),
            Command::Unsupported { .. } => None,
        }
    }
}

} // verus!
