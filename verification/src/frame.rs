//! Frames: the typed values that travel between a client and the server.

use crate::value::bytes_content;
use bytes::Bytes;
use vstd::prelude::*;

verus! {

/// One unit of the wire protocol.
#[derive(Debug, PartialEq, Eq)]
pub enum Frame {
    /// A short status line.
    Simple(String),
    /// An error message for the peer.
    Error(String),
    /// An unsigned number.
    Integer(u64),
    /// A byte string.
    Bulk(Bytes),
    /// The absent value.
    Null,
    /// A list of frames; a command is an array of bulk strings.
    Array(Vec<Frame>),
}

/// What a frame holds, as mathematical values.
pub enum FrameView {
    Simple(Seq<char>),
    Error(Seq<char>),
    Integer(u64),
    Bulk(Seq<u8>),
    Null,
    Array(Seq<FrameView>),
}

/// What `frame` holds: its text, number or bytes, and for an array what each
/// element holds.
pub open spec fn frame_view(frame: Frame) -> FrameView
    decreases frame,
{
    match frame {
        Frame::Simple(text) => FrameView::Simple(text@),
        Frame::Error(text) => FrameView::Error(text@),
        Frame::Integer(number) => FrameView::Integer(number),
        Frame::Bulk(data) => FrameView::Bulk(bytes_content(data)),
        Frame::Null => FrameView::Null,
        Frame::Array(items) => FrameView::Array(
            Seq::new(
                items@.len(),
                |index: int|
                    if 0 <= index < items@.len() {
                        frame_view(items@[index])
                    } else {
                        FrameView::Null
                    },
            ),
        ),
    }
}

/// An array frame holds what its elements hold, one for one.
pub proof fn lemma_array_view(items: Vec<Frame>)
    ensures
        Frame::Array(items)@ matches FrameView::Array(views) && views.len() == items@.len()
            && forall|index: int|
            0 <= index < items@.len() ==> views[index] == (#[trigger] items@[index])@,
{
}

impl View for Frame {
    type V = FrameView;

    open spec fn view(&self) -> FrameView {
        frame_view(*self)
    }
}

} // verus!
