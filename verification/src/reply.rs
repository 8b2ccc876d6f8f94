//! What the bot posts into a room.

use vstd::prelude::*;

verus! {

/// The content of one outgoing message.
#[derive(Clone, Debug, PartialEq, Eq)]
pub enum ReplyContent {
    /// A plain text message.
    Text(String),
    /// An image that was uploaded before, named by the reference the upload
    /// returned, and the file name to show for it.
    Image { media: String, filename: String },
}

/// The mathematical content of a [`ReplyContent`].
pub ghost enum ReplyView {
    Text(Seq<char>),
    Image { media: Seq<char>, filename: Seq<char> },
}

impl View for ReplyContent {
    type V = ReplyView;

    open spec fn view(&self) -> ReplyView {
        match *self {
            ReplyContent::Text(text) => ReplyView::Text(text@),
            ReplyContent::Image { media, filename } => ReplyView::Image {
                media: media@,
                filename: filename@,
            },
        }
    }
}

/// How handing a message to the room ended.
#[derive(Clone, Copy, Debug, PartialEq, Eq, Structural)]
pub enum SendOutcome {
    Delivered,
    Rejected,
}

} // verus!
