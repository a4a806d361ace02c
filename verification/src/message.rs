//! The chat message that a reply is rendered into.

use vstd::prelude::*;

verus! {

/// Visual category of an attachment. It tells the two kinds of attachment
/// apart; it is no status.
#[derive(Clone, Copy, Debug, PartialEq, Eq, Structural)]
pub enum ColorTag {
    /// Marks the transactions attachment.
    Success,
    /// Marks the structured-data attachment.
    Info,
}

impl ColorTag {
    /// The colour as a 24-bit RGB number.
    pub open spec fn rgb_value(self) -> u32 {
        match self {
            ColorTag::Success => 0x00FF00,
            ColorTag::Info => 0x0000FF,
        }
    }

    /// The colour in which the chat platform shows an attachment with this
    /// tag: green for `Success`, blue for `Info`.
    pub fn rgb(&self) -> (c: u32)
        ensures
            c == self.rgb_value(),
    {
        match self {
            ColorTag::Success => 0x00FF00,
            ColorTag::Info => 0x0000FF,
        }
    }
}

/// A titled, coloured block of supplementary content.
#[derive(Clone, Debug, PartialEq, Eq)]
pub struct Attachment {
    pub title: String,
    pub body: String,
    pub color_tag: ColorTag,
}

/// Mathematical model of an [`Attachment`].
pub struct AttachmentView {
    pub title: Seq<char>,
    pub body: Seq<char>,
    pub color_tag: ColorTag,
}

impl View for Attachment {
    type V = AttachmentView;

    open spec fn view(&self) -> AttachmentView {
        AttachmentView { title: self.title@, body: self.body@, color_tag: self.color_tag }
    }
}

impl DeepView for Attachment {
    type V = AttachmentView;

    open spec fn deep_view(&self) -> AttachmentView {
        self@
    }
}

/// A chat message: its primary text, and attachments in display order.
#[derive(Clone, Debug, PartialEq, Eq)]
pub struct ChatMessage {
    pub text: String,
    pub attachments: Vec<Attachment>,
}

/// Mathematical model of a [`ChatMessage`].
pub struct ChatMessageView {
    pub text: Seq<char>,
    pub attachments: Seq<AttachmentView>,
}

impl View for ChatMessage {
    type V = ChatMessageView;

    open spec fn view(&self) -> ChatMessageView {
        ChatMessageView { text: self.text@, attachments: self.attachments.deep_view() }
    }
}

} // verus!
