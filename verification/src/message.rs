//! Tagged shader-source messages.

use vstd::prelude::*;

verus! {

/// The pipeline stage a shader text belongs to.
#[derive(Clone, Copy, Debug, PartialEq, Eq, Structural)]
pub enum ShaderStage {
    Vertex,
    Fragment,
}

/// One shader stage's source text, tagged with its stage.
#[derive(Debug)]
pub enum ShaderMessage {
    Vertex(String),
    Fragment(String),
}

/// Mathematical content of a message: its tag and its text.
pub struct MessageView {
    pub stage: ShaderStage,
    pub text: Seq<char>,
}

impl View for ShaderMessage {
    type V = MessageView;

    open spec fn view(&self) -> MessageView {
        match *self {
            ShaderMessage::Vertex(s) => MessageView { stage: ShaderStage::Vertex, text: s@ },
            ShaderMessage::Fragment(s) => MessageView { stage: ShaderStage::Fragment, text: s@ },
        }
    }
}

/// What a receive on the channel yields: a message, or the news that every
/// sender is gone and nothing is left.
#[derive(Debug)]
pub enum Delivery {
    Message(ShaderMessage),
    EndOfStream,
}

/// Mathematical content of a delivery.
pub enum DeliveryView {
    Message(MessageView),
    EndOfStream,
}

impl View for Delivery {
    type V = DeliveryView;

    open spec fn view(&self) -> DeliveryView {
        match *self {
            Delivery::Message(m) => DeliveryView::Message(m@),
            Delivery::EndOfStream => DeliveryView::EndOfStream,
        }
    }
}

impl ShaderMessage {
    /// Wraps `text` under the tag `stage`.
    pub fn new(stage: ShaderStage, text: String) -> (m: ShaderMessage)
        ensures
            m@.stage == stage,
            m@.text == text@,
    {
        match stage {
            ShaderStage::Vertex => ShaderMessage::Vertex(text),
            ShaderStage::Fragment => ShaderMessage::Fragment(text),
        }
    }

    /// The tag of this message.
    pub fn stage(&self) -> (s: ShaderStage)
        ensures
            s == self@.stage,
    {
        match self {
            ShaderMessage::Vertex(_) => ShaderStage::Vertex,
            ShaderMessage::Fragment(_) => ShaderStage::Fragment,
        }
    }

    /// The source text carried by this message.
    pub fn text(&self) -> (t: &str)
        ensures
            t@ == self@.text,
    {
        match self {
            ShaderMessage::Vertex(s) => s.as_str(),
            ShaderMessage::Fragment(s) => s.as_str(),
        }
    }

    /// Consumes the message and hands out its text.
    pub fn into_text(self) -> (t: String)
        ensures
            t@ == self@.text,
    {
        match self {
            ShaderMessage::Vertex(s) => s,
            ShaderMessage::Fragment(s) => s,
        }
    }

    /// An independent copy with the same tag and text.
    pub fn duplicate(&self) -> (m: ShaderMessage)
        ensures
            m@ == self@,
    {
        match self {
            ShaderMessage::Vertex(s) => ShaderMessage::Vertex(s.clone()),
            ShaderMessage::Fragment(s) => ShaderMessage::Fragment(s.clone()),
        }
    }
}

impl Clone for ShaderMessage {
    fn clone(&self) -> (m: ShaderMessage)
        ensures
            m@ == self@,
    {
        self.duplicate()
    }
}

} // verus!
