//! The loader tasks: one per shader stage, each fetching one text and
//! handing it to the channel.

use vstd::prelude::*;
use crate::channel::{Channel, Entry};
use crate::message::{MessageView, ShaderMessage, ShaderStage};

verus! {

/// Why a shader text could not be acquired. Each of these is fatal.
#[derive(Clone, Copy, Debug, PartialEq, Eq, Structural)]
pub enum AcquisitionError {
    /// The fetch itself failed: not found, or a transport error.
    FetchFailed,
    /// What the fetch yielded is no response.
    NotAResponse,
    /// The response would not hand out its body.
    BodyUnavailable,
    /// Reading the body failed.
    BodyFailed,
    /// The body is no text.
    NotText,
}

/// How the fetch of one text resource ended.
#[derive(Debug)]
pub enum FetchOutcome {
    Text(String),
    Failed(AcquisitionError),
}

/// Where a loader stands.
#[derive(Debug)]
pub enum Loader {
    /// The fetch is under way.
    Fetching { stage: ShaderStage, sender: usize },
    /// The text is here and waits for a free slot in the channel.
    Sending { sender: usize, message: ShaderMessage },
    /// The message was accepted.
    Done,
    /// The text could not be had: the whole bootstrap stops.
    Failed(AcquisitionError),
}

/// Mathematical content of a loader.
pub enum LoaderView {
    Fetching { stage: ShaderStage, sender: usize },
    Sending { sender: usize, message: MessageView },
    Done,
    Failed(AcquisitionError),
}

impl View for Loader {
    type V = LoaderView;

    open spec fn view(&self) -> LoaderView {
        match *self {
            Loader::Fetching { stage, sender } => LoaderView::Fetching { stage, sender },
            Loader::Sending { sender, message } => LoaderView::Sending { sender, message: message@ },
            Loader::Done => LoaderView::Done,
            Loader::Failed(e) => LoaderView::Failed(e),
        }
    }
}

/// Host-relative path of the source text of a stage.
pub fn resource_path(stage: ShaderStage) -> (path: &'static str)
    ensures
        path@ == match stage {
            ShaderStage::Vertex => "../shader/vertex_shader.glsl"@,
            ShaderStage::Fragment => "../shader/fragment_shader.glsl"@,
        },
{
    match stage {
        ShaderStage::Vertex => "../shader/vertex_shader.glsl",
        ShaderStage::Fragment => "../shader/fragment_shader.glsl",
    }
}

impl Loader {
    /// A loader for `stage` that sends through the handle numbered `sender`.
    pub fn new(stage: ShaderStage, sender: usize) -> (l: Loader)
        ensures
            l@ == (LoaderView::Fetching { stage, sender }),
    {
        Loader::Fetching { stage, sender }
    }

    /// Takes the outcome of the fetch. A text is wrapped under the loader's
    /// tag and is then ready to send; any failure is final. A loader that is
    /// not fetching stays as it is.
    pub fn fetched(self, outcome: FetchOutcome) -> (next: Loader)
        ensures
            next@ == match self@ {
                LoaderView::Fetching { stage, sender } => match outcome {
                    FetchOutcome::Text(text) => LoaderView::Sending {
                        sender,
                        message: MessageView { stage, text: text@ },
                    },
                    FetchOutcome::Failed(e) => LoaderView::Failed(e),
                },
                other => other,
            },
    {
        match self {
            Loader::Fetching { stage, sender } => match outcome {
                FetchOutcome::Text(text) => Loader::Sending {
                    sender,
                    message: ShaderMessage::new(stage, text),
                },
                FetchOutcome::Failed(e) => Loader::Failed(e),
            },
            other => other,
        }
    }

    /// Offers the waiting message to the channel once. If a slot is free the
    /// message joins the queue and the loader is done; if not, the loader
    /// keeps the message and offers it again later. A loader with nothing to
    /// send stays as it is and leaves the channel alone.
    pub fn offer(self, channel: &mut Channel) -> (next: Loader)
        requires
            old(channel).wf(),
        ensures
            final(channel).wf(),
            final(channel).capacity_spec() == old(channel).capacity_spec(),
            final(channel).opened() == old(channel).opened(),
            final(channel).live() == old(channel).live(),
            final(channel).delivered() == old(channel).delivered(),
            match self@ {
                LoaderView::Sending { sender, message } => if old(channel).pending().len() < old(
                    channel,
                ).capacity_spec() {
                    let entry = Entry { sender, message };
                    &&& next@ == LoaderView::Done
                    &&& final(channel).pending() == old(channel).pending().push(entry)
                    &&& final(channel).accepted() == old(channel).accepted().push(entry)
                } else {
                    &&& next@ == self@
                    &&& final(channel).pending() == old(channel).pending()
                    &&& final(channel).accepted() == old(channel).accepted()
                },
                other => {
                    &&& next@ == other
                    &&& final(channel).pending() == old(channel).pending()
                    &&& final(channel).accepted() == old(channel).accepted()
                },
            },
    {
        match self {
            Loader::Sending { sender, message } => match channel.try_send(sender, message) {
                Ok(()) => Loader::Done,
                Err(back) => Loader::Sending { sender, message: back },
            },
            other => other,
        }
    }

    /// Whether the message was accepted by the channel.
    pub fn is_done(&self) -> (b: bool)
        ensures
            b == (self@ is Done),
    {
        match self {
            Loader::Done => true,
            _ => false,
        }
    }

    /// The failure that stopped this loader, if one did.
    pub fn failure(&self) -> (e: Option<AcquisitionError>)
        ensures
            e == match self@ {
                LoaderView::Failed(e) => Some(e),
                _ => None,
            },
    {
        match self {
            Loader::Failed(e) => Some(*e),
            _ => None,
        }
    }
}

} // verus!
