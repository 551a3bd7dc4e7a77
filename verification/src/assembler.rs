//! The consumer state machine that waits for one shader text of each stage.

use vstd::prelude::*;
use crate::channel::{Channel, Entry};
use crate::message::{Delivery, DeliveryView, MessageView, ShaderMessage, ShaderStage};

verus! {

/// Progress of the assembler. It only moves forward, and `Complete` is final.
#[derive(Clone, Copy, Debug, PartialEq, Eq, Structural)]
pub enum AssemblerState {
    WaitingBoth,
    HaveVertexOnly,
    HaveFragmentOnly,
    Complete,
}

/// What the driver of the assembler does next.
#[derive(Clone, Copy, Debug, PartialEq, Eq, Structural)]
pub enum AssemblerAction {
    /// Still short of a text: receive again.
    Receive,
    /// Both texts are in: leave the loop and build the program.
    Build,
    /// The stream ended before both texts arrived: stop with a diagnostic.
    Abort,
    /// Already complete: the event was dropped.
    Idle,
}

/// The texts stored so far, as mathematical values.
pub struct AssemblerView {
    pub vertex: Option<Seq<char>>,
    pub fragment: Option<Seq<char>>,
}

impl AssemblerView {
    /// Nothing stored yet.
    pub open spec fn empty() -> AssemblerView {
        AssemblerView { vertex: None, fragment: None }
    }

    /// Both texts are in.
    pub open spec fn complete(self) -> bool {
        self.vertex is Some && self.fragment is Some
    }

    /// The state that the stored texts amount to.
    pub open spec fn state(self) -> AssemblerState {
        if self.vertex is Some {
            if self.fragment is Some {
                AssemblerState::Complete
            } else {
                AssemblerState::HaveVertexOnly
            }
        } else if self.fragment is Some {
            AssemblerState::HaveFragmentOnly
        } else {
            AssemblerState::WaitingBoth
        }
    }

    /// One message: stored under its tag, the newer text replacing an older
    /// one; dropped once both texts are in.
    pub open spec fn accept(self, m: MessageView) -> AssemblerView {
        if self.complete() {
            self
        } else {
            match m.stage {
                ShaderStage::Vertex => AssemblerView { vertex: Some(m.text), fragment: self.fragment },
                ShaderStage::Fragment => AssemblerView { vertex: self.vertex, fragment: Some(m.text) },
            }
        }
    }

    /// The messages of `msgs` taken one after the other.
    pub open spec fn run(self, msgs: Seq<MessageView>) -> AssemblerView
        decreases msgs.len(),
    {
        if msgs.len() == 0 {
            self
        } else {
            self.run(msgs.drop_last()).accept(msgs.last())
        }
    }

    /// How many of the messages of `msgs` moved the assembler into `Complete`.
    pub open spec fn completions(self, msgs: Seq<MessageView>) -> nat
        decreases msgs.len(),
    {
        if msgs.len() == 0 {
            0
        } else {
            let before = self.run(msgs.drop_last());
            let entered: nat = if !before.complete() && before.accept(msgs.last()).complete() {
                1
            } else {
                0
            };
            self.completions(msgs.drop_last()) + entered
        }
    }

    /// The action that follows a delivery in this state.
    pub open spec fn action(self, d: DeliveryView) -> AssemblerAction {
        if self.complete() {
            AssemblerAction::Idle
        } else {
            match d {
                DeliveryView::Message(m) => if self.accept(m).complete() {
                    AssemblerAction::Build
                } else {
                    AssemblerAction::Receive
                },
                DeliveryView::EndOfStream => AssemblerAction::Abort,
            }
        }
    }

    /// The stored texts after a delivery in this state.
    pub open spec fn after(self, d: DeliveryView) -> AssemblerView {
        match d {
            DeliveryView::Message(m) => self.accept(m),
            DeliveryView::EndOfStream => self,
        }
    }
}

/// Whether some message of `msgs` carries the tag `stage`.
pub open spec fn mentions(msgs: Seq<MessageView>, stage: ShaderStage) -> bool {
    exists|i: int| 0 <= i < msgs.len() && (#[trigger] msgs[i]).stage == stage
}

/// The messages that the entries carry, in their order.
pub open spec fn messages_of(entries: Seq<Entry>) -> Seq<MessageView> {
    entries.map_values(|e: Entry| e.message)
}

/// What one pass over the channel did.
#[derive(Clone, Copy, Debug, PartialEq, Eq, Structural)]
pub struct DrainReport {
    /// How many messages were taken from the channel.
    pub consumed: usize,
    /// What the driver does next.
    pub action: AssemblerAction,
}

/// The two shader texts of a completed assembly. Only a complete assembler
/// hands one out, so whoever holds it may build the program.
#[derive(Debug)]
pub struct ShaderSources {
    vertex: String,
    fragment: String,
}

impl ShaderSources {
    /// The vertex shader's text.
    pub closed spec fn vertex_text(&self) -> Seq<char> {
        self.vertex@
    }

    /// The fragment shader's text.
    pub closed spec fn fragment_text(&self) -> Seq<char> {
        self.fragment@
    }

    /// The text of the given stage.
    pub open spec fn text_of(&self, stage: ShaderStage) -> Seq<char> {
        match stage {
            ShaderStage::Vertex => self.vertex_text(),
            ShaderStage::Fragment => self.fragment_text(),
        }
    }

    /// The source text of the given stage.
    pub fn source(&self, stage: ShaderStage) -> (t: &str)
        ensures
            t@ == self.text_of(stage),
    {
        match stage {
            ShaderStage::Vertex => self.vertex.as_str(),
            ShaderStage::Fragment => self.fragment.as_str(),
        }
    }
}

/// Collects one vertex and one fragment text from a stream of messages.
#[derive(Debug)]
pub struct Assembler {
    vertex: Option<String>,
    fragment: Option<String>,
}

impl View for Assembler {
    type V = AssemblerView;

    closed spec fn view(&self) -> AssemblerView {
        AssemblerView {
            vertex: match self.vertex {
                Some(s) => Some(s@),
                None => None,
            },
            fragment: match self.fragment {
                Some(s) => Some(s@),
                None => None,
            },
        }
    }
}

impl Assembler {
    /// An assembler that has received nothing.
    pub fn new() -> (a: Assembler)
        ensures
            a@ == AssemblerView::empty(),
            a@.state() == AssemblerState::WaitingBoth,
    {
        Assembler { vertex: None, fragment: None }
    }

    /// The current state.
    pub fn state(&self) -> (s: AssemblerState)
        ensures
            s == self@.state(),
    {
        match (&self.vertex, &self.fragment) {
            (Some(_), Some(_)) => AssemblerState::Complete,
            (Some(_), None) => AssemblerState::HaveVertexOnly,
            (None, Some(_)) => AssemblerState::HaveFragmentOnly,
            (None, None) => AssemblerState::WaitingBoth,
        }
    }

    /// Whether both texts are in.
    pub fn is_complete(&self) -> (b: bool)
        ensures
            b == self@.complete(),
    {
        self.vertex.is_some() && self.fragment.is_some()
    }

    /// Takes one delivery from the channel and says what to do next.
    ///
    /// A message is stored under its tag, replacing an earlier text of the
    /// same tag. The message that brings the second tag completes the
    /// assembly. The end of the stream before that is fatal. After completion
    /// nothing changes any more.
    pub fn step(&mut self, delivery: Delivery) -> (action: AssemblerAction)
        ensures
            action == old(self)@.action(delivery@),
            final(self)@ == if old(self)@.complete() {
                old(self)@
            } else {
                old(self)@.after(delivery@)
            },
            action == AssemblerAction::Build <==> !old(self)@.complete() && final(self)@.complete(),
    {
        if self.is_complete() {
            return AssemblerAction::Idle;
        }
        match delivery {
            Delivery::EndOfStream => AssemblerAction::Abort,
            Delivery::Message(message) => {
                match message {
                    ShaderMessage::Vertex(text) => {
                        self.vertex = Some(text);
                    },
                    ShaderMessage::Fragment(text) => {
                        self.fragment = Some(text);
                    },
                }
                if self.is_complete() {
                    AssemblerAction::Build
                } else {
                    AssemblerAction::Receive
                }
            },
        }
    }

    /// Takes messages from the channel, oldest first, until both texts are
    /// in or nothing waits any more.
    ///
    /// It stops at the message that completes the assembly and leaves later
    /// ones in the channel. With the queue empty and the assembly incomplete
    /// the answer is `Receive` while a sender is left (suspend, then drain
    /// again), and `Abort` when none is.
    pub fn drain(&mut self, channel: &mut Channel) -> (report: DrainReport)
        requires
            old(channel).wf(),
        ensures
            final(channel).wf(),
            final(channel).capacity_spec() == old(channel).capacity_spec(),
            final(channel).opened() == old(channel).opened(),
            final(channel).live() == old(channel).live(),
            final(channel).accepted() == old(channel).accepted(),
            report.consumed <= old(channel).pending().len(),
            final(channel).pending() == old(channel).pending().skip(report.consumed as int),
            final(channel).delivered() == old(channel).delivered() + old(channel).pending().take(
                report.consumed as int,
            ),
            final(self)@ == old(self)@.run(
                messages_of(old(channel).pending().take(report.consumed as int)),
            ),
            forall|k: int|
                0 <= k < report.consumed ==> !(#[trigger] old(self)@.run(
                    messages_of(old(channel).pending().take(k)),
                )).complete(),
            !final(self)@.complete() ==> report.consumed == old(channel).pending().len(),
            report.action == if old(self)@.complete() {
                AssemblerAction::Idle
            } else if final(self)@.complete() {
                AssemblerAction::Build
            } else if old(channel).live() == 0 {
                AssemblerAction::Abort
            } else {
                AssemblerAction::Receive
            },
    {
        let ghost start = self@;
        let ghost waiting = channel.pending();
        let ghost before = channel.delivered();
        proof {
            assert(waiting.take(0) =~= Seq::<Entry>::empty());
            assert(messages_of(waiting.take(0)) =~= Seq::<MessageView>::empty());
            assert(waiting.skip(0) =~= waiting);
            assert(before + waiting.take(0) =~= before);
        }
        if self.is_complete() {
            return DrainReport { consumed: 0, action: AssemblerAction::Idle };
        }
        let waiting_count: usize = channel.len();
        let mut consumed: usize = 0;
        loop
            invariant
                channel.wf(),
                channel.capacity_spec() == old(channel).capacity_spec(),
                channel.opened() == old(channel).opened(),
                channel.live() == old(channel).live(),
                channel.accepted() == old(channel).accepted(),
                start == old(self)@,
                waiting == old(channel).pending(),
                before == old(channel).delivered(),
                waiting_count == waiting.len(),
                consumed <= waiting.len(),
                channel.pending() == waiting.skip(consumed as int),
                channel.delivered() == before + waiting.take(consumed as int),
                self@ == start.run(messages_of(waiting.take(consumed as int))),
                !self@.complete(),
                !start.complete(),
                forall|k: int|
                    0 <= k < consumed ==> !(#[trigger] start.run(
                        messages_of(waiting.take(k)),
                    )).complete(),
            decreases waiting.len() - consumed,
        {
            let ghost stored = self@;
            match channel.receive() {
                None => {
                    return DrainReport { consumed, action: AssemblerAction::Receive };
                },
                Some(delivery) => {
                    let action = self.step(delivery);
                    match action {
                        AssemblerAction::Abort => {
                            return DrainReport { consumed, action };
                        },
                        AssemblerAction::Idle => {
                            return DrainReport { consumed, action };
                        },
                        _ => {
                            proof {
                                let c = consumed as int;
                                assert(waiting.skip(c).len() > 0);
                                let longer = messages_of(waiting.take(c + 1));
                                assert(longer.drop_last() =~= messages_of(waiting.take(c)));
                                assert(longer.last() == waiting[c].message);
                                assert(waiting.skip(c)[0] == waiting[c]);
                                assert(waiting.skip(c).drop_first() =~= waiting.skip(c + 1));
                                assert((before + waiting.take(c)).push(waiting[c]) =~= before
                                    + waiting.take(c + 1));
                                assert(self@ == start.run(longer));
                            }
                            consumed = consumed + 1;
                            if self.is_complete() {
                                return DrainReport { consumed, action: AssemblerAction::Build };
                            }
                        },
                    }
                },
            }
        }
    }

    /// Hands out the two texts, once both are in.
    pub fn into_sources(self) -> (r: Option<ShaderSources>)
        ensures
            r is Some <==> self@.complete(),
            r matches Some(s) ==> Some(s.vertex_text()) == self@.vertex && Some(s.fragment_text())
                == self@.fragment,
    {
        match (self.vertex, self.fragment) {
            (Some(vertex), Some(fragment)) => Some(ShaderSources { vertex, fragment }),
            _ => None,
        }
    }
}

/// A text of some stage is stored exactly when a message of that stage has
/// been taken.
pub proof fn lemma_stored_iff_mentioned(msgs: Seq<MessageView>)
    ensures
        AssemblerView::empty().run(msgs).vertex is Some <==> mentions(msgs, ShaderStage::Vertex),
        AssemblerView::empty().run(msgs).fragment is Some <==> mentions(
            msgs,
            ShaderStage::Fragment,
        ),
    decreases msgs.len(),
{
    if msgs.len() > 0 {
        let front = msgs.drop_last();
        lemma_stored_iff_mentioned(front);
        let last = msgs.last();
        assert forall|stage: ShaderStage|
            mentions(msgs, stage) <==> (mentions(front, stage) || last.stage == stage) by {
            if mentions(front, stage) {
                let i = choose|i: int| 0 <= i < front.len() && (#[trigger] front[i]).stage == stage;
                assert(msgs[i].stage == stage);
            }
            if last.stage == stage {
                assert(msgs[msgs.len() - 1].stage == stage);
            }
            if mentions(msgs, stage) {
                let i = choose|i: int| 0 <= i < msgs.len() && (#[trigger] msgs[i]).stage == stage;
                if i < msgs.len() - 1 {
                    assert(front[i].stage == stage);
                }
            }
        }
    }
}

/// The assembler enters `Complete` at most once, and it has entered it
/// exactly when it is complete.
pub proof fn lemma_completions(msgs: Seq<MessageView>)
    ensures
        AssemblerView::empty().completions(msgs) == if AssemblerView::empty().run(msgs).complete() {
            1nat
        } else {
            0nat
        },
    decreases msgs.len(),
{
    if msgs.len() > 0 {
        lemma_completions(msgs.drop_last());
    }
}

/// Whatever the order in which the loaders' messages arrive, a stream that
/// carries at least one vertex and one fragment text brings the assembler to
/// `Complete`, and it gets there exactly once.
pub proof fn lemma_completes_exactly_once(msgs: Seq<MessageView>)
    requires
        mentions(msgs, ShaderStage::Vertex),
        mentions(msgs, ShaderStage::Fragment),
    ensures
        AssemblerView::empty().run(msgs).state() == AssemblerState::Complete,
        AssemblerView::empty().completions(msgs) == 1,
{
    lemma_stored_iff_mentioned(msgs);
    lemma_completions(msgs);
}

/// A stream that lacks one of the two stages never completes the assembly.
pub proof fn lemma_incomplete_without_both(msgs: Seq<MessageView>)
    requires
        !mentions(msgs, ShaderStage::Vertex) || !mentions(msgs, ShaderStage::Fragment),
    ensures
        !AssemblerView::empty().run(msgs).complete(),
        AssemblerView::empty().completions(msgs) == 0,
{
    lemma_stored_iff_mentioned(msgs);
    lemma_completions(msgs);
}

/// The two arrival orders of one vertex and one fragment text end in the
/// same complete state, holding the same two texts.
pub proof fn lemma_arrival_order_irrelevant(vertex: Seq<char>, fragment: Seq<char>)
    ensures
        ({
            let v = MessageView { stage: ShaderStage::Vertex, text: vertex };
            let f = MessageView { stage: ShaderStage::Fragment, text: fragment };
            let done = AssemblerView { vertex: Some(vertex), fragment: Some(fragment) };
            &&& AssemblerView::empty().run(seq![v, f]) == done
            &&& AssemblerView::empty().run(seq![f, v]) == done
            &&& AssemblerView::empty().completions(seq![v, f]) == 1
            &&& AssemblerView::empty().completions(seq![f, v]) == 1
        }),
{
    let v = MessageView { stage: ShaderStage::Vertex, text: vertex };
    let f = MessageView { stage: ShaderStage::Fragment, text: fragment };
    let e = AssemblerView::empty();
    assert(seq![v, f].drop_last() =~= seq![v]);
    assert(seq![f, v].drop_last() =~= seq![f]);
    assert(seq![v].drop_last() =~= Seq::<MessageView>::empty());
    assert(seq![f].drop_last() =~= Seq::<MessageView>::empty());
    assert(e.run(Seq::<MessageView>::empty()) == e);
    assert(e.run(seq![v]) == e.accept(v));
    assert(e.run(seq![f]) == e.accept(f));
    assert(e.run(seq![v, f]) == e.accept(v).accept(f));
    assert(e.run(seq![f, v]) == e.accept(f).accept(v));
    lemma_completions(seq![v, f]);
    lemma_completions(seq![f, v]);
}

} // verus!
