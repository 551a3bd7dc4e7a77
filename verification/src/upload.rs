//! The buffer upload routine: allocate, bind, upload, and unbind on every
//! path.

use vstd::prelude::*;
use crate::builder::BoundProgram;

verus! {

/// The binding point that a buffer is bound to.
#[derive(Clone, Copy, Debug, PartialEq, Eq, Structural)]
pub enum BufferTarget {
    /// Vertex records.
    Array,
    /// Indices.
    ElementArray,
}

/// The host's number for a buffer object that it allocated.
#[derive(Clone, Copy, Debug, PartialEq, Eq, Structural)]
pub struct BufferId(pub u32);

/// What the host does on the graphics context for the routine.
#[derive(Clone, Copy, Debug, PartialEq, Eq, Structural)]
pub enum UploadCommand {
    /// Allocate a buffer object. Answer: `Created` or `Failed`.
    CreateBuffer,
    /// Bind the buffer to the target. Answer: `Done` or `Failed`.
    Bind { target: BufferTarget, buffer: BufferId },
    /// Upload the whole data view to the target, for static use. Answer:
    /// `Done` or `Failed`.
    Upload { target: BufferTarget, buffer: BufferId },
    /// Bind nothing to the target. Answer: `Done` or `Failed`.
    Unbind { target: BufferTarget },
    /// The routine is over: nothing to do.
    Return,
}

/// What the host reports back after a command.
#[derive(Clone, Copy, Debug, PartialEq, Eq, Structural)]
pub enum UploadEvent {
    Created(BufferId),
    Done,
    Failed,
}

/// Why the routine gave no buffer.
#[derive(Clone, Copy, Debug, PartialEq, Eq, Structural)]
pub enum UploadError {
    /// The context gave no buffer object.
    BufferUnavailable,
    /// Binding the buffer failed.
    BindFailed,
    /// The upload of the data failed.
    UploadFailed,
}

/// Where the routine stands.
#[derive(Clone, Copy, Debug, PartialEq, Eq)]
pub enum UploadPhase {
    Creating,
    Binding(BufferId),
    Uploading(BufferId),
    /// The unbind is under way; the routine will return this.
    Releasing(Result<BufferId, UploadError>),
    /// The routine has returned this.
    Finished(Result<BufferId, UploadError>),
}

/// What is bound to `target` after `command`, if `bound` was bound before.
pub open spec fn binding_after(
    bound: Option<BufferId>,
    target: BufferTarget,
    command: UploadCommand,
) -> Option<BufferId> {
    match command {
        UploadCommand::Bind { target: t, buffer } => if t == target {
            Some(buffer)
        } else {
            bound
        },
        UploadCommand::Unbind { target: t } => if t == target {
            None
        } else {
            bound
        },
        _ => bound,
    }
}

/// What is bound to `target` after the commands `commands`, in their order.
pub open spec fn binding_after_all(
    bound: Option<BufferId>,
    target: BufferTarget,
    commands: Seq<UploadCommand>,
) -> Option<BufferId>
    decreases commands.len(),
{
    if commands.len() == 0 {
        bound
    } else {
        binding_after(
            binding_after_all(bound, target, commands.drop_last()),
            target,
            commands.last(),
        )
    }
}

/// The phase after one answer of the host.
///
/// Whatever fails, the unbind still follows: a failure only changes what
/// the routine returns.
pub open spec fn upload_step(phase: UploadPhase, event: UploadEvent) -> UploadPhase {
    match phase {
        UploadPhase::Creating => match event {
            UploadEvent::Created(buffer) => UploadPhase::Binding(buffer),
            _ => UploadPhase::Releasing(Err(UploadError::BufferUnavailable)),
        },
        UploadPhase::Binding(buffer) => match event {
            UploadEvent::Failed => UploadPhase::Releasing(Err(UploadError::BindFailed)),
            _ => UploadPhase::Uploading(buffer),
        },
        UploadPhase::Uploading(buffer) => match event {
            UploadEvent::Failed => UploadPhase::Releasing(Err(UploadError::UploadFailed)),
            _ => UploadPhase::Releasing(Ok(buffer)),
        },
        UploadPhase::Releasing(result) => UploadPhase::Finished(result),
        UploadPhase::Finished(result) => UploadPhase::Finished(result),
    }
}

/// The command that a phase waits on.
pub open spec fn upload_command(target: BufferTarget, phase: UploadPhase) -> UploadCommand {
    match phase {
        UploadPhase::Creating => UploadCommand::CreateBuffer,
        UploadPhase::Binding(buffer) => UploadCommand::Bind { target, buffer },
        UploadPhase::Uploading(buffer) => UploadCommand::Upload { target, buffer },
        UploadPhase::Releasing(_) => UploadCommand::Unbind { target },
        UploadPhase::Finished(_) => UploadCommand::Return,
    }
}

/// One run of the upload routine on one target.
///
/// Beside its phase it keeps, as ghost state, every command it has issued.
pub struct BufferUpload {
    target: BufferTarget,
    phase: UploadPhase,
    issued: Ghost<Seq<UploadCommand>>,
}

impl BufferUpload {
    /// The binding point that the routine works on.
    pub closed spec fn target_spec(&self) -> BufferTarget {
        self.target
    }

    /// Where the routine stands.
    pub closed spec fn phase_spec(&self) -> UploadPhase {
        self.phase
    }

    /// The commands issued so far, in their order.
    pub closed spec fn issued(&self) -> Seq<UploadCommand> {
        self.issued@
    }

    /// The last command issued is the one the phase waits on, and once the
    /// unbind is issued the commands leave the target unbound, whatever was
    /// bound to it at the start.
    pub closed spec fn wf(&self) -> bool {
        &&& self.issued@.len() > 0
        &&& self.issued@.last() == upload_command(self.target, self.phase)
        &&& (self.phase is Finished ==> forall|bound: Option<BufferId>|
            (#[trigger] binding_after_all(bound, self.target, self.issued@)) is None)
    }

    /// Starts the routine on `target`. The first command is the allocation
    /// of the buffer object. Uploads belong to scene setup, so they are only
    /// to be had for a bound program.
    pub fn begin(program: &BoundProgram, target: BufferTarget) -> (r: (BufferUpload, UploadCommand))
        ensures
            r.0.wf(),
            r.0.target_spec() == target,
            r.0.phase_spec() == UploadPhase::Creating,
            r.0.issued() == seq![UploadCommand::CreateBuffer],
            r.1 == UploadCommand::CreateBuffer,
    {
        let upload = BufferUpload {
            target,
            phase: UploadPhase::Creating,
            issued: Ghost(Seq::empty().push(UploadCommand::CreateBuffer)),
        };
        assert(upload.issued@ =~= seq![UploadCommand::CreateBuffer]);
        (upload, UploadCommand::CreateBuffer)
    }

    /// Takes the host's answer to the last command and returns the next
    /// command.
    pub fn advance(&mut self, event: UploadEvent) -> (command: UploadCommand)
        requires
            old(self).wf(),
        ensures
            final(self).wf(),
            final(self).target_spec() == old(self).target_spec(),
            final(self).phase_spec() == upload_step(old(self).phase_spec(), event),
            command == upload_command(final(self).target_spec(), final(self).phase_spec()),
            final(self).issued() == old(self).issued().push(command),
    {
        let next = match self.phase {
            UploadPhase::Creating => match event {
                UploadEvent::Created(buffer) => UploadPhase::Binding(buffer),
                _ => UploadPhase::Releasing(Err(UploadError::BufferUnavailable)),
            },
            UploadPhase::Binding(buffer) => match event {
                UploadEvent::Failed => UploadPhase::Releasing(Err(UploadError::BindFailed)),
                _ => UploadPhase::Uploading(buffer),
            },
            UploadPhase::Uploading(buffer) => match event {
                UploadEvent::Failed => UploadPhase::Releasing(Err(UploadError::UploadFailed)),
                _ => UploadPhase::Releasing(Ok(buffer)),
            },
            UploadPhase::Releasing(result) => UploadPhase::Finished(result),
            UploadPhase::Finished(result) => UploadPhase::Finished(result),
        };
        let command = match next {
            UploadPhase::Creating => UploadCommand::CreateBuffer,
            UploadPhase::Binding(buffer) => UploadCommand::Bind { target: self.target, buffer },
            UploadPhase::Uploading(buffer) => UploadCommand::Upload { target: self.target, buffer },
            UploadPhase::Releasing(_) => UploadCommand::Unbind { target: self.target },
            UploadPhase::Finished(_) => UploadCommand::Return,
        };
        proof {
            let before = self.issued@;
            let after = before.push(command);
            assert(after.drop_last() =~= before);
            assert(after.last() == command);
            if next is Finished {
                assert forall|bound: Option<BufferId>|
                    (#[trigger] binding_after_all(bound, self.target, after)) is None by {
                    if self.phase is Finished {
                        assert(binding_after_all(bound, self.target, before) is None);
                    } else {
                        let earlier = before.drop_last();
                        assert(before.last() == UploadCommand::Unbind { target: self.target });
                        assert(binding_after_all(bound, self.target, before) == binding_after(
                            binding_after_all(bound, self.target, earlier),
                            self.target,
                            before.last(),
                        ));
                    }
                }
            }
            self.issued@ = after;
        }
        self.phase = next;
        command
    }

    /// The current phase.
    pub fn phase(&self) -> (p: UploadPhase)
        ensures
            p == self.phase_spec(),
    {
        self.phase
    }

    /// The binding point that the routine works on.
    pub fn target(&self) -> (t: BufferTarget)
        ensures
            t == self.target_spec(),
    {
        self.target
    }

    /// What the routine returned: the buffer, or why there is none. `None`
    /// while the routine is still under way.
    pub fn result(&self) -> (r: Option<Result<BufferId, UploadError>>)
        ensures
            r == match self.phase_spec() {
                UploadPhase::Finished(result) => Some(result),
                _ => None,
            },
    {
        match self.phase {
            UploadPhase::Finished(result) => Some(result),
            _ => None,
        }
    }
}

/// Once the routine has returned, with a buffer or with an error, nothing is
/// bound to its target, whatever was bound there when it began.
pub proof fn lemma_unbound_on_return(upload: BufferUpload, bound: Option<BufferId>)
    requires
        upload.wf(),
        upload.phase_spec() is Finished,
    ensures
        binding_after_all(bound, upload.target_spec(), upload.issued()) is None,
{
}

/// The routine returns after at most five answers, whatever they are.
pub proof fn lemma_returns_within_five(
    e1: UploadEvent,
    e2: UploadEvent,
    e3: UploadEvent,
    e4: UploadEvent,
    e5: UploadEvent,
)
    ensures
        upload_step(
            upload_step(
                upload_step(upload_step(upload_step(UploadPhase::Creating, e1), e2), e3),
                e4,
            ),
            e5,
        ) is Finished,
{
}

} // verus!
