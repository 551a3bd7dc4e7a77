//! The pipeline builder: compiles the two shader texts, links them into a
//! program and binds it, one host command at a time.

use vstd::prelude::*;
use crate::assembler::ShaderSources;
use crate::message::ShaderStage;

verus! {

/// What the host does on the graphics context for the builder.
#[derive(Clone, Copy, Debug, PartialEq, Eq, Structural)]
pub enum BuildCommand {
    /// Allocate the shader object of this stage. Answer: `Created` or `Unavailable`.
    CreateShader(ShaderStage),
    /// Set the stage's source text on its shader object, compile it and
    /// query the compile status. Answer: `Status`.
    CompileShader(ShaderStage),
    /// Read the compiler's diagnostic log of this stage. Answer: `Log`.
    ReadCompileLog(ShaderStage),
    /// Allocate the program object. Answer: `Created` or `Unavailable`.
    CreateProgram,
    /// Attach both shaders, link, and query the link status. Answer: `Status`.
    LinkProgram,
    /// Read the linker's diagnostic log. Answer: `Log`.
    ReadLinkLog,
    /// Make the program the active one. Answer: `Done`.
    UseProgram,
    /// Nothing is left to do.
    Stop,
}

/// What the host reports back after a command.
#[derive(Debug)]
pub enum BuildEvent {
    Created,
    Unavailable,
    Status(bool),
    Log(String),
    Done,
}

/// Mathematical content of an event.
pub enum BuildEventView {
    Created,
    Unavailable,
    Status(bool),
    Log(Seq<char>),
    Done,
}

impl View for BuildEvent {
    type V = BuildEventView;

    open spec fn view(&self) -> BuildEventView {
        match *self {
            BuildEvent::Created => BuildEventView::Created,
            BuildEvent::Unavailable => BuildEventView::Unavailable,
            BuildEvent::Status(ok) => BuildEventView::Status(ok),
            BuildEvent::Log(text) => BuildEventView::Log(text@),
            BuildEvent::Done => BuildEventView::Done,
        }
    }
}

/// Why no program was bound.
#[derive(Debug)]
pub enum BuildError {
    /// The context gave no shader object for this stage.
    ShaderUnavailable(ShaderStage),
    /// The shader of this stage did not compile; `log` is the compiler's diagnostic.
    Compile { stage: ShaderStage, log: String },
    /// The context gave no program object.
    ProgramUnavailable,
    /// The program did not link; `log` is the linker's diagnostic.
    Link { log: String },
    /// The host answered a command with an event that does not fit it.
    UnexpectedEvent,
}

/// Mathematical content of a build error.
pub enum BuildErrorView {
    ShaderUnavailable(ShaderStage),
    Compile { stage: ShaderStage, log: Seq<char> },
    ProgramUnavailable,
    Link { log: Seq<char> },
    UnexpectedEvent,
}

impl View for BuildError {
    type V = BuildErrorView;

    open spec fn view(&self) -> BuildErrorView {
        match *self {
            BuildError::ShaderUnavailable(stage) => BuildErrorView::ShaderUnavailable(stage),
            BuildError::Compile { stage, log } => BuildErrorView::Compile { stage, log: log@ },
            BuildError::ProgramUnavailable => BuildErrorView::ProgramUnavailable,
            BuildError::Link { log } => BuildErrorView::Link { log: log@ },
            BuildError::UnexpectedEvent => BuildErrorView::UnexpectedEvent,
        }
    }
}

/// Where the build stands. Each phase but the last two waits for the answer
/// to one command.
#[derive(Clone, Copy, Debug, PartialEq, Eq, Structural)]
pub enum BuildPhase {
    CreatingShader(ShaderStage),
    Compiling(ShaderStage),
    ReadingCompileLog(ShaderStage),
    CreatingProgram,
    Linking,
    ReadingLinkLog,
    Binding,
    /// The program is linked and active.
    Bound,
    /// The build stopped with an error.
    Failed,
}

/// The phase together with the error that ended the build, if one did.
pub struct BuilderView {
    pub phase: BuildPhase,
    pub error: Option<BuildErrorView>,
}

/// The command that a phase waits on.
pub open spec fn command_for(phase: BuildPhase) -> BuildCommand {
    match phase {
        BuildPhase::CreatingShader(stage) => BuildCommand::CreateShader(stage),
        BuildPhase::Compiling(stage) => BuildCommand::CompileShader(stage),
        BuildPhase::ReadingCompileLog(stage) => BuildCommand::ReadCompileLog(stage),
        BuildPhase::CreatingProgram => BuildCommand::CreateProgram,
        BuildPhase::Linking => BuildCommand::LinkProgram,
        BuildPhase::ReadingLinkLog => BuildCommand::ReadLinkLog,
        BuildPhase::Binding => BuildCommand::UseProgram,
        BuildPhase::Bound => BuildCommand::Stop,
        BuildPhase::Failed => BuildCommand::Stop,
    }
}

/// A build that stopped with `error`.
pub open spec fn failed_with(error: BuildErrorView) -> BuilderView {
    BuilderView { phase: BuildPhase::Failed, error: Some(error) }
}

/// A build that goes on in `phase`.
pub open spec fn going(phase: BuildPhase) -> BuilderView {
    BuilderView { phase, error: None }
}

/// The build after one answer of the host.
///
/// Both shader objects are allocated, then each is compiled, vertex first;
/// a failed compile has its log read and ends the build with that log. Then
/// the program is allocated and linked; a failed link has its log read and
/// ends the build with it. Only a linked program is bound. An answer that
/// does not fit the awaited command ends the build; a finished build stays
/// as it is.
pub open spec fn build_step(b: BuilderView, event: BuildEventView) -> BuilderView {
    match b.phase {
        BuildPhase::CreatingShader(stage) => match event {
            BuildEventView::Created => match stage {
                ShaderStage::Vertex => going(BuildPhase::CreatingShader(ShaderStage::Fragment)),
                ShaderStage::Fragment => going(BuildPhase::Compiling(ShaderStage::Vertex)),
            },
            BuildEventView::Unavailable => failed_with(BuildErrorView::ShaderUnavailable(stage)),
            _ => failed_with(BuildErrorView::UnexpectedEvent),
        },
        BuildPhase::Compiling(stage) => match event {
            BuildEventView::Status(true) => match stage {
                ShaderStage::Vertex => going(BuildPhase::Compiling(ShaderStage::Fragment)),
                ShaderStage::Fragment => going(BuildPhase::CreatingProgram),
            },
            BuildEventView::Status(false) => going(BuildPhase::ReadingCompileLog(stage)),
            _ => failed_with(BuildErrorView::UnexpectedEvent),
        },
        BuildPhase::ReadingCompileLog(stage) => match event {
            BuildEventView::Log(log) => failed_with(BuildErrorView::Compile { stage, log }),
            _ => failed_with(BuildErrorView::UnexpectedEvent),
        },
        BuildPhase::CreatingProgram => match event {
            BuildEventView::Created => going(BuildPhase::Linking),
            BuildEventView::Unavailable => failed_with(BuildErrorView::ProgramUnavailable),
            _ => failed_with(BuildErrorView::UnexpectedEvent),
        },
        BuildPhase::Linking => match event {
            BuildEventView::Status(true) => going(BuildPhase::Binding),
            BuildEventView::Status(false) => going(BuildPhase::ReadingLinkLog),
            _ => failed_with(BuildErrorView::UnexpectedEvent),
        },
        BuildPhase::ReadingLinkLog => match event {
            BuildEventView::Log(log) => failed_with(BuildErrorView::Link { log }),
            _ => failed_with(BuildErrorView::UnexpectedEvent),
        },
        BuildPhase::Binding => match event {
            BuildEventView::Done => going(BuildPhase::Bound),
            _ => failed_with(BuildErrorView::UnexpectedEvent),
        },
        BuildPhase::Bound => b,
        BuildPhase::Failed => b,
    }
}

/// The build after the answers `events`, taken one after the other.
pub open spec fn build_run(b: BuilderView, events: Seq<BuildEventView>) -> BuilderView
    decreases events.len(),
{
    if events.len() == 0 {
        b
    } else {
        build_step(build_run(b, events.drop_last()), events.last())
    }
}

/// How many commands of the successful path lie behind a phase.
pub open spec fn progress(phase: BuildPhase) -> nat {
    match phase {
        BuildPhase::CreatingShader(ShaderStage::Vertex) => 0,
        BuildPhase::CreatingShader(ShaderStage::Fragment) => 1,
        BuildPhase::Compiling(ShaderStage::Vertex) => 2,
        BuildPhase::Compiling(ShaderStage::Fragment) => 3,
        BuildPhase::CreatingProgram => 4,
        BuildPhase::Linking => 5,
        BuildPhase::Binding => 6,
        BuildPhase::Bound => 7,
        BuildPhase::ReadingCompileLog(_) => 0,
        BuildPhase::ReadingLinkLog => 0,
        BuildPhase::Failed => 0,
    }
}

/// Proof that a program was linked and bound. Only a builder in phase
/// `Bound` hands one out, so whoever holds it may set up the scene and draw.
#[derive(Debug)]
pub struct BoundProgram {
    sealed: (),
}

/// The build of one program from the two shader texts.
#[derive(Debug)]
pub struct PipelineBuilder {
    sources: ShaderSources,
    phase: BuildPhase,
    error: Option<BuildError>,
}

impl View for PipelineBuilder {
    type V = BuilderView;

    closed spec fn view(&self) -> BuilderView {
        BuilderView {
            phase: self.phase,
            error: match self.error {
                Some(e) => Some(e@),
                None => None,
            },
        }
    }
}

impl PipelineBuilder {
    /// The phase is `Failed` exactly when an error is recorded.
    pub open spec fn wf(&self) -> bool {
        self@.phase == BuildPhase::Failed <==> self@.error is Some
    }

    /// The texts that this builder compiles.
    pub closed spec fn sources(&self) -> ShaderSources {
        self.sources
    }

    /// Starts a build from the texts of a completed assembly. The first
    /// command is the allocation of the vertex shader object.
    pub fn begin(sources: ShaderSources) -> (r: (PipelineBuilder, BuildCommand))
        ensures
            r.0.wf(),
            r.0.sources() == sources,
            r.0@ == going(BuildPhase::CreatingShader(ShaderStage::Vertex)),
            r.1 == BuildCommand::CreateShader(ShaderStage::Vertex),
    {
        let builder = PipelineBuilder {
            sources,
            phase: BuildPhase::CreatingShader(ShaderStage::Vertex),
            error: None,
        };
        (builder, BuildCommand::CreateShader(ShaderStage::Vertex))
    }

    /// The current phase.
    pub fn phase(&self) -> (p: BuildPhase)
        ensures
            p == self@.phase,
    {
        self.phase
    }

    /// The source text that a `CompileShader` command of `stage` sets.
    pub fn source(&self, stage: ShaderStage) -> (t: &str)
        ensures
            t@ == self.sources().text_of(stage),
    {
        self.sources.source(stage)
    }

    /// Takes the host's answer to the last command and returns the next
    /// command.
    pub fn advance(&mut self, event: BuildEvent) -> (command: BuildCommand)
        requires
            old(self).wf(),
        ensures
            final(self).wf(),
            final(self).sources() == old(self).sources(),
            final(self)@ == build_step(old(self)@, event@),
            command == command_for(final(self)@.phase),
    {
        let phase = self.phase;
        match phase {
            BuildPhase::Bound => { return BuildCommand::Stop; },
            BuildPhase::Failed => { return BuildCommand::Stop; },
            _ => {},
        }
        let outcome: Result<BuildPhase, BuildError> = match phase {
            BuildPhase::CreatingShader(stage) => match event {
                BuildEvent::Created => match stage {
                    ShaderStage::Vertex => Ok(BuildPhase::CreatingShader(ShaderStage::Fragment)),
                    ShaderStage::Fragment => Ok(BuildPhase::Compiling(ShaderStage::Vertex)),
                },
                BuildEvent::Unavailable => Err(BuildError::ShaderUnavailable(stage)),
                _ => Err(BuildError::UnexpectedEvent),
            },
            BuildPhase::Compiling(stage) => match event {
                BuildEvent::Status(ok) => if ok {
                    match stage {
                        ShaderStage::Vertex => Ok(BuildPhase::Compiling(ShaderStage::Fragment)),
                        ShaderStage::Fragment => Ok(BuildPhase::CreatingProgram),
                    }
                } else {
                    Ok(BuildPhase::ReadingCompileLog(stage))
                },
                _ => Err(BuildError::UnexpectedEvent),
            },
            BuildPhase::ReadingCompileLog(stage) => match event {
                BuildEvent::Log(log) => Err(BuildError::Compile { stage, log }),
                _ => Err(BuildError::UnexpectedEvent),
            },
            BuildPhase::CreatingProgram => match event {
                BuildEvent::Created => Ok(BuildPhase::Linking),
                BuildEvent::Unavailable => Err(BuildError::ProgramUnavailable),
                _ => Err(BuildError::UnexpectedEvent),
            },
            BuildPhase::Linking => match event {
                BuildEvent::Status(ok) => if ok {
                    Ok(BuildPhase::Binding)
                } else {
                    Ok(BuildPhase::ReadingLinkLog)
                },
                _ => Err(BuildError::UnexpectedEvent),
            },
            BuildPhase::ReadingLinkLog => match event {
                BuildEvent::Log(log) => Err(BuildError::Link { log }),
                _ => Err(BuildError::UnexpectedEvent),
            },
            BuildPhase::Binding => match event {
                BuildEvent::Done => Ok(BuildPhase::Bound),
                _ => Err(BuildError::UnexpectedEvent),
            },
            BuildPhase::Bound => Ok(BuildPhase::Bound),
            BuildPhase::Failed => Ok(BuildPhase::Failed),
        };
        match outcome {
            Ok(next) => {
                self.phase = next;
                command_of(next)
            },
            Err(error) => {
                self.phase = BuildPhase::Failed;
                self.error = Some(error);
                BuildCommand::Stop
            },
        }
    }

    /// Whether the build is over, one way or the other.
    pub fn is_finished(&self) -> (b: bool)
        ensures
            b == (self@.phase == BuildPhase::Bound || self@.phase == BuildPhase::Failed),
    {
        match self.phase {
            BuildPhase::Bound => true,
            BuildPhase::Failed => true,
            _ => false,
        }
    }

    /// Ends the build. A bound program gives the token that scene setup
    /// asks for; a failed build gives its error, with the diagnostic log
    /// where there is one; a build still under way gives `None`.
    pub fn finish(self) -> (r: Option<Result<BoundProgram, BuildError>>)
        requires
            self.wf(),
        ensures
            match self@.phase {
                BuildPhase::Bound => r matches Some(Ok(_)),
                BuildPhase::Failed => r matches Some(Err(e)) && Some(e@) == self@.error,
                _ => r is None,
            },
    {
        match self.phase {
            BuildPhase::Bound => Some(Ok(BoundProgram { sealed: () })),
            BuildPhase::Failed => match self.error {
                Some(e) => Some(Err(e)),
                None => None,
            },
            _ => None,
        }
    }
}

/// The command that a phase waits on.
pub fn command_of(phase: BuildPhase) -> (command: BuildCommand)
    ensures
        command == command_for(phase),
{
    match phase {
        BuildPhase::CreatingShader(stage) => BuildCommand::CreateShader(stage),
        BuildPhase::Compiling(stage) => BuildCommand::CompileShader(stage),
        BuildPhase::ReadingCompileLog(stage) => BuildCommand::ReadCompileLog(stage),
        BuildPhase::CreatingProgram => BuildCommand::CreateProgram,
        BuildPhase::Linking => BuildCommand::LinkProgram,
        BuildPhase::ReadingLinkLog => BuildCommand::ReadLinkLog,
        BuildPhase::Binding => BuildCommand::UseProgram,
        BuildPhase::Bound => BuildCommand::Stop,
        BuildPhase::Failed => BuildCommand::Stop,
    }
}

/// The answers of a build in which both shaders compile and the program
/// links, in their order.
pub open spec fn successful_answers() -> Seq<BuildEventView> {
    seq![
        BuildEventView::Created,
        BuildEventView::Created,
        BuildEventView::Status(true),
        BuildEventView::Status(true),
        BuildEventView::Created,
        BuildEventView::Status(true),
        BuildEventView::Done,
    ]
}

/// Whether a phase lies on the successful path.
pub open spec fn on_path(phase: BuildPhase) -> bool {
    match phase {
        BuildPhase::ReadingCompileLog(_) => false,
        BuildPhase::ReadingLinkLog => false,
        BuildPhase::Failed => false,
        _ => true,
    }
}

/// A phase of the successful path is entered only from the phase before it,
/// and only by the answer that the path has at that place.
pub proof fn lemma_step_on_path(b: BuilderView, event: BuildEventView)
    requires
        on_path(build_step(b, event).phase),
        b.phase != BuildPhase::Bound,
    ensures
        on_path(b.phase),
        progress(build_step(b, event).phase) == progress(b.phase) + 1,
        event == successful_answers()[progress(b.phase) as int],
{
}

/// A build is on the successful path only by the answers of that path: a
/// phase short of `Bound` has taken exactly the answers that lead to it, and
/// a bound build began with all seven of them. So no program is bound
/// unless both shaders compiled and the program linked.
pub proof fn lemma_bound_only_by_success(events: Seq<BuildEventView>)
    ensures
        ({
            let end = build_run(going(BuildPhase::CreatingShader(ShaderStage::Vertex)), events);
            let n = progress(end.phase) as int;
            &&& on_path(end.phase) ==> n <= events.len() && events.take(n)
                == successful_answers().take(n)
            &&& on_path(end.phase) && end.phase != BuildPhase::Bound ==> events.len() == n
            &&& events == successful_answers() ==> end.phase == BuildPhase::Bound
        }),
    decreases events.len(),
{
    let start = going(BuildPhase::CreatingShader(ShaderStage::Vertex));
    let end = build_run(start, events);
    let n = progress(end.phase) as int;
    let path = successful_answers();
    if events.len() == 0 {
        assert(events.take(0) =~= path.take(0));
    } else {
        let front = events.drop_last();
        let before = build_run(start, front);
        let m = progress(before.phase) as int;
        lemma_bound_only_by_success(front);
        if on_path(end.phase) {
            if before.phase == BuildPhase::Bound {
                assert(events.take(7) =~= front.take(7));
            } else {
                lemma_step_on_path(before, events.last());
                assert(front.take(m) =~= front);
                assert(events.take(n) =~= front.push(events.last()));
                assert(path.take(n) =~= path.take(m).push(path[m]));
            }
        }
    }
    if events == path {
        lemma_successful_answers_bind();
    }
}

/// Taking one more answer is one more step.
pub proof fn lemma_run_one_more(b: BuilderView, events: Seq<BuildEventView>, k: int)
    requires
        0 <= k < events.len(),
    ensures
        build_run(b, events.take(k + 1)) == build_step(build_run(b, events.take(k)), events[k]),
{
    assert(events.take(k + 1).drop_last() =~= events.take(k));
    assert(events.take(k + 1).last() == events[k]);
}

/// The answers of the successful path bind the program.
pub proof fn lemma_successful_answers_bind()
    ensures
        build_run(going(BuildPhase::CreatingShader(ShaderStage::Vertex)), successful_answers()).phase
            == BuildPhase::Bound,
{
    let start = going(BuildPhase::CreatingShader(ShaderStage::Vertex));
    let path = successful_answers();
    assert(path.take(0) =~= Seq::<BuildEventView>::empty());
    assert(build_run(start, path.take(0)) == start);
    lemma_run_one_more(start, path, 0);
    lemma_run_one_more(start, path, 1);
    lemma_run_one_more(start, path, 2);
    lemma_run_one_more(start, path, 3);
    lemma_run_one_more(start, path, 4);
    lemma_run_one_more(start, path, 5);
    lemma_run_one_more(start, path, 6);
    assert(build_run(start, path.take(1)).phase == BuildPhase::CreatingShader(ShaderStage::Fragment));
    assert(build_run(start, path.take(2)).phase == BuildPhase::Compiling(ShaderStage::Vertex));
    assert(build_run(start, path.take(3)).phase == BuildPhase::Compiling(ShaderStage::Fragment));
    assert(build_run(start, path.take(4)).phase == BuildPhase::CreatingProgram);
    assert(build_run(start, path.take(5)).phase == BuildPhase::Linking);
    assert(build_run(start, path.take(6)).phase == BuildPhase::Binding);
    assert(build_run(start, path.take(7)).phase == BuildPhase::Bound);
    assert(path.take(7) =~= path);
}

} // verus!
