//! The life of one viewer run as a state machine.
//!
//! A run first performs a fixed list of preparation steps. Then it loops:
//! it checks whether the window was asked to close and, if not, goes
//! through the steps of a frame, from clearing the buffers to polling the
//! events. The driver performs the [`Action`] that [`Session::pending`]
//! names and reports what happened as an [`Event`]; [`Session::advance`]
//! decides what comes next. Any failure is final: once a run has failed,
//! the only action it will ever name again is [`Action::Abort`].

use vstd::prelude::*;

verus! {

/// The preparation steps, in the order in which they are performed.
#[derive(Clone, Copy, Debug, PartialEq, Eq)]
pub enum Setup {
    /// Read the model file and assemble its sub-meshes into one mesh.
    LoadMesh,
    /// Read the image file and decode it into a texture.
    LoadTexture,
    /// Open the window with its OpenGL 3.3 core context.
    OpenWindow,
    /// Upload the vertices to a buffer.
    CreateVertexBuffer,
    /// Upload the indices to a buffer.
    CreateIndexBuffer,
    /// Bind both buffers into a vertex array and describe the layout.
    CreateVertexArray,
    /// Compile and link the shader program.
    BuildShader,
    /// Upload the texture and generate its mipmaps.
    CreateTexture,
}

/// The steps of one frame, in the order in which they are performed.
#[derive(Clone, Copy, Debug, PartialEq, Eq)]
pub enum FrameStep {
    /// Clear the color and depth buffers and set the viewport to the
    /// framebuffer size last seen.
    Clear,
    /// Bind the shader program.
    BindProgram,
    /// Upload the model, view and projection matrices as they are now.
    UploadUniforms,
    /// Bind the vertex array and the texture.
    BindGeometry,
    /// Issue one indexed draw call for all indices.
    Draw,
    /// Build the overlay and draw it on top.
    Overlay,
    /// Read the API's error code and report it as `ErrorCode`.
    CheckError,
    /// Swap the buffers.
    Present,
    /// Poll the events, hand them on, read the framebuffer's size and
    /// report it as `Polled`.
    PollEvents,
}

/// Why a run was given up.
#[derive(Clone, Copy, Debug, PartialEq, Eq)]
pub enum Failure {
    /// A buffer, texture, program, window or context could not be obtained.
    ResourceCreation,
    /// Shader text was rejected by the compiler or the linker.
    CompileOrLink,
    /// An image or mesh file could not be read or parsed.
    AssetDecode,
    /// The error check after a draw reported this non-zero code.
    RuntimeApi(u32),
}

/// Where a run stands.
#[derive(Clone, Copy, Debug, PartialEq, Eq)]
pub enum Phase {
    /// Waiting for the outcome of a preparation step.
    Preparing(Setup),
    /// Running, at the top of an iteration: waiting to learn whether the
    /// window was asked to close.
    Checking,
    /// Running, within a frame: waiting for the outcome of one of its
    /// steps.
    Framing(FrameStep),
    /// The window was asked to close; the run is over.
    Closing,
    /// The run was given up.
    Failed(Failure),
}

/// What the driver has to do next.
#[derive(Clone, Copy, Debug, PartialEq, Eq)]
pub enum Action {
    /// Perform this preparation step and report `Done` or `Broken`.
    Prepare(Setup),
    /// Read the window's close flag and report it as `CloseFlag`.
    CheckClose,
    /// Perform this step of the frame, for a framebuffer of the given size,
    /// and report `Done`, or what the step says it reports.
    Frame { step: FrameStep, width: i32, height: i32 },
    /// Leave the loop; the process ends normally.
    Exit,
    /// Stop at once with a diagnostic and a non-zero status.
    Abort(Failure),
}

/// What the driver reports back.
#[derive(Clone, Copy, Debug, PartialEq, Eq)]
pub enum Event {
    /// What was asked for was done, and there is nothing to tell about it.
    Done,
    /// Something failed.
    Broken(Failure),
    /// The window's close flag, as read at the top of an iteration.
    CloseFlag(bool),
    /// The API's error code as read after the draw, zero for none.
    ErrorCode(u32),
    /// The events were polled; the framebuffer now has this size.
    Polled { width: i32, height: i32 },
}

/// The state of a run: its phase and the framebuffer size last seen.
#[derive(Clone, Copy, Debug, PartialEq, Eq)]
pub struct Session {
    pub phase: Phase,
    pub width: i32,
    pub height: i32,
}

impl Setup {
    /// The step that follows this one, or `None` after the last.
    pub open spec fn spec_next(self) -> Option<Setup> {
        match self {
            Setup::LoadMesh => Some(Setup::LoadTexture),
            Setup::LoadTexture => Some(Setup::OpenWindow),
            Setup::OpenWindow => Some(Setup::CreateVertexBuffer),
            Setup::CreateVertexBuffer => Some(Setup::CreateIndexBuffer),
            Setup::CreateIndexBuffer => Some(Setup::CreateVertexArray),
            Setup::CreateVertexArray => Some(Setup::BuildShader),
            Setup::BuildShader => Some(Setup::CreateTexture),
            Setup::CreateTexture => None,
        }
    }

    /// The step's place in the list, counted from zero.
    pub open spec fn rank(self) -> nat {
        match self {
            Setup::LoadMesh => 0,
            Setup::LoadTexture => 1,
            Setup::OpenWindow => 2,
            Setup::CreateVertexBuffer => 3,
            Setup::CreateIndexBuffer => 4,
            Setup::CreateVertexArray => 5,
            Setup::BuildShader => 6,
            Setup::CreateTexture => 7,
        }
    }

    /// The kind of failure that this step ends in when what it needs cannot
    /// be had: a file that cannot be read or parsed for the two loading
    /// steps, rejected shader text for the shader build, and a resource that
    /// cannot be obtained for the others.
    pub open spec fn spec_failure(self) -> Failure {
        match self {
            Setup::LoadMesh => Failure::AssetDecode,
            Setup::LoadTexture => Failure::AssetDecode,
            Setup::BuildShader => Failure::CompileOrLink,
            _ => Failure::ResourceCreation,
        }
    }

    /// The kind of failure to report when this step fails.
    pub fn failure(self) -> (f: Failure)
        ensures
            f == self.spec_failure(),
    {
        match self {
            Setup::LoadMesh => Failure::AssetDecode,
            Setup::LoadTexture => Failure::AssetDecode,
            Setup::BuildShader => Failure::CompileOrLink,
            _ => Failure::ResourceCreation,
        }
    }

    /// The step that follows this one, or `None` after the last.
    pub fn next(self) -> (r: Option<Setup>)
        ensures
            r == self.spec_next(),
    {
        match self {
            Setup::LoadMesh => Some(Setup::LoadTexture),
            Setup::LoadTexture => Some(Setup::OpenWindow),
            Setup::OpenWindow => Some(Setup::CreateVertexBuffer),
            Setup::CreateVertexBuffer => Some(Setup::CreateIndexBuffer),
            Setup::CreateIndexBuffer => Some(Setup::CreateVertexArray),
            Setup::CreateVertexArray => Some(Setup::BuildShader),
            Setup::BuildShader => Some(Setup::CreateTexture),
            Setup::CreateTexture => None,
        }
    }
}

impl FrameStep {
    /// The step that follows this one, or `None` after the last.
    pub open spec fn spec_next(self) -> Option<FrameStep> {
        match self {
            FrameStep::Clear => Some(FrameStep::BindProgram),
            FrameStep::BindProgram => Some(FrameStep::UploadUniforms),
            FrameStep::UploadUniforms => Some(FrameStep::BindGeometry),
            FrameStep::BindGeometry => Some(FrameStep::Draw),
            FrameStep::Draw => Some(FrameStep::Overlay),
            FrameStep::Overlay => Some(FrameStep::CheckError),
            FrameStep::CheckError => Some(FrameStep::Present),
            FrameStep::Present => Some(FrameStep::PollEvents),
            FrameStep::PollEvents => None,
        }
    }

    /// The step's place in the frame, counted from zero.
    pub open spec fn rank(self) -> nat {
        match self {
            FrameStep::Clear => 0,
            FrameStep::BindProgram => 1,
            FrameStep::UploadUniforms => 2,
            FrameStep::BindGeometry => 3,
            FrameStep::Draw => 4,
            FrameStep::Overlay => 5,
            FrameStep::CheckError => 6,
            FrameStep::Present => 7,
            FrameStep::PollEvents => 8,
        }
    }

    /// Whether the step has nothing to tell: it is reported as `Done`. The
    /// error check and the polling of events report what they found.
    pub open spec fn is_plain(self) -> bool {
        !(self is CheckError) && !(self is PollEvents)
    }

    /// The step that follows this one, or `None` after the last.
    pub fn next(self) -> (r: Option<FrameStep>)
        ensures
            r == self.spec_next(),
    {
        match self {
            FrameStep::Clear => Some(FrameStep::BindProgram),
            FrameStep::BindProgram => Some(FrameStep::UploadUniforms),
            FrameStep::UploadUniforms => Some(FrameStep::BindGeometry),
            FrameStep::BindGeometry => Some(FrameStep::Draw),
            FrameStep::Draw => Some(FrameStep::Overlay),
            FrameStep::Overlay => Some(FrameStep::CheckError),
            FrameStep::CheckError => Some(FrameStep::Present),
            FrameStep::Present => Some(FrameStep::PollEvents),
            FrameStep::PollEvents => None,
        }
    }
}

impl Phase {
    /// A run in a terminal phase never leaves it.
    pub open spec fn is_terminal(self) -> bool {
        self is Closing || self is Failed
    }

    /// The phases in which the loop is running.
    pub open spec fn is_running(self) -> bool {
        self is Checking || self is Framing
    }
}

impl Session {
    /// The state that follows `self` when `event` is reported.
    ///
    /// A terminal state stays as it is. Otherwise a `Broken` report fails
    /// the run whatever the phase; every other report is acted on only in
    /// the phase that asked for it and is ignored elsewhere.
    pub open spec fn spec_advance(self, event: Event) -> Session {
        if self.phase.is_terminal() {
            self
        } else {
            match event {
                Event::Broken(failure) => Session { phase: Phase::Failed(failure), ..self },
                Event::Done => match self.phase {
                    Phase::Preparing(step) => match step.spec_next() {
                        Some(following) => Session { phase: Phase::Preparing(following), ..self },
                        None => Session { phase: Phase::Checking, ..self },
                    },
                    Phase::Framing(step) => match step.spec_next() {
                        Some(following) if step.is_plain() => Session {
                            phase: Phase::Framing(following),
                            ..self
                        },
                        _ => self,
                    },
                    _ => self,
                },
                Event::CloseFlag(requested) => match self.phase {
                    Phase::Checking => if requested {
                        Session { phase: Phase::Closing, ..self }
                    } else {
                        Session { phase: Phase::Framing(FrameStep::Clear), ..self }
                    },
                    _ => self,
                },
                Event::ErrorCode(code) => match self.phase {
                    Phase::Framing(FrameStep::CheckError) => if code != 0 {
                        Session { phase: Phase::Failed(Failure::RuntimeApi(code)), ..self }
                    } else {
                        Session { phase: Phase::Framing(FrameStep::Present), ..self }
                    },
                    _ => self,
                },
                Event::Polled { width, height } => match self.phase {
                    Phase::Framing(FrameStep::PollEvents) => Session {
                        phase: Phase::Checking,
                        width,
                        height,
                    },
                    _ => self,
                },
            }
        }
    }

    /// The action that a run in state `self` is waiting for.
    pub open spec fn spec_pending(self) -> Action {
        match self.phase {
            Phase::Preparing(step) => Action::Prepare(step),
            Phase::Checking => Action::CheckClose,
            Phase::Framing(step) => Action::Frame { step, width: self.width, height: self.height },
            Phase::Closing => Action::Exit,
            Phase::Failed(failure) => Action::Abort(failure),
        }
    }

    /// The state reached from `self` after the events of `events`, in order.
    pub open spec fn run(self, events: Seq<Event>) -> Session
        decreases events.len(),
    {
        if events.len() == 0 {
            self
        } else {
            self.run(events.drop_last()).spec_advance(events.last())
        }
    }

    /// The state in which every run starts.
    pub open spec fn spec_new(width: i32, height: i32) -> Session {
        Session { phase: Phase::Preparing(Setup::LoadMesh), width, height }
    }

    /// A run about to load its mesh, for a window of the given size.
    pub fn new(width: i32, height: i32) -> (s: Session)
        ensures
            s == Session::spec_new(width, height),
    {
        Session { phase: Phase::Preparing(Setup::LoadMesh), width, height }
    }

    /// The action the driver has to perform now.
    pub fn pending(&self) -> (a: Action)
        ensures
            a == self.spec_pending(),
    {
        match self.phase {
            Phase::Preparing(step) => Action::Prepare(step),
            Phase::Checking => Action::CheckClose,
            Phase::Framing(step) => Action::Frame { step, width: self.width, height: self.height },
            Phase::Closing => Action::Exit,
            Phase::Failed(failure) => Action::Abort(failure),
        }
    }

    /// Takes in what the driver reports.
    pub fn advance(&mut self, event: Event)
        ensures
            *final(self) == old(self).spec_advance(event),
    {
        match self.phase {
            Phase::Closing => {},
            Phase::Failed(_) => {},
            Phase::Preparing(step) => match event {
                Event::Broken(failure) => {
                    self.phase = Phase::Failed(failure);
                },
                Event::Done => match step.next() {
                    Some(following) => {
                        self.phase = Phase::Preparing(following);
                    },
                    None => {
                        self.phase = Phase::Checking;
                    },
                },
                _ => {},
            },
            Phase::Checking => match event {
                Event::Broken(failure) => {
                    self.phase = Phase::Failed(failure);
                },
                Event::CloseFlag(requested) => {
                    if requested {
                        self.phase = Phase::Closing;
                    } else {
                        self.phase = Phase::Framing(FrameStep::Clear);
                    }
                },
                _ => {},
            },
            Phase::Framing(step) => match event {
                Event::Broken(failure) => {
                    self.phase = Phase::Failed(failure);
                },
                Event::ErrorCode(code) => match step {
                    FrameStep::CheckError => {
                        if code != 0 {
                            self.phase = Phase::Failed(Failure::RuntimeApi(code));
                        } else {
                            self.phase = Phase::Framing(FrameStep::Present);
                        }
                    },
                    _ => {},
                },
                Event::Polled { width, height } => match step {
                    FrameStep::PollEvents => {
                        self.phase = Phase::Checking;
                        self.width = width;
                        self.height = height;
                    },
                    _ => {},
                },
                Event::Done => match step {
                    FrameStep::CheckError => {},
                    FrameStep::PollEvents => {},
                    _ => match step.next() {
                        Some(following) => {
                            self.phase = Phase::Framing(following);
                        },
                        None => {},
                    },
                },
                _ => {},
            },
        }
    }
}

/// How many of `events` are `Done` reports.
pub open spec fn done_count(events: Seq<Event>) -> nat
    decreases events.len(),
{
    if events.len() == 0 {
        0
    } else {
        done_count(events.drop_last()) + if events.last() is Done {
            1nat
        } else {
            0nat
        }
    }
}

/// The reports of one frame that goes well and ends with the framebuffer
/// at the given size.
pub open spec fn good_frame(width: i32, height: i32) -> Seq<Event> {
    seq![
        Event::CloseFlag(false),
        Event::Done,
        Event::Done,
        Event::Done,
        Event::Done,
        Event::Done,
        Event::Done,
        Event::ErrorCode(0),
        Event::Done,
        Event::Polled { width, height },
    ]
}

/// The steps of a frame, in order.
pub open spec fn frame_steps() -> Seq<FrameStep> {
    seq![
        FrameStep::Clear,
        FrameStep::BindProgram,
        FrameStep::UploadUniforms,
        FrameStep::BindGeometry,
        FrameStep::Draw,
        FrameStep::Overlay,
        FrameStep::CheckError,
        FrameStep::Present,
        FrameStep::PollEvents,
    ]
}

/// A run that is over stays as it is, whatever is reported to it.
pub proof fn lemma_terminal_is_final(s: Session, events: Seq<Event>)
    requires
        s.phase.is_terminal(),
    ensures
        s.run(events) == s,
    decreases events.len(),
{
    if events.len() > 0 {
        lemma_terminal_is_final(s, events.drop_last());
    }
}

/// Running the first `n + 1` events is running the first `n` and then
/// taking in event `n`.
pub proof fn lemma_run_step(s: Session, events: Seq<Event>, n: int)
    requires
        0 <= n < events.len(),
    ensures
        s.run(events.take(n + 1)) == s.run(events.take(n)).spec_advance(events[n]),
{
    assert(events.take(n + 1).drop_last() == events.take(n));
}

/// Running a concatenation is running its parts one after the other.
pub proof fn lemma_run_append(s: Session, first: Seq<Event>, second: Seq<Event>)
    ensures
        s.run(first + second) == s.run(first).run(second),
    decreases second.len(),
{
    if second.len() == 0 {
        assert(first + second == first);
    } else {
        lemma_run_append(s, first, second.drop_last());
        assert((first + second).drop_last() == first + second.drop_last());
    }
}

/// A run never returns to preparation: if it is still preparing after a
/// number of events, it was preparing after every shorter prefix of them.
pub proof fn lemma_preparing_so_far(s: Session, events: Seq<Event>, n: int)
    requires
        0 <= n <= events.len(),
        s.run(events).phase is Preparing,
    ensures
        s.run(events.take(n)).phase is Preparing,
    decreases events.len(),
{
    if n == events.len() {
        assert(events.take(n) == events);
    } else {
        let shorter = events.drop_last();
        assert(shorter.take(n) == events.take(n));
        lemma_preparing_so_far(s, shorter, n);
    }
}

/// What a run that is not over tells about the events that led to it:
/// none of them reported a failure, a run that is preparing step number
/// `k` has seen exactly `k` steps done, and a run that is in its loop has
/// seen all eight done. Only a run in its loop asks for a step of a frame.
pub proof fn lemma_frames_need_full_preparation(width: i32, height: i32, events: Seq<Event>)
    ensures
        ({
            let s = Session::spec_new(width, height).run(events);
            &&& !s.phase.is_terminal() ==> forall|i: int|
                0 <= i < events.len() ==> !(#[trigger] events[i] is Broken)
            &&& s.phase matches Phase::Preparing(step) ==> done_count(events) == step.rank()
            &&& s.phase.is_running() ==> done_count(events) >= 8
            &&& s.spec_pending() is Frame ==> s.phase.is_running()
        }),
    decreases events.len(),
{
    if events.len() > 0 {
        let shorter = events.drop_last();
        lemma_frames_need_full_preparation(width, height, shorter);
        let before = Session::spec_new(width, height).run(shorter);
        let s = before.spec_advance(events.last());
        if !s.phase.is_terminal() {
            assert forall|i: int| 0 <= i < events.len() implies !(#[trigger] events[i] is Broken) by {
                if i < events.len() - 1 {
                    assert(events[i] == shorter[i]);
                }
            }
        }
    }
}

/// Fatal on failure: when a preparation step fails, no step of a frame is
/// ever asked for, neither before the failure nor after it, whatever else
/// is reported to the run; after the failure the run asks to abort.
pub proof fn lemma_no_frame_after_failed_preparation(
    width: i32,
    height: i32,
    events: Seq<Event>,
    at: int,
    n: int,
)
    requires
        0 <= at < events.len(),
        events[at] is Broken,
        Session::spec_new(width, height).run(events.take(at)).phase is Preparing,
        0 <= n <= events.len(),
    ensures
        !(Session::spec_new(width, height).run(events.take(n)).spec_pending() is Frame),
        n > at ==> Session::spec_new(width, height).run(events.take(n)).spec_pending()
            == Action::Abort(events[at]->Broken_0),
{
    let start = Session::spec_new(width, height);
    if n <= at {
        let prefix = events.take(at);
        assert(prefix.take(n) == events.take(n));
        lemma_preparing_so_far(start, prefix, n);
    } else {
        lemma_run_step(start, events, at);
        let failed = start.run(events.take(at + 1));
        assert(failed.phase == Phase::Failed(events[at]->Broken_0));
        let rest = events.subrange(at + 1, n);
        lemma_run_append(start, events.take(at + 1), rest);
        assert(events.take(at + 1) + rest == events.take(n));
        lemma_terminal_is_final(failed, rest);
    }
}

/// How a run gets from one phase to the next. A frame begins only when the
/// close flag was read and found unset. A later step of a frame is reached
/// only from the step before it, when that was done; presenting, only when
/// the error check found no error, and an error found there fails the
/// run. The run closes only when the close flag was read and found set.
/// The framebuffer size changes only when the events of a frame have been
/// polled, to the size read then.
pub proof fn lemma_step_order(s: Session, event: Event)
    ensures
        ({
            let next = s.spec_advance(event);
            &&& next.phase != s.phase && next.phase == Phase::Framing(FrameStep::Clear) ==> s.phase
                is Checking && event == Event::CloseFlag(false)
            &&& (next.phase != s.phase && next.phase is Framing && next.phase->Framing_0
                != FrameStep::Clear) ==> s.phase is Framing && s.phase->Framing_0.spec_next()
                == Some(next.phase->Framing_0) && event == (if s.phase->Framing_0
                == FrameStep::CheckError {
                Event::ErrorCode(0)
            } else {
                Event::Done
            })
            &&& (s.phase == Phase::Framing(FrameStep::CheckError) && event is ErrorCode
                && event->ErrorCode_0 != 0) ==> next.spec_pending() == Action::Abort(
                Failure::RuntimeApi(event->ErrorCode_0),
            )
            &&& next.phase != s.phase && next.phase is Closing ==> s.phase is Checking && event
                == Event::CloseFlag(true)
            &&& next.phase != s.phase && next.phase is Checking ==> (s.phase == Phase::Preparing(
                Setup::CreateTexture,
            ) && event == Event::Done) || (s.phase == Phase::Framing(FrameStep::PollEvents)
                && event is Polled)
            &&& (next.width != s.width || next.height != s.height) ==> s.phase == Phase::Framing(
                FrameStep::PollEvents,
            ) && event == (Event::Polled { width: next.width, height: next.height })
        }),
{
}

/// One iteration: from the top of the loop, the reports of a frame that
/// goes well lead through the nine steps of a frame in order, each asked
/// for with the size the framebuffer had at the top, and back to the top
/// of the loop with the size read when the events were polled.
pub proof fn lemma_one_iteration(s: Session, width: i32, height: i32, k: int)
    requires
        s.phase is Checking,
        0 <= k < 9,
    ensures
        s.run(good_frame(width, height).take(k + 1)).spec_pending() == (Action::Frame {
            step: frame_steps()[k],
            width: s.width,
            height: s.height,
        }),
        s.run(good_frame(width, height)) == (Session { phase: Phase::Checking, width, height }),
{
    let events = good_frame(width, height);
    lemma_good_frame_prefix(s, width, height, 10);
    assert(events.take(10) == events);
    lemma_good_frame_prefix(s, width, height, k + 1);
}

/// Where a run stands after the first `n` reports of a frame that goes
/// well.
proof fn lemma_good_frame_prefix(s: Session, width: i32, height: i32, n: int)
    requires
        s.phase is Checking,
        0 <= n <= 10,
    ensures
        ({
            let after = s.run(good_frame(width, height).take(n));
            &&& n == 0 ==> after == s
            &&& 1 <= n <= 9 ==> after == (Session {
                phase: Phase::Framing(frame_steps()[n - 1]),
                ..s
            })
            &&& n == 10 ==> after == (Session { phase: Phase::Checking, width, height })
        }),
    decreases n,
{
    let events = good_frame(width, height);
    if n > 0 {
        lemma_good_frame_prefix(s, width, height, n - 1);
        lemma_run_step(s, events, n - 1);
    } else {
        assert(events.take(0).len() == 0);
    }
}

} // verus!
