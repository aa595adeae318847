//! Building a shader program as a state machine.
//!
//! A program is built from a vertex stage and a fragment stage in seven
//! steps. The driver performs the step that [`Build::pending`] names with
//! the graphics API and reports how it went; [`Build::advance`] decides what
//! follows. The first step that fails ends the build, and the error keeps
//! the compiler's or linker's text exactly as it was reported.

use vstd::prelude::*;
use crate::session::Failure;

verus! {

/// The two programmable stages of the pipeline.
#[derive(Clone, Copy, Debug, PartialEq, Eq)]
pub enum ShaderStage {
    Vertex,
    Fragment,
}

/// One step of a build.
#[derive(Clone, Copy, Debug, PartialEq, Eq)]
pub enum BuildStep {
    /// Create the shader object of a stage.
    CreateShader(ShaderStage),
    /// Hand the stage its source, compile it and read the compile status;
    /// on failure, report the shader's info log.
    Compile(ShaderStage),
    /// Create the program object.
    CreateProgram,
    /// Attach both shaders, link and read the link status; on failure,
    /// report the program's info log.
    Link,
    /// Delete both shader objects. Nothing can go wrong here.
    Release,
}

/// Why a build ended without a program.
#[derive(Debug, PartialEq, Eq)]
pub enum ShaderError {
    /// The shader object of a stage could not be created.
    ShaderCreation { stage: ShaderStage, detail: String },
    /// The program object could not be created.
    ProgramCreation { detail: String },
    /// A stage did not compile; `log` is the compiler's text.
    Compile { stage: ShaderStage, log: String },
    /// The program did not link; `log` is the linker's text.
    Link { log: String },
}

/// Where a build stands.
#[derive(Debug, PartialEq, Eq)]
pub enum Build {
    /// Waiting for the report of this step.
    Pending(BuildStep),
    /// The program is linked and the shaders are released.
    Linked,
    /// The build was given up.
    Failed(ShaderError),
}

impl BuildStep {
    /// The step that follows this one, or `None` after the last.
    pub open spec fn spec_next(self) -> Option<BuildStep> {
        match self {
            BuildStep::CreateShader(stage) => Some(BuildStep::Compile(stage)),
            BuildStep::Compile(ShaderStage::Vertex) => Some(
                BuildStep::CreateShader(ShaderStage::Fragment),
            ),
            BuildStep::Compile(ShaderStage::Fragment) => Some(BuildStep::CreateProgram),
            BuildStep::CreateProgram => Some(BuildStep::Link),
            BuildStep::Link => Some(BuildStep::Release),
            BuildStep::Release => None,
        }
    }

    /// The step's position in a build, counted from zero.
    pub open spec fn rank(self) -> nat {
        match self {
            BuildStep::CreateShader(ShaderStage::Vertex) => 0,
            BuildStep::Compile(ShaderStage::Vertex) => 1,
            BuildStep::CreateShader(ShaderStage::Fragment) => 2,
            BuildStep::Compile(ShaderStage::Fragment) => 3,
            BuildStep::CreateProgram => 4,
            BuildStep::Link => 5,
            BuildStep::Release => 6,
        }
    }

    /// The state a build is in when this step is reported to have failed
    /// with the given text. A release cannot fail, so its report is taken
    /// as success.
    pub open spec fn spec_rejected(self, text: String) -> Build {
        match self {
            BuildStep::CreateShader(stage) => Build::Failed(
                ShaderError::ShaderCreation { stage, detail: text },
            ),
            BuildStep::Compile(stage) => Build::Failed(ShaderError::Compile { stage, log: text }),
            BuildStep::CreateProgram => Build::Failed(
                ShaderError::ProgramCreation { detail: text },
            ),
            BuildStep::Link => Build::Failed(ShaderError::Link { log: text }),
            BuildStep::Release => Build::Linked,
        }
    }

    /// The state a build is in when this step is reported to have gone well.
    pub open spec fn spec_accepted(self) -> Build {
        match self.spec_next() {
            Some(following) => Build::Pending(following),
            None => Build::Linked,
        }
    }

    /// The step that follows this one, or `None` after the last.
    pub fn next(self) -> (r: Option<BuildStep>)
        ensures
            r == self.spec_next(),
    {
        match self {
            BuildStep::CreateShader(stage) => Some(BuildStep::Compile(stage)),
            BuildStep::Compile(ShaderStage::Vertex) => Some(
                BuildStep::CreateShader(ShaderStage::Fragment),
            ),
            BuildStep::Compile(ShaderStage::Fragment) => Some(BuildStep::CreateProgram),
            BuildStep::CreateProgram => Some(BuildStep::Link),
            BuildStep::Link => Some(BuildStep::Release),
            BuildStep::Release => None,
        }
    }
}

impl ShaderError {
    /// The diagnostic of this error as a sequence of characters: the
    /// compiler's or linker's text as it came, or a fixed sentence where an
    /// object could not be created.
    pub open spec fn spec_message(self) -> Seq<char> {
        match self {
            ShaderError::ShaderCreation { stage: ShaderStage::Vertex, .. } => {
                "Failed to create vertex shader"@
            },
            ShaderError::ShaderCreation { stage: ShaderStage::Fragment, .. } => {
                "Failed to create fragment shader"@
            },
            ShaderError::ProgramCreation { .. } => "Failed to create shader program"@,
            ShaderError::Compile { log, .. } => log@,
            ShaderError::Link { log } => log@,
        }
    }

    /// The kind of failure that this error is: rejected shader text, or an
    /// object that could not be obtained.
    pub open spec fn spec_failure(self) -> Failure {
        match self {
            ShaderError::Compile { .. } => Failure::CompileOrLink,
            ShaderError::Link { .. } => Failure::CompileOrLink,
            ShaderError::ShaderCreation { .. } => Failure::ResourceCreation,
            ShaderError::ProgramCreation { .. } => Failure::ResourceCreation,
        }
    }

    /// The kind of failure to report to the session for this error.
    pub fn failure(&self) -> (f: Failure)
        ensures
            f == self.spec_failure(),
    {
        match self {
            ShaderError::Compile { .. } => Failure::CompileOrLink,
            ShaderError::Link { .. } => Failure::CompileOrLink,
            ShaderError::ShaderCreation { .. } => Failure::ResourceCreation,
            ShaderError::ProgramCreation { .. } => Failure::ResourceCreation,
        }
    }

    /// The diagnostic to print when the build is given up.
    pub fn message(&self) -> (text: String)
        ensures
            text@ == self.spec_message(),
    {
        match self {
            ShaderError::ShaderCreation { stage: ShaderStage::Vertex, .. } => {
                "Failed to create vertex shader".to_owned()
            },
            ShaderError::ShaderCreation { stage: ShaderStage::Fragment, .. } => {
                "Failed to create fragment shader".to_owned()
            },
            ShaderError::ProgramCreation { .. } => "Failed to create shader program".to_owned(),
            ShaderError::Compile { log, .. } => log.clone(),
            ShaderError::Link { log } => log.clone(),
        }
    }
}

impl Build {
    /// The state in which every build starts.
    pub open spec fn spec_new() -> Build {
        Build::Pending(BuildStep::CreateShader(ShaderStage::Vertex))
    }

    /// The state that follows `self` when the pending step is reported to
    /// have gone well (`Ok`) or to have failed with a text (`Err`). A build
    /// that is over stays as it is.
    pub open spec fn spec_advance(self, report: Result<(), String>) -> Build {
        match self {
            Build::Pending(step) => match report {
                Ok(_) => step.spec_accepted(),
                Err(text) => step.spec_rejected(text),
            },
            _ => self,
        }
    }

    /// The state reached from `self` after the reports of `reports`, in order.
    pub open spec fn run(self, reports: Seq<Result<(), String>>) -> Build
        decreases reports.len(),
    {
        if reports.len() == 0 {
            self
        } else {
            self.run(reports.drop_last()).spec_advance(reports.last())
        }
    }

    /// A build about to create its vertex shader.
    pub fn new() -> (b: Build)
        ensures
            b == Build::spec_new(),
    {
        Build::Pending(BuildStep::CreateShader(ShaderStage::Vertex))
    }

    /// The step the driver has to perform now, or `None` when the build is
    /// over.
    pub fn pending(&self) -> (step: Option<BuildStep>)
        ensures
            step == (match *self {
                Build::Pending(s) => Some(s),
                _ => None,
            }),
    {
        match self {
            Build::Pending(s) => Some(*s),
            _ => None,
        }
    }

    /// Takes in the driver's report on the pending step.
    pub fn advance(self, report: Result<(), String>) -> (next: Build)
        ensures
            next == self.spec_advance(report),
    {
        match self {
            Build::Pending(step) => match report {
                Ok(_) => match step.next() {
                    Some(following) => Build::Pending(following),
                    None => Build::Linked,
                },
                Err(text) => match step {
                    BuildStep::CreateShader(stage) => Build::Failed(
                        ShaderError::ShaderCreation { stage, detail: text },
                    ),
                    BuildStep::Compile(stage) => Build::Failed(
                        ShaderError::Compile { stage, log: text },
                    ),
                    BuildStep::CreateProgram => Build::Failed(
                        ShaderError::ProgramCreation { detail: text },
                    ),
                    BuildStep::Link => Build::Failed(ShaderError::Link { log: text }),
                    BuildStep::Release => Build::Linked,
                },
            },
            Build::Linked => Build::Linked,
            Build::Failed(error) => Build::Failed(error),
        }
    }
}

/// A build that is over stays as it is, whatever is reported to it.
pub proof fn lemma_finished_is_final(b: Build, reports: Seq<Result<(), String>>)
    requires
        !(b is Pending),
    ensures
        b.run(reports) == b,
    decreases reports.len(),
{
    if reports.len() > 0 {
        lemma_finished_is_final(b, reports.drop_last());
    }
}

/// As long as every report is good, a build walks through its steps in
/// order: after `k` good reports it waits for step number `k`, and after
/// seven it is linked.
pub proof fn lemma_good_reports_walk_the_steps(reports: Seq<Result<(), String>>)
    requires
        reports.len() <= 7,
        forall|i: int| 0 <= i < reports.len() ==> #[trigger] reports[i] is Ok,
    ensures
        reports.len() < 7 ==> (Build::spec_new().run(reports) matches Build::Pending(step)
            && step.rank() == reports.len()),
        reports.len() == 7 ==> Build::spec_new().run(reports) == Build::Linked,
    decreases reports.len(),
{
    if reports.len() > 0 {
        let shorter = reports.drop_last();
        assert forall|i: int| 0 <= i < shorter.len() implies #[trigger] shorter[i] is Ok by {
            assert(shorter[i] == reports[i]);
        }
        lemma_good_reports_walk_the_steps(shorter);
    }
}

/// Fatal on the first failure: when the first bad report arrives for one
/// of the six steps that can fail, the build fails with that step's error,
/// which holds the reported text unchanged, and stays so.
pub proof fn lemma_first_failure_decides(reports: Seq<Result<(), String>>, at: int)
    requires
        0 <= at < reports.len(),
        at < 6,
        reports[at] is Err,
        forall|i: int| 0 <= i < at ==> #[trigger] reports[i] is Ok,
    ensures
        Build::spec_new().run(reports) matches Build::Failed(error) && ({
            let text = reports[at]->Err_0;
            &&& at == 0 ==> error == (ShaderError::ShaderCreation {
                stage: ShaderStage::Vertex,
                detail: text,
            })
            &&& at == 1 ==> error == (ShaderError::Compile { stage: ShaderStage::Vertex, log: text })
            &&& at == 2 ==> error == (ShaderError::ShaderCreation {
                stage: ShaderStage::Fragment,
                detail: text,
            })
            &&& at == 3 ==> error == (ShaderError::Compile {
                stage: ShaderStage::Fragment,
                log: text,
            })
            &&& at == 4 ==> error == (ShaderError::ProgramCreation { detail: text })
            &&& at == 5 ==> error == (ShaderError::Link { log: text })
            &&& (at == 1 || at == 3 || at == 5) ==> error.spec_message() == text@
        }),
{
    let start = Build::spec_new();
    let good = reports.take(at);
    lemma_good_reports_walk_the_steps(good);
    let rest = reports.subrange(at, reports.len() as int);
    assert(good + rest == reports);
    lemma_build_run_append(start, good, rest);
    let waiting = start.run(good);
    let tail = rest.subrange(1, rest.len() as int);
    let head = rest.take(1);
    assert(head + tail == rest);
    lemma_build_run_append(waiting, head, tail);
    assert(head.drop_last() == Seq::<Result<(), String>>::empty());
    assert(waiting.run(head.drop_last()) == waiting);
    assert(waiting.run(head) == waiting.spec_advance(reports[at]));
    lemma_finished_is_final(waiting.run(head), tail);
}

/// The linked state is reached only over seven good reports: a build that
/// is linked has seen at least seven reports, and the first six were good.
pub proof fn lemma_linked_needs_every_step(reports: Seq<Result<(), String>>)
    requires
        Build::spec_new().run(reports) == Build::Linked,
    ensures
        reports.len() >= 7,
        forall|i: int| 0 <= i < 6 ==> #[trigger] reports[i] is Ok,
{
    let first_bad = choose|at: int|
        0 <= at < reports.len() && at < 6 && reports[at] is Err && forall|i: int|
            0 <= i < at ==> #[trigger] reports[i] is Ok;
    if exists|at: int|
        0 <= at < reports.len() && at < 6 && reports[at] is Err && forall|i: int|
            0 <= i < at ==> #[trigger] reports[i] is Ok {
        lemma_first_failure_decides(reports, first_bad);
    } else {
        lemma_no_first_failure(reports, 0);
        let n = if reports.len() < 6 { reports.len() as int } else { 6 };
        let good = reports.take(n);
        lemma_good_reports_walk_the_steps(good);
        if reports.len() < 7 {
            if reports.len() < 6 {
                assert(good == reports);
            } else {
                let whole = reports.take(6);
                assert(whole == reports);
            }
        }
    }
}

/// If no bad report among the first six is preceded by good ones only,
/// there is no bad report among the first six at all.
proof fn lemma_no_first_failure(reports: Seq<Result<(), String>>, from: int)
    requires
        0 <= from,
        forall|i: int| 0 <= i < from && i < reports.len() && i < 6 ==> #[trigger] reports[i] is Ok,
        !exists|at: int|
            0 <= at < reports.len() && at < 6 && reports[at] is Err && forall|i: int|
                0 <= i < at ==> #[trigger] reports[i] is Ok,
    ensures
        forall|i: int| 0 <= i < reports.len() && i < 6 ==> #[trigger] reports[i] is Ok,
    decreases 6 - from,
{
    if from < 6 && from < reports.len() {
        if reports[from] is Err {
            assert(forall|i: int| 0 <= i < from ==> #[trigger] reports[i] is Ok);
            assert(false);
        }
        lemma_no_first_failure(reports, from + 1);
    }
}

/// Running a concatenation is running its parts one after the other.
pub proof fn lemma_build_run_append(
    b: Build,
    first: Seq<Result<(), String>>,
    second: Seq<Result<(), String>>,
)
    ensures
        b.run(first + second) == b.run(first).run(second),
    decreases second.len(),
{
    if second.len() == 0 {
        assert(first + second == first);
    } else {
        lemma_build_run_append(b, first, second.drop_last());
        assert((first + second).drop_last() == first + second.drop_last());
    }
}

} // verus!
