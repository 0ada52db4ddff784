//! The one-shot setup of a program: the steps that can fail, what a failure
//! of each means, and when the program is ready to draw.

use vstd::prelude::*;

verus! {

/// Why a program cannot start. Every one of these is fatal.
#[derive(Clone, Copy, Debug, PartialEq, Eq, Structural)]
pub enum SetupError {
    /// The window or its OpenGL context could not be created.
    Window,
    /// A shader did not compile, or the program did not link.
    Shader,
    /// The texture could not be created or filled.
    Texture,
}

impl SetupError {
    /// The text of the diagnostic.
    pub open spec fn diagnostic(self) -> Seq<char> {
        match self {
            SetupError::Window => "could not create the window or its OpenGL context"@,
            SetupError::Shader => "could not compile and link the shader program"@,
            SetupError::Texture => "could not create and fill the texture"@,
        }
    }

    /// The diagnostic to abort with.
    pub fn describe(&self) -> (text: &'static str)
        ensures
            text@ == self.diagnostic(),
    {
        match self {
            SetupError::Window => "could not create the window or its OpenGL context",
            SetupError::Shader => "could not compile and link the shader program",
            SetupError::Texture => "could not create and fill the texture",
        }
    }
}

/// A step of the setup that can fail. The steps between two checkpoints
/// (buffers, samplers, command lists) cannot.
#[derive(Clone, Copy, Debug, PartialEq, Eq, Structural)]
pub enum Checkpoint {
    WindowOpened,
    TextureCreated,
    TextureUploaded,
    ProgramLinked,
}

impl Checkpoint {
    /// The error that a failure at this checkpoint stands for.
    pub open spec fn failure(self) -> SetupError {
        match self {
            Checkpoint::WindowOpened => SetupError::Window,
            Checkpoint::TextureCreated => SetupError::Texture,
            Checkpoint::TextureUploaded => SetupError::Texture,
            Checkpoint::ProgramLinked => SetupError::Shader,
        }
    }

    pub fn error(&self) -> (e: SetupError)
        ensures
            e == self.failure(),
    {
        match self {
            Checkpoint::WindowOpened => SetupError::Window,
            Checkpoint::TextureCreated => SetupError::Texture,
            Checkpoint::TextureUploaded => SetupError::Texture,
            Checkpoint::ProgramLinked => SetupError::Shader,
        }
    }
}

/// Where a setup stands.
#[derive(Clone, Copy, Debug, PartialEq, Eq, Structural)]
pub enum Progress {
    /// The outcome of this checkpoint is awaited.
    Awaiting(Checkpoint),
    /// Every checkpoint was passed: frames may be drawn.
    Ready,
    /// A checkpoint failed: the program has to abort.
    Failed(SetupError),
}

/// The mathematical state of a setup.
pub struct SetupState {
    /// The checkpoints to pass, in order.
    pub checkpoints: Seq<Checkpoint>,
    /// How many of them were passed.
    pub passed: nat,
    /// The failure that ended the setup, if one did.
    pub failure: Option<SetupError>,
}

impl SetupState {
    /// The state before any checkpoint was reached.
    pub open spec fn start(checkpoints: Seq<Checkpoint>) -> SetupState {
        SetupState { checkpoints, passed: 0, failure: None }
    }

    pub open spec fn wf(self) -> bool {
        self.passed <= self.checkpoints.len()
    }

    pub open spec fn progress(self) -> Progress {
        match self.failure {
            Some(e) => Progress::Failed(e),
            None => if self.passed < self.checkpoints.len() {
                Progress::Awaiting(self.checkpoints[self.passed as int])
            } else {
                Progress::Ready
            },
        }
    }

    /// The state after the awaited checkpoint was reported as passed or
    /// failed. A setup that is ready or has failed stays as it is.
    pub open spec fn after(self, succeeded: bool) -> SetupState {
        match self.progress() {
            Progress::Awaiting(checkpoint) => if succeeded {
                SetupState { passed: self.passed + 1, ..self }
            } else {
                SetupState { failure: Some(checkpoint.failure()), ..self }
            },
            _ => self,
        }
    }

    /// The state after a run of reports, oldest first.
    pub open spec fn after_all(self, outcomes: Seq<bool>) -> SetupState
        decreases outcomes.len(),
    {
        if outcomes.len() == 0 {
            self
        } else {
            self.after(outcomes[0]).after_all(outcomes.drop_first())
        }
    }
}

/// A setup in progress.
pub struct Setup {
    checkpoints: Vec<Checkpoint>,
    passed: usize,
    failure: Option<SetupError>,
}

impl View for Setup {
    type V = SetupState;

    closed spec fn view(&self) -> SetupState {
        SetupState { checkpoints: self.checkpoints@, passed: self.passed as nat, failure: self.failure }
    }
}

impl Setup {
    #[verifier::type_invariant]
    spec fn in_bounds(self) -> bool {
        self.passed <= self.checkpoints@.len()
    }

    /// A setup that has the given checkpoints before it.
    pub fn new(checkpoints: Vec<Checkpoint>) -> (setup: Setup)
        ensures
            setup@ == SetupState::start(checkpoints@),
            setup@.wf(),
    {
        Setup { checkpoints, passed: 0, failure: None }
    }

    pub fn progress(&self) -> (progress: Progress)
        ensures
            progress == self@.progress(),
            self@.wf(),
    {
        proof {
            use_type_invariant(self);
        }
        match self.failure {
            Some(e) => Progress::Failed(e),
            None => if self.passed < self.checkpoints.len() {
                Progress::Awaiting(self.checkpoints[self.passed])
            } else {
                Progress::Ready
            },
        }
    }

    /// True when every checkpoint was passed.
    pub fn is_ready(&self) -> (ready: bool)
        ensures
            ready == (self@.progress() == Progress::Ready),
    {
        proof {
            use_type_invariant(self);
        }
        self.failure.is_none() && self.passed >= self.checkpoints.len()
    }

    /// Takes in the outcome of the awaited checkpoint.
    pub fn record(&mut self, succeeded: bool)
        ensures
            final(self)@ == old(self)@.after(succeeded),
            final(self)@.wf(),
    {
        proof {
            use_type_invariant(&*self);
        }
        if self.failure.is_none() && self.passed < self.checkpoints.len() {
            if succeeded {
                self.passed = self.passed + 1;
            } else {
                self.failure = Some(self.checkpoints[self.passed].error());
            }
        }
    }
}

/// The cube's checkpoints: the window, the texture's storage, its
/// contents, and the shader program.
pub open spec fn cube_checkpoint_list() -> Seq<Checkpoint> {
    seq![
        Checkpoint::WindowOpened,
        Checkpoint::TextureCreated,
        Checkpoint::TextureUploaded,
        Checkpoint::ProgramLinked,
    ]
}

/// The triangle's checkpoints: the window and the shader program.
pub open spec fn triangle_checkpoint_list() -> Seq<Checkpoint> {
    seq![Checkpoint::WindowOpened, Checkpoint::ProgramLinked]
}

pub fn cube_checkpoints() -> (checkpoints: Vec<Checkpoint>)
    ensures
        checkpoints@ == cube_checkpoint_list(),
{
    vec![
        Checkpoint::WindowOpened,
        Checkpoint::TextureCreated,
        Checkpoint::TextureUploaded,
        Checkpoint::ProgramLinked,
    ]
}

pub fn triangle_checkpoints() -> (checkpoints: Vec<Checkpoint>)
    ensures
        checkpoints@ == triangle_checkpoint_list(),
{
    vec![Checkpoint::WindowOpened, Checkpoint::ProgramLinked]
}

/// A setup that is ready or has failed is never revisited: no report
/// changes it.
pub proof fn lemma_settled_stays(state: SetupState, outcomes: Seq<bool>)
    requires
        !(state.progress() is Awaiting),
    ensures
        state.after_all(outcomes) == state,
    decreases outcomes.len(),
{
    if outcomes.len() > 0 {
        lemma_settled_stays(state, outcomes.drop_first());
    }
}

/// Number of successes that `outcomes` opens with.
pub open spec fn leading_successes(outcomes: Seq<bool>) -> nat
    decreases outcomes.len(),
{
    if outcomes.len() == 0 || !outcomes[0] {
        0
    } else {
        1 + leading_successes(outcomes.drop_first())
    }
}

/// `leading_successes` counts the reports before the first failure.
pub proof fn lemma_leading_successes(outcomes: Seq<bool>)
    ensures
        leading_successes(outcomes) <= outcomes.len(),
        forall|i: int| 0 <= i < leading_successes(outcomes) ==> outcomes[i],
        leading_successes(outcomes) < outcomes.len() ==> !outcomes[leading_successes(outcomes) as int],
    decreases outcomes.len(),
{
    if outcomes.len() > 0 && outcomes[0] {
        let rest = outcomes.drop_first();
        lemma_leading_successes(rest);
        assert forall|i: int| 0 <= i < leading_successes(outcomes) implies outcomes[i] by {
            if i > 0 {
                assert(rest[i - 1] == outcomes[i]);
            }
        }
        let k = leading_successes(rest);
        if k < rest.len() {
            assert(rest[k as int] == outcomes[k as int + 1]);
        }
    }
}

/// What a run of reports leads to, for a setup that has not failed and
/// has `remaining` checkpoints before it. Let `k` be the number of
/// successes that the run opens with. With `k` at least `remaining` the
/// setup is ready. Otherwise, if a report follows those successes, it is a
/// failure, and the setup has failed with the error of checkpoint `k` of
/// the remaining ones; if none follows, that checkpoint is awaited.
pub proof fn lemma_run(state: SetupState, outcomes: Seq<bool>)
    requires
        state.wf(),
        state.failure is None,
    ensures
        ({
            let remaining = state.checkpoints.len() - state.passed;
            let k = leading_successes(outcomes);
            let end = state.after_all(outcomes);
            &&& end.wf()
            &&& end.checkpoints == state.checkpoints
            &&& k >= remaining ==> end.progress() == Progress::Ready
            &&& k < remaining && k < outcomes.len() ==> end.progress() == Progress::Failed(
                state.checkpoints[(state.passed + k) as int].failure(),
            )
            &&& k < remaining && k == outcomes.len() ==> end.progress() == Progress::Awaiting(
                state.checkpoints[(state.passed + k) as int],
            )
        }),
    decreases outcomes.len(),
{
    let remaining = state.checkpoints.len() - state.passed;
    if outcomes.len() > 0 {
        let rest = outcomes.drop_first();
        let next = state.after(outcomes[0]);
        if remaining == 0 || !outcomes[0] {
            lemma_settled_stays(next, rest);
        } else {
            lemma_run(next, rest);
        }
    }
}

/// A setup becomes ready exactly when every one of its checkpoints is
/// reported as passed, and fails with the error of the first checkpoint
/// that is reported as failed.
pub proof fn lemma_ready_needs_every_checkpoint(checkpoints: Seq<Checkpoint>, outcomes: Seq<bool>)
    ensures
        SetupState::start(checkpoints).after_all(outcomes).progress() == Progress::Ready <==> {
            &&& outcomes.len() >= checkpoints.len()
            &&& forall|i: int| 0 <= i < checkpoints.len() ==> outcomes[i]
        },
        forall|i: int|
            0 <= i < checkpoints.len() && i < outcomes.len() && !outcomes[i] && (forall|j: int|
                0 <= j < i ==> outcomes[j]) ==> SetupState::start(checkpoints).after_all(
                outcomes,
            ).progress() == Progress::Failed(#[trigger] checkpoints[i].failure()),
{
    let start = SetupState::start(checkpoints);
    let k = leading_successes(outcomes);
    lemma_run(start, outcomes);
    lemma_leading_successes(outcomes);
    if outcomes.len() >= checkpoints.len() && (forall|i: int|
        0 <= i < checkpoints.len() ==> outcomes[i]) {
        if k < checkpoints.len() {
            assert(outcomes[k as int]);
        }
    }
    assert forall|i: int|
        0 <= i < checkpoints.len() && i < outcomes.len() && !outcomes[i] && (forall|j: int|
            0 <= j < i ==> outcomes[j]) implies start.after_all(outcomes).progress()
        == Progress::Failed(#[trigger] checkpoints[i].failure()) by {
        if k < i {
            assert(outcomes[k as int]);
        }
        if k > i {
            assert(outcomes[i]);
        }
        assert(k == i);
    }
}

} // verus!
