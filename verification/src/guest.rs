//! The guest's lifecycle: brought up and primed once by the initialize hook,
//! then, in the module that was frozen after it, run once by the main hook.
//!
//! The interpreter, the preload directory and the input channel are driven
//! from outside. The guest decides what is asked of them next, and refuses
//! whatever comes out of turn.

use crate::bridge::{eval_error_text, EvalError, Value};
use crate::decimal::{decimal, push_decimal_i32};
use crate::preload::{preload_report_text, PreloadError};
use crate::staged::StagedInput;
use vstd::prelude::*;
use vstd::string::*;

verus! {

/// The name under which the guest exports its initialize hook.
pub const INITIALIZE_EXPORT: &'static str = "wizer.initialize";

/// The status that the interpreter's cleanup is asked to return, and does
/// return when it ran well.
pub const EXPECTED_SUCCESS_RET_VAL: i32 = 0;

/// The interpreter's cleanup returned another status than it was asked for.
#[derive(Debug, Clone, Copy, PartialEq, Eq, Structural)]
pub struct CleanupError {
    pub status: i32,
}

/// What a failed cleanup says of itself.
pub open spec fn cleanup_error_text(e: CleanupError) -> Seq<char> {
    "ruby_cleanup did not run successfully. Return value: "@ + decimal(e.status as int)
}

impl CleanupError {
    /// The failure as text.
    pub fn message(&self) -> (text: String)
        ensures
            text@ == cleanup_error_text(*self),
    {
        let mut text = String::from_str("ruby_cleanup did not run successfully. Return value: ");
        push_decimal_i32(&mut text, self.status);
        text
    }
}

/// What the status that the cleanup returned means.
pub open spec fn cleanup_outcome(status: i32) -> Result<(), CleanupError> {
    if status == EXPECTED_SUCCESS_RET_VAL {
        Ok(())
    } else {
        Err(CleanupError { status })
    }
}

/// Judges the status that the interpreter's cleanup returned.
pub fn cleanup_ruby(status: i32) -> (r: Result<(), CleanupError>)
    ensures
        r == cleanup_outcome(status),
{
    if status != EXPECTED_SUCCESS_RET_VAL {
        return Err(CleanupError { status });
    }
    Ok(())
}

/// Why a guest gave up. Each of these is fatal to its run.
#[derive(Debug, PartialEq, Eq)]
pub enum GuestError {
    /// The interpreter could not be brought up.
    BringUp(String),
    /// A preload file, or the preload directory, failed.
    Preload(PreloadError),
    /// The script could not be obtained from its input channel.
    MissingScript(String),
    /// A script was to be staged where one is staged already.
    AlreadyStaged,
    /// The main hook found no staged script.
    NotStaged,
    /// The evaluation of the script failed.
    Evaluation(EvalError),
    /// The interpreter's cleanup failed.
    Cleanup(CleanupError),
    /// A hook was invoked, or a report made, out of turn.
    OutOfTurn,
}

/// What a guest that gave up says of itself.
pub open spec fn guest_error_text(e: GuestError) -> Seq<char> {
    match e {
        GuestError::BringUp(cause) => "Failed to bring up the interpreter: "@ + cause@,
        GuestError::Preload(error) => preload_report_text(error),
        GuestError::MissingScript(cause) => "Failed to obtain the script: "@ + cause@,
        GuestError::AlreadyStaged => "the script is staged already"@,
        GuestError::NotStaged => "no script is staged"@,
        GuestError::Evaluation(error) => eval_error_text(error),
        GuestError::Cleanup(error) => cleanup_error_text(error),
        GuestError::OutOfTurn => "guest driven out of turn"@,
    }
}

impl GuestError {
    /// The failure as text.
    pub fn message(&self) -> (text: String)
        ensures
            text@ == guest_error_text(*self),
    {
        match self {
            GuestError::BringUp(cause) => {
                let mut text = String::from_str("Failed to bring up the interpreter: ");
                text.append(cause.as_str());
                text
            },
            GuestError::Preload(error) => error.report(),
            GuestError::MissingScript(cause) => {
                let mut text = String::from_str("Failed to obtain the script: ");
                text.append(cause.as_str());
                text
            },
            GuestError::AlreadyStaged => String::from_str("the script is staged already"),
            GuestError::NotStaged => String::from_str("no script is staged"),
            GuestError::Evaluation(error) => error.message(),
            GuestError::Cleanup(error) => error.message(),
            GuestError::OutOfTurn => String::from_str("guest driven out of turn"),
        }
    }
}

/// Where a guest stands. `BringingUp`, `Preloading` and `Staging` are the
/// steps of initialization; `Running` is the main hook at work on a guest
/// that is initialized.
#[derive(Debug, Clone, Copy, PartialEq, Eq, Structural)]
pub enum GuestPhase {
    /// No hook has been invoked.
    Uninitialized,
    /// Initializing: the interpreter is being brought up.
    BringingUp,
    /// Initializing: the preload directory is being loaded.
    Preloading,
    /// Initializing: the script is being obtained.
    Staging,
    /// Initialization is complete, and the script is staged.
    Initialized,
    /// The main hook was invoked, and the script is being evaluated.
    Running,
    /// The script was evaluated, and the interpreter is being cleaned up.
    Evaluated,
    /// The interpreter was cleaned up.
    TornDown,
    /// The guest gave up.
    Aborted,
}

/// How far a phase is along the lifecycle.
pub open spec fn rank(phase: GuestPhase) -> nat {
    match phase {
        GuestPhase::Uninitialized => 0,
        GuestPhase::BringingUp => 1,
        GuestPhase::Preloading => 2,
        GuestPhase::Staging => 3,
        GuestPhase::Initialized => 4,
        GuestPhase::Running => 5,
        GuestPhase::Evaluated => 6,
        GuestPhase::TornDown => 7,
        GuestPhase::Aborted => 8,
    }
}

/// A hook that the host invokes, or what the driver reports back.
#[derive(Debug, PartialEq, Eq)]
pub enum GuestEvent {
    /// The initialize hook was invoked, with this preload directory if one
    /// is configured.
    InitializeCalled { preload: Option<String> },
    /// The interpreter was brought up, or why it was not.
    BroughtUp(Result<(), String>),
    /// How the preload ended.
    Preloaded(Result<(), PreloadError>),
    /// The script's text, or why it could not be obtained.
    ScriptRead(Result<String, String>),
    /// The main hook was invoked.
    MainCalled,
    /// How the evaluation of the script ended.
    Evaluated(Result<Value, EvalError>),
    /// The status that the interpreter's cleanup returned.
    CleanedUp(i32),
}

/// What the driver is asked to do next.
#[derive(Debug, PartialEq, Eq)]
pub enum GuestAction {
    /// Bring up the interpreter.
    BringUp,
    /// Load this preload directory.
    Preload(String),
    /// Obtain the script from its input channel.
    ReadScript,
    /// Return from the initialize hook: the guest may be frozen.
    Ready,
    /// Evaluate the staged script.
    EvaluateStaged,
    /// Clean up the interpreter, asking for this status.
    Cleanup(i32),
    /// Return from the main hook.
    Exit,
    /// Give up with this failure.
    Abort(GuestError),
}

/// One guest.
pub struct Guest {
    /// Where the guest stands.
    pub phase: GuestPhase,
    /// The preload directory that the initialize hook was given.
    pub preload: Option<String>,
    /// The script, once staged.
    pub staged: StagedInput,
}

/// What a guest is: its phase, its preload directory, and the text that is
/// staged, if any.
pub struct GuestModel {
    pub phase: GuestPhase,
    pub preload: Option<String>,
    pub staged: Option<Seq<char>>,
}

impl View for Guest {
    type V = GuestModel;

    open spec fn view(&self) -> GuestModel {
        GuestModel { phase: self.phase, preload: self.preload, staged: self.staged@ }
    }
}

impl GuestModel {
    /// The guest before any hook.
    pub open spec fn fresh() -> GuestModel {
        GuestModel { phase: GuestPhase::Uninitialized, preload: None, staged: None }
    }

    /// The guest in another phase.
    pub open spec fn to(self, phase: GuestPhase) -> GuestModel {
        GuestModel { phase, preload: self.preload, staged: self.staged }
    }

    /// The guest giving up with `error`.
    pub open spec fn aborted(self, error: GuestError) -> (GuestModel, GuestAction) {
        (self.to(GuestPhase::Aborted), GuestAction::Abort(error))
    }

    /// A script is staged from the end of initialization on, and not before.
    pub open spec fn wf(self) -> bool {
        &&& rank(self.phase) <= rank(GuestPhase::Staging) ==> self.staged is None
        &&& rank(GuestPhase::Initialized) <= rank(self.phase) <= rank(GuestPhase::TornDown)
            ==> self.staged is Some
    }
}

/// The guest's rule.
///
/// The initialize hook brings up the interpreter, loads the preload
/// directory where one is configured, and stages the script, in that order
/// and each only after the one before succeeded; the script is staged as it
/// is and is not evaluated. The main hook evaluates the staged script and
/// then has the interpreter cleaned up. Every failure, and every hook or
/// report out of turn, makes the guest give up for good.
pub open spec fn guest_next(g: GuestModel, event: GuestEvent) -> (GuestModel, GuestAction) {
    match (g.phase, event) {
        (GuestPhase::Uninitialized, GuestEvent::InitializeCalled { preload }) => (
            GuestModel { phase: GuestPhase::BringingUp, preload, staged: g.staged },
            GuestAction::BringUp,
        ),
        (GuestPhase::BringingUp, GuestEvent::BroughtUp(Ok(_))) => match g.preload {
            Some(directory) => (g.to(GuestPhase::Preloading), GuestAction::Preload(directory)),
            None => (g.to(GuestPhase::Staging), GuestAction::ReadScript),
        },
        (GuestPhase::BringingUp, GuestEvent::BroughtUp(Err(cause))) => g.aborted(
            GuestError::BringUp(cause),
        ),
        (GuestPhase::Preloading, GuestEvent::Preloaded(Ok(_))) => (
            g.to(GuestPhase::Staging),
            GuestAction::ReadScript,
        ),
        (GuestPhase::Preloading, GuestEvent::Preloaded(Err(error))) => g.aborted(
            GuestError::Preload(error),
        ),
        (GuestPhase::Staging, GuestEvent::ScriptRead(Ok(text))) => if g.staged is None {
            (
                GuestModel {
                    phase: GuestPhase::Initialized,
                    preload: g.preload,
                    staged: Some(text@),
                },
                GuestAction::Ready,
            )
        } else {
            g.aborted(GuestError::AlreadyStaged)
        },
        (GuestPhase::Staging, GuestEvent::ScriptRead(Err(cause))) => g.aborted(
            GuestError::MissingScript(cause),
        ),
        (GuestPhase::Initialized, GuestEvent::MainCalled) => if g.staged is Some {
            (g.to(GuestPhase::Running), GuestAction::EvaluateStaged)
        } else {
            g.aborted(GuestError::NotStaged)
        },
        (GuestPhase::Running, GuestEvent::Evaluated(Ok(_))) => (
            g.to(GuestPhase::Evaluated),
            GuestAction::Cleanup(EXPECTED_SUCCESS_RET_VAL),
        ),
        (GuestPhase::Running, GuestEvent::Evaluated(Err(error))) => g.aborted(
            GuestError::Evaluation(error),
        ),
        (GuestPhase::Evaluated, GuestEvent::CleanedUp(status)) => match cleanup_outcome(status) {
            Ok(_) => (g.to(GuestPhase::TornDown), GuestAction::Exit),
            Err(error) => g.aborted(GuestError::Cleanup(error)),
        },
        _ => g.aborted(GuestError::OutOfTurn),
    }
}

impl Guest {
    /// A guest on which no hook has been invoked.
    pub fn new() -> (g: Guest)
        ensures
            g@ == GuestModel::fresh(),
            g@.wf(),
    {
        Guest { phase: GuestPhase::Uninitialized, preload: None, staged: StagedInput::new() }
    }

    fn abort(&mut self, error: GuestError) -> (action: GuestAction)
        ensures
            (final(self)@, action) == old(self)@.aborted(error),
    {
        self.phase = GuestPhase::Aborted;
        GuestAction::Abort(error)
    }

    /// The staged script, where there is one.
    pub fn script(&self) -> (r: Option<&String>)
        ensures
            r is Some <==> self@.staged is Some,
            r matches Some(text) ==> self@.staged == Some(text@),
    {
        self.staged.staged()
    }

    /// Takes a hook's invocation or the driver's report and says what to do
    /// next.
    pub fn step(&mut self, event: GuestEvent) -> (action: GuestAction)
        ensures
            (final(self)@, action) == guest_next(old(self)@, event),
            old(self)@.wf() ==> final(self)@.wf(),
    {
        match (self.phase, event) {
            (GuestPhase::Uninitialized, GuestEvent::InitializeCalled { preload }) => {
                self.phase = GuestPhase::BringingUp;
                self.preload = preload;
                GuestAction::BringUp
            },
            (GuestPhase::BringingUp, GuestEvent::BroughtUp(Ok(_))) => {
                match &self.preload {
                    Some(directory) => {
                        let directory = directory.clone();
                        self.phase = GuestPhase::Preloading;
                        GuestAction::Preload(directory)
                    },
                    None => {
                        self.phase = GuestPhase::Staging;
                        GuestAction::ReadScript
                    },
                }
            },
            (GuestPhase::BringingUp, GuestEvent::BroughtUp(Err(cause))) => self.abort(
                GuestError::BringUp(cause),
            ),
            (GuestPhase::Preloading, GuestEvent::Preloaded(Ok(_))) => {
                self.phase = GuestPhase::Staging;
                GuestAction::ReadScript
            },
            (GuestPhase::Preloading, GuestEvent::Preloaded(Err(error))) => self.abort(
                GuestError::Preload(error),
            ),
            (GuestPhase::Staging, GuestEvent::ScriptRead(Ok(text))) => {
                match self.staged.stage(text) {
                    Ok(_) => {
                        self.phase = GuestPhase::Initialized;
                        GuestAction::Ready
                    },
                    Err(_) => self.abort(GuestError::AlreadyStaged),
                }
            },
            (GuestPhase::Staging, GuestEvent::ScriptRead(Err(cause))) => self.abort(
                GuestError::MissingScript(cause),
            ),
            (GuestPhase::Initialized, GuestEvent::MainCalled) => {
                let staged = self.staged.staged().is_some();
                if staged {
                    self.phase = GuestPhase::Running;
                    GuestAction::EvaluateStaged
                } else {
                    self.abort(GuestError::NotStaged)
                }
            },
            (GuestPhase::Running, GuestEvent::Evaluated(Ok(_))) => {
                self.phase = GuestPhase::Evaluated;
                GuestAction::Cleanup(EXPECTED_SUCCESS_RET_VAL)
            },
            (GuestPhase::Running, GuestEvent::Evaluated(Err(error))) => self.abort(
                GuestError::Evaluation(error),
            ),
            (GuestPhase::Evaluated, GuestEvent::CleanedUp(status)) => {
                match cleanup_ruby(status) {
                    Ok(_) => {
                        self.phase = GuestPhase::TornDown;
                        GuestAction::Exit
                    },
                    Err(error) => self.abort(GuestError::Cleanup(error)),
                }
            },
            _ => self.abort(GuestError::OutOfTurn),
        }
    }
}

/// No step leads back: every step takes the guest further along its
/// lifecycle, or makes it give up, and a guest that gave up stays so.
pub proof fn no_way_back(g: GuestModel, event: GuestEvent)
    ensures
        rank(guest_next(g, event).0.phase) > rank(g.phase) || guest_next(g, event).0.phase
            == GuestPhase::Aborted,
{
}

/// Each hook runs at most once: the initialize hook is accepted only by a
/// guest on which no hook was invoked, the main hook only by one that is
/// initialized and not yet run, and whenever either comes the guest gives up.
pub proof fn hooks_run_once(g: GuestModel, event: GuestEvent)
    requires
        g.wf(),
        event is InitializeCalled || event is MainCalled,
    ensures
        guest_next(g, event).1 is Abort <==> !(event is InitializeCalled && g.phase
            == GuestPhase::Uninitialized || event is MainCalled && g.phase
            == GuestPhase::Initialized),
{
}

/// The script is staged once: a text that is staged stays staged, the same,
/// through every step.
pub proof fn staged_for_good(g: GuestModel, event: GuestEvent)
    requires
        g.staged is Some,
    ensures
        guest_next(g, event).0.staged == g.staged,
{
}

/// Nothing but the main hook, on an initialized guest, has the script
/// evaluated: no step of initialization does.
pub proof fn only_main_evaluates(g: GuestModel, event: GuestEvent)
    requires
        guest_next(g, event).1 == GuestAction::EvaluateStaged,
    ensures
        g.phase == GuestPhase::Initialized,
        event == GuestEvent::MainCalled,
{
}

/// Initialization does not depend on what the script holds. A guest that
/// is about to stage accepts every text, stages it unchanged and reports
/// ready. A failure of the script shows only when the main hook has it
/// evaluated, and then the guest gives up with that failure.
pub proof fn script_failure_shows_only_in_main(
    preload: Option<String>,
    script: String,
    error: EvalError,
)
    ensures
        ({
            let staging = GuestModel { phase: GuestPhase::Staging, preload, staged: None };
            let initialized = GuestModel {
                phase: GuestPhase::Initialized,
                preload,
                staged: Some(script@),
            };
            let running = initialized.to(GuestPhase::Running);
            &&& guest_next(staging, GuestEvent::ScriptRead(Ok(script))) == (
                initialized,
                GuestAction::Ready,
            )
            &&& guest_next(initialized, GuestEvent::MainCalled) == (
                running,
                GuestAction::EvaluateStaged,
            )
            &&& guest_next(running, GuestEvent::Evaluated(Err(error))) == running.aborted(
                GuestError::Evaluation(error),
            )
        }),
{
}

} // verus!
