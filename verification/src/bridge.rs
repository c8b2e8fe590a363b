//! The evaluation bridge: one protected evaluation of source text at a time,
//! with the interpreter's pending error read, rendered and cleared before a
//! failure is handed back.
//!
//! The interpreter itself is driven from outside. The bridge decides what is
//! asked of it next and what the caller finally receives.

use crate::decimal::{decimal, decimal_digits, push_decimal_i32, push_decimal_u64};
use vstd::prelude::*;
use vstd::string::*;
use vstd::utf8::encode_utf8;

verus! {

/// An opaque handle on a value inside the interpreter.
#[derive(Debug, Clone, Copy, PartialEq, Eq, Structural)]
pub struct Value {
    pub raw: u64,
}

/// Why an evaluation did not yield a value.
#[derive(Debug, PartialEq, Eq)]
pub enum EvalError {
    /// The source holds a NUL byte, at this offset, and was not run.
    InteriorNul { position: usize },
    /// The interpreter reported a non-zero status. The message is the text
    /// of the pending error, where one could be read.
    Raised { state: i32, message: Option<String> },
    /// The bridge was driven against its protocol.
    OutOfTurn,
}

/// The text that stands for a message that could not be read.
pub open spec fn placeholder() -> Seq<char> {
    "None"@
}

/// The diagnostic of a failed evaluation.
pub open spec fn eval_error_text(e: EvalError) -> Seq<char> {
    match e {
        EvalError::InteriorNul { position } => {
            "nul byte found in provided data at position: "@ + decimal_digits(position as nat)
        },
        EvalError::Raised { state, message } => {
            "Ruby evaluation failed. State: "@ + decimal(state as int) + ", message: "@ + (
            match message {
                Some(m) => m@,
                None => placeholder(),
            })
        },
        EvalError::OutOfTurn => "evaluation driven out of turn"@,
    }
}

impl EvalError {
    /// The diagnostic as text.
    pub fn message(&self) -> (text: String)
        ensures
            text@ == eval_error_text(*self),
    {
        match self {
            EvalError::InteriorNul { position } => {
                let mut text = String::from_str("nul byte found in provided data at position: ");
                push_decimal_u64(&mut text, *position as u64);
                text
            },
            EvalError::Raised { state, message } => {
                let mut text = String::from_str("Ruby evaluation failed. State: ");
                push_decimal_i32(&mut text, *state);
                text.append(", message: ");
                match message {
                    Some(m) => text.append(m.as_str()),
                    None => text.append("None"),
                }
                text
            },
            EvalError::OutOfTurn => String::from_str("evaluation driven out of turn"),
        }
    }
}

/// The offset of the first NUL byte at or after `from`, if there is one.
pub open spec fn first_nul_from(bytes: Seq<u8>, from: int) -> Option<int>
    decreases bytes.len() - from,
{
    if from < 0 || from >= bytes.len() {
        None
    } else if bytes[from] == 0 {
        Some(from)
    } else {
        first_nul_from(bytes, from + 1)
    }
}

/// The offset of the first NUL byte, if there is one.
pub open spec fn first_nul(bytes: Seq<u8>) -> Option<int> {
    first_nul_from(bytes, 0)
}

/// `first_nul_from` finds a NUL byte exactly where one exists, and then the
/// one that comes first.
pub proof fn first_nul_is_least(bytes: Seq<u8>, from: int)
    requires
        0 <= from,
    ensures
        match first_nul_from(bytes, from) {
            Some(p) => from <= p < bytes.len() && bytes[p] == 0 && forall|j: int|
                from <= j < p ==> bytes[j] != 0,
            None => forall|j: int| from <= j < bytes.len() ==> bytes[j] != 0,
        },
    decreases bytes.len() - from,
{
    if from < bytes.len() && bytes[from] != 0 {
        first_nul_is_least(bytes, from + 1);
    }
}

/// Looks for a NUL byte in `code`.
pub fn find_nul(code: &str) -> (found: Option<usize>)
    ensures
        match found {
            Some(p) => first_nul(encode_utf8(code@)) == Some(p as int),
            None => first_nul(encode_utf8(code@)) is None,
        },
{
    let bytes = code.as_bytes();
    let mut i: usize = 0;
    while i < bytes.len()
        invariant
            i <= bytes.len(),
            bytes@ == code.spec_bytes(),
            first_nul(bytes@) == first_nul_from(bytes@, i as int),
        decreases bytes.len() - i,
    {
        if bytes[i] == 0 {
            return Some(i);
        }
        i = i + 1;
    }
    None
}

/// What the bridge is waiting for.
#[derive(Debug, Clone, Copy, PartialEq, Eq, Structural)]
pub enum BridgePhase {
    /// No evaluation is under way.
    Idle,
    /// The source is being run.
    Running,
    /// The run failed, and the pending error is being read.
    Inspecting,
    /// The pending error is being turned into text.
    Coercing,
    /// The pending error is being cleared.
    Clearing,
}

/// The bridge to one interpreter.
#[derive(Debug, PartialEq, Eq)]
pub struct Bridge {
    /// What the bridge is waiting for.
    pub phase: BridgePhase,
    /// The status of the failed run that is being handled, else zero.
    pub state: i32,
    /// The message of the failed run that is being handled, once read.
    pub message: Option<String>,
}

/// What the interpreter's driver reports back.
#[derive(Debug, PartialEq, Eq)]
pub enum BridgeEvent {
    /// The run ended with this value and status.
    Evaluated { value: Value, state: i32 },
    /// The pending error, or none where the slot is empty.
    ErrorObject(Option<Value>),
    /// The text of the pending error, or none where it has no text.
    Coerced(Option<String>),
    /// The pending error has been cleared.
    Cleared,
}

/// What the interpreter's driver is asked to do next.
#[derive(Debug, PartialEq, Eq)]
pub enum BridgeAction {
    /// Run this source, protected.
    Evaluate(String),
    /// Read the pending error.
    TakeError,
    /// Turn this error into text.
    Coerce(Value),
    /// Clear the pending error.
    ClearError,
    /// Hand this back to the caller.
    Return(Result<Value, EvalError>),
}

impl Bridge {
    /// Whether the interpreter may hold an error that has not been cleared.
    pub open spec fn error_pending(self) -> bool {
        self.phase == BridgePhase::Inspecting || self.phase == BridgePhase::Coercing || self.phase
            == BridgePhase::Clearing
    }

    /// An idle bridge keeps nothing of an earlier evaluation, and a message
    /// is held only once it has been read.
    pub open spec fn wf(self) -> bool {
        &&& self.phase == BridgePhase::Idle || self.phase == BridgePhase::Running ==> self.state
            == 0
        &&& self.phase != BridgePhase::Clearing ==> self.message is None
        &&& self.error_pending() ==> self.state != 0
    }

    /// The idle bridge.
    pub open spec fn idle() -> Bridge {
        Bridge { phase: BridgePhase::Idle, state: 0, message: None }
    }

    /// A bridge on which nothing has been evaluated.
    pub fn new() -> (b: Bridge)
        ensures
            b == Bridge::idle(),
            b.wf(),
    {
        Bridge { phase: BridgePhase::Idle, state: 0, message: None }
    }
}

/// The start of an evaluation. Source with a NUL byte is refused unrun; a
/// bridge that is busy refuses any source; otherwise the source is run.
pub open spec fn bridge_begin(b: Bridge, code: String) -> (Bridge, BridgeAction) {
    if b.phase != BridgePhase::Idle {
        (b, BridgeAction::Return(Err(EvalError::OutOfTurn)))
    } else {
        match first_nul(encode_utf8(code@)) {
            Some(p) => (
                b,
                BridgeAction::Return(Err(EvalError::InteriorNul { position: p as usize })),
            ),
            None => (
                Bridge { phase: BridgePhase::Running, state: b.state, message: b.message },
                BridgeAction::Evaluate(code),
            ),
        }
    }
}

/// The bridge's rule. Status zero hands the value back. Any other status
/// has the pending error read, turned into text where there is one, and
/// cleared, and only then handed back. A report that does not answer the
/// last action changes nothing and is answered with `OutOfTurn`.
pub open spec fn bridge_next(b: Bridge, event: BridgeEvent) -> (Bridge, BridgeAction) {
    match (b.phase, event) {
        (BridgePhase::Running, BridgeEvent::Evaluated { value, state }) => if state == 0 {
            (Bridge::idle(), BridgeAction::Return(Ok(value)))
        } else {
            (
                Bridge { phase: BridgePhase::Inspecting, state, message: None },
                BridgeAction::TakeError,
            )
        },
        (BridgePhase::Inspecting, BridgeEvent::ErrorObject(Some(object))) => (
            Bridge { phase: BridgePhase::Coercing, state: b.state, message: None },
            BridgeAction::Coerce(object),
        ),
        (BridgePhase::Inspecting, BridgeEvent::ErrorObject(None)) => (
            Bridge { phase: BridgePhase::Clearing, state: b.state, message: None },
            BridgeAction::ClearError,
        ),
        (BridgePhase::Coercing, BridgeEvent::Coerced(message)) => (
            Bridge { phase: BridgePhase::Clearing, state: b.state, message },
            BridgeAction::ClearError,
        ),
        (BridgePhase::Clearing, BridgeEvent::Cleared) => (
            Bridge::idle(),
            BridgeAction::Return(Err(EvalError::Raised { state: b.state, message: b.message })),
        ),
        _ => (b, BridgeAction::Return(Err(EvalError::OutOfTurn))),
    }
}

/// Begins the evaluation of `code` on `bridge`.
pub fn eval(bridge: &mut Bridge, code: String) -> (action: BridgeAction)
    ensures
        (*final(bridge), action) == bridge_begin(*old(bridge), code),
        old(bridge).wf() ==> final(bridge).wf(),
{
    match bridge.phase {
        BridgePhase::Idle => {},
        _ => {
            return BridgeAction::Return(Err(EvalError::OutOfTurn));
        },
    }
    match find_nul(code.as_str()) {
        Some(position) => BridgeAction::Return(Err(EvalError::InteriorNul { position })),
        None => {
            bridge.phase = BridgePhase::Running;
            BridgeAction::Evaluate(code)
        },
    }
}

impl Bridge {
    /// Takes what the driver reports and says what to do next.
    pub fn step(&mut self, event: BridgeEvent) -> (action: BridgeAction)
        ensures
            (*final(self), action) == bridge_next(*old(self), event),
            old(self).wf() ==> final(self).wf(),
    {
        match (self.phase, event) {
            (BridgePhase::Running, BridgeEvent::Evaluated { value, state }) => {
                if state == 0 {
                    self.phase = BridgePhase::Idle;
                    self.state = 0;
                    self.message = None;
                    BridgeAction::Return(Ok(value))
                } else {
                    self.phase = BridgePhase::Inspecting;
                    self.state = state;
                    self.message = None;
                    BridgeAction::TakeError
                }
            },
            (BridgePhase::Inspecting, BridgeEvent::ErrorObject(Some(object))) => {
                self.phase = BridgePhase::Coercing;
                self.message = None;
                BridgeAction::Coerce(object)
            },
            (BridgePhase::Inspecting, BridgeEvent::ErrorObject(None)) => {
                self.phase = BridgePhase::Clearing;
                self.message = None;
                BridgeAction::ClearError
            },
            (BridgePhase::Coercing, BridgeEvent::Coerced(message)) => {
                self.phase = BridgePhase::Clearing;
                self.message = message;
                BridgeAction::ClearError
            },
            (BridgePhase::Clearing, BridgeEvent::Cleared) => {
                let state = self.state;
                let message = self.message.take();
                self.phase = BridgePhase::Idle;
                self.state = 0;
                BridgeAction::Return(Err(EvalError::Raised { state, message }))
            },
            _ => BridgeAction::Return(Err(EvalError::OutOfTurn)),
        }
    }
}

/// Error-slot isolation. A failure that the interpreter raised is handed
/// back only in answer to the report that the pending error has been cleared.
/// It leaves the bridge idle with nothing kept, so that a later evaluation
/// whose run reports status zero hands back that run's value.
pub proof fn failure_leaves_no_trace(
    b: Bridge,
    event: BridgeEvent,
    state: i32,
    message: Option<String>,
    code: String,
    value: Value,
)
    requires
        bridge_next(b, event).1 == BridgeAction::Return(
            Err(EvalError::Raised { state, message }),
        ),
        first_nul(encode_utf8(code@)) is None,
    ensures
        b.phase == BridgePhase::Clearing,
        event == BridgeEvent::Cleared,
        bridge_next(b, event).0 == Bridge::idle(),
        bridge_begin(bridge_next(b, event).0, code).1 == BridgeAction::Evaluate(code),
        bridge_next(
            bridge_begin(bridge_next(b, event).0, code).0,
            BridgeEvent::Evaluated { value, state: 0 },
        ) == (Bridge::idle(), BridgeAction::Return(Ok(value))),
{
}

/// The bridge starts to wait for the pending error to be cleared only by
/// asking for it to be cleared, and it does so only for a run that failed.
pub proof fn clearing_is_asked_for(b: Bridge, event: BridgeEvent)
    requires
        b.wf(),
        b.phase != BridgePhase::Clearing,
        bridge_next(b, event).0.phase == BridgePhase::Clearing,
    ensures
        bridge_next(b, event).1 == BridgeAction::ClearError,
        bridge_next(b, event).0.state != 0,
{
}

} // verus!
