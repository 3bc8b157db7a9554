//! The control loop: a live command subscription turned into actuator
//! commands, with a dead-man timeout that zeroes propulsion when commands
//! stop arriving.
//!
//! The loop is a machine. At every moment it has asked the runtime for one
//! [`Action`]; the runtime performs it and reports the [`Outcome`]; the machine
//! answers with the next action. The type `V` is the scalar that commands are
//! expressed in. The machine never looks inside a `V`: it hands on what it
//! was given, and is verified for every such type.

use crate::diagnostic::Diagnostic;
use crate::protocol::ProtocolError;
use tokio_util::sync::CancellationToken;
use vstd::prelude::*;

verus! {

/// Longest wait for the next command, in milliseconds. A wait that lasts this
/// long without an event ends in forced zero speed.
pub const DEAD_TIMEOUT: u64 = 500;

/// How a record of the command table changed.
#[derive(Clone, Copy, Debug, PartialEq, Eq, Structural)]
pub enum ChangeKind {
    Insert,
    Update,
    Delete,
}

/// The operator's intent: a steering value and a speed.
#[derive(Clone, Copy, Debug, PartialEq)]
pub struct ControlCommand<V> {
    pub steer: V,
    pub speed: V,
}

/// One event of the live subscription.
#[derive(Clone, Copy, Debug, PartialEq)]
pub struct ControlEvent<V> {
    pub change_kind: ChangeKind,
    pub data: ControlCommand<V>,
}

/// Where the loop stands.
#[derive(Clone, Copy, Debug, PartialEq, Eq, Structural)]
pub enum Phase {
    /// No subscription; opening one has been asked for.
    Disconnected,
    /// Subscribed; a bounded wait for the next event is in flight.
    Waiting,
    /// A command is being handed to the actuators.
    Applying,
    /// The wait timed out; the motor is being told to stop.
    Zeroing,
    /// Cancellation was observed. The safe stop has been asked for and the
    /// machine takes no further part.
    Cancelled,
}

/// What the runtime is to do next.
#[derive(Clone, Copy, Debug, PartialEq)]
pub enum Action<V> {
    /// Open the live command subscription.
    Subscribe,
    /// Wait for the next event of the stream, for `deadline_ms` at most.
    Wait { deadline_ms: u64 },
    /// Call the steering with `steer`, then the motor with `speed`.
    Apply { steer: V, speed: V },
    /// Call the motor with speed zero. Steering is left as it is.
    ZeroSpeed,
    /// Bring the motor, then the steering, to their safe state, and end the task.
    SafeStop,
}

/// What came of the action that was asked for.
#[derive(Clone, Copy, Debug, PartialEq)]
pub enum Outcome<V> {
    /// The subscription is open.
    Opened,
    /// The subscription could not be opened.
    OpenFailed,
    /// An event arrived within the deadline.
    Event(ControlEvent<V>),
    /// Something arrived within the deadline and could not be decoded.
    DecodeFailed,
    /// The deadline passed without an event.
    TimedOut,
    /// The stream itself failed or ended.
    StreamFailed,
    /// Both actuators were called; each flag says whether the call succeeded.
    Applied { steer_ok: bool, speed_ok: bool },
    /// The motor was told to stop. Whether it obeyed is not reported.
    Zeroed,
}

/// One move of the machine, as a mathematical value.
pub struct Transition<V> {
    pub next: Phase,
    pub action: Action<V>,
    pub log: Seq<Diagnostic>,
}

/// One move of the machine.
#[derive(Debug, PartialEq)]
pub struct Step<V> {
    /// The phase entered.
    pub next: Phase,
    /// What the runtime is to do now.
    pub action: Action<V>,
    /// What it is to report first, in this order.
    pub log: Vec<Diagnostic>,
}

impl<V> View for Step<V> {
    type V = Transition<V>;

    open spec fn view(&self) -> Transition<V> {
        Transition { next: self.next, action: self.action, log: self.log@ }
    }
}

/// The action that is pending while the machine rests in `phase`, for the two
/// phases that the top of the loop leads to.
pub open spec fn request<V>(phase: Phase) -> Action<V> {
    if phase == Phase::Disconnected {
        Action::Subscribe
    } else {
        Action::Wait { deadline_ms: DEAD_TIMEOUT }
    }
}

/// The top of the loop. With cancellation observed the loop ends in the safe
/// stop, whatever it was about to do; otherwise it goes on to `target`.
pub open spec fn resume<V>(target: Phase, cancelled: bool, log: Seq<Diagnostic>) -> Transition<V> {
    if cancelled {
        Transition { next: Phase::Cancelled, action: Action::SafeStop, log }
    } else {
        Transition { next: target, action: request(target), log }
    }
}

/// What is reported of a command that the actuators were called with: the
/// steering's failure first, then the motor's.
pub open spec fn apply_log(steer_ok: bool, speed_ok: bool) -> Seq<Diagnostic> {
    let steer_part = if steer_ok {
        Seq::<Diagnostic>::empty()
    } else {
        seq![Diagnostic::SteerFailed]
    };
    if speed_ok {
        steer_part
    } else {
        steer_part.push(Diagnostic::MotorFailed)
    }
}

/// Whether `outcome` answers the action that is pending in `phase`.
pub open spec fn answers<V>(phase: Phase, outcome: Outcome<V>) -> bool {
    match phase {
        Phase::Disconnected => outcome is Opened || outcome is OpenFailed,
        Phase::Waiting => outcome is Event || outcome is DecodeFailed || outcome is TimedOut
            || outcome is StreamFailed,
        Phase::Applying => outcome is Applied,
        Phase::Zeroing => outcome is Zeroed,
        Phase::Cancelled => false,
    }
}

/// Whether handling `outcome` in `phase` leads to the top of the loop, where
/// the cancellation signal is read. A command to apply and a timeout are
/// acted on first.
pub open spec fn reaches_loop_top<V>(phase: Phase, outcome: Outcome<V>) -> bool {
    &&& answers(phase, outcome)
    &&& !(outcome is TimedOut)
    &&& !(outcome matches Outcome::Event(event) && event.change_kind == ChangeKind::Update)
}

/// The machine: what follows `outcome` in `phase`, where `cancelled` is what
/// the cancellation signal says at the top of the loop.
pub open spec fn transition<V>(phase: Phase, outcome: Outcome<V>, cancelled: bool) -> Result<
    Transition<V>,
    ProtocolError,
> {
    if phase == Phase::Cancelled {
        Err(ProtocolError::Finished)
    } else if !answers(phase, outcome) {
        Err(ProtocolError::Unexpected)
    } else {
        Ok(
            match outcome {
                Outcome::Opened => resume(Phase::Waiting, cancelled, seq![]),
                Outcome::OpenFailed => resume(
                    Phase::Disconnected,
                    cancelled,
                    seq![Diagnostic::SubscribeFailed],
                ),
                Outcome::Event(event) => if event.change_kind == ChangeKind::Update {
                    Transition {
                        next: Phase::Applying,
                        action: Action::Apply { steer: event.data.steer, speed: event.data.speed },
                        log: seq![],
                    }
                } else {
                    resume(Phase::Waiting, cancelled, seq![])
                },
                Outcome::DecodeFailed => resume(
                    Phase::Waiting,
                    cancelled,
                    seq![Diagnostic::DecodeFailed],
                ),
                Outcome::TimedOut => Transition {
                    next: Phase::Zeroing,
                    action: Action::ZeroSpeed,
                    log: seq![Diagnostic::StaleCommand],
                },
                Outcome::StreamFailed => resume(
                    Phase::Disconnected,
                    cancelled,
                    seq![Diagnostic::StreamFailed],
                ),
                Outcome::Applied { steer_ok, speed_ok } => resume(
                    Phase::Waiting,
                    cancelled,
                    apply_log(steer_ok, speed_ok),
                ),
                Outcome::Zeroed => resume(Phase::Waiting, cancelled, seq![]),
            },
        )
    }
}

/// The first move: the top of the loop before anything was asked for.
pub open spec fn opening<V>(cancelled: bool) -> Transition<V> {
    resume(Phase::Disconnected, cancelled, seq![])
}

/// Whether a result of the executable machine is the given mathematical one.
pub open spec fn agrees<V>(
    result: Result<Step<V>, ProtocolError>,
    expected: Result<Transition<V>, ProtocolError>,
) -> bool {
    match result {
        Ok(step) => expected == Ok::<Transition<V>, ProtocolError>(step@),
        Err(error) => expected == Err::<Transition<V>, ProtocolError>(error),
    }
}

fn resume_at<V>(target: Phase, cancelled: bool, log: Vec<Diagnostic>) -> (step: Step<V>)
    ensures
        step@ == resume::<V>(target, cancelled, log@),
{
    if cancelled {
        Step { next: Phase::Cancelled, action: Action::SafeStop, log }
    } else if target == Phase::Disconnected {
        Step { next: target, action: Action::Subscribe, log }
    } else {
        Step { next: target, action: Action::Wait { deadline_ms: DEAD_TIMEOUT }, log }
    }
}

fn one(diagnostic: Diagnostic) -> (log: Vec<Diagnostic>)
    ensures
        log@ == seq![diagnostic],
{
    let mut log: Vec<Diagnostic> = Vec::new();
    log.push(diagnostic);
    log
}

fn applied_log(steer_ok: bool, speed_ok: bool) -> (log: Vec<Diagnostic>)
    ensures
        log@ == apply_log(steer_ok, speed_ok),
{
    let mut log: Vec<Diagnostic> = Vec::new();
    if !steer_ok {
        log.push(Diagnostic::SteerFailed);
    }
    if !speed_ok {
        log.push(Diagnostic::MotorFailed);
    }
    log
}

impl Phase {
    /// Whether the machine has ended.
    pub fn is_terminal(self) -> (ended: bool)
        ensures
            ended == (self == Phase::Cancelled),
    {
        self == Phase::Cancelled
    }

    /// Whether handling `outcome` in this phase leads to the top of the loop,
    /// so that the cancellation signal has to be read.
    pub fn reads_signal<V>(self, outcome: &Outcome<V>) -> (read: bool)
        ensures
            read == reaches_loop_top(self, *outcome),
    {
        match self {
            Phase::Disconnected => match outcome {
                Outcome::Opened => true,
                Outcome::OpenFailed => true,
                _ => false,
            },
            Phase::Waiting => match outcome {
                Outcome::Event(event) => !(event.change_kind == ChangeKind::Update),
                Outcome::DecodeFailed => true,
                Outcome::StreamFailed => true,
                _ => false,
            },
            Phase::Applying => match outcome {
                Outcome::Applied { .. } => true,
                _ => false,
            },
            Phase::Zeroing => match outcome {
                Outcome::Zeroed => true,
                _ => false,
            },
            Phase::Cancelled => false,
        }
    }

    /// The first move of the loop, given what the cancellation signal says
    /// before anything was done: the safe stop if it is cancelled already,
    /// else the opening of the subscription.
    pub fn begin<V>(cancelled: bool) -> (step: Step<V>)
        ensures
            step@ == opening::<V>(cancelled),
    {
        resume_at(Phase::Disconnected, cancelled, Vec::new())
    }

    /// One move of the loop: `outcome` is what came of the pending action, and
    /// `cancelled` is what the cancellation signal says at the top of the
    /// loop. The flag is used exactly where [`reaches_loop_top`] holds.
    ///
    /// An outcome that does not answer the pending action is refused with
    /// [`ProtocolError::Unexpected`], and every outcome is refused with
    /// [`ProtocolError::Finished`] once the machine is cancelled.
    pub fn advance<V>(self, outcome: Outcome<V>, cancelled: bool) -> (result: Result<
        Step<V>,
        ProtocolError,
    >)
        ensures
            agrees(result, transition(self, outcome, cancelled)),
    {
        match self {
            Phase::Cancelled => Err(ProtocolError::Finished),
            Phase::Disconnected => match outcome {
                Outcome::Opened => Ok(resume_at(Phase::Waiting, cancelled, Vec::new())),
                Outcome::OpenFailed => Ok(
                    resume_at(Phase::Disconnected, cancelled, one(Diagnostic::SubscribeFailed)),
                ),
                _ => Err(ProtocolError::Unexpected),
            },
            Phase::Waiting => match outcome {
                Outcome::Event(event) => {
                    if event.change_kind == ChangeKind::Update {
                        Ok(
                            Step {
                                next: Phase::Applying,
                                action: Action::Apply {
                                    steer: event.data.steer,
                                    speed: event.data.speed,
                                },
                                log: Vec::new(),
                            },
                        )
                    } else {
                        Ok(resume_at(Phase::Waiting, cancelled, Vec::new()))
                    }
                },
                Outcome::DecodeFailed => Ok(
                    resume_at(Phase::Waiting, cancelled, one(Diagnostic::DecodeFailed)),
                ),
                Outcome::TimedOut => Ok(
                    Step {
                        next: Phase::Zeroing,
                        action: Action::ZeroSpeed,
                        log: one(Diagnostic::StaleCommand),
                    },
                ),
                Outcome::StreamFailed => Ok(
                    resume_at(Phase::Disconnected, cancelled, one(Diagnostic::StreamFailed)),
                ),
                _ => Err(ProtocolError::Unexpected),
            },
            Phase::Applying => match outcome {
                Outcome::Applied { steer_ok, speed_ok } => Ok(
                    resume_at(Phase::Waiting, cancelled, applied_log(steer_ok, speed_ok)),
                ),
                _ => Err(ProtocolError::Unexpected),
            },
            Phase::Zeroing => match outcome {
                Outcome::Zeroed => Ok(resume_at(Phase::Waiting, cancelled, Vec::new())),
                _ => Err(ProtocolError::Unexpected),
            },
        }
    }

    /// The first move of the loop, with the signal read from `token`.
    pub fn start<V>(token: &CancellationToken) -> (step: Step<V>)
        ensures
            exists|cancelled: bool| step@ == #[trigger] opening::<V>(cancelled),
    {
        let cancelled = token.is_cancelled();
        let step = Phase::begin(cancelled);
        assert(step@ == opening::<V>(cancelled));
        step
    }

    /// One move of the loop, with the signal read from `token`. The token is
    /// read only where the move leads to the top of the loop, and after the
    /// outcome is in, so a cancellation that arrived during the action is seen.
    pub fn step<V>(self, outcome: Outcome<V>, token: &CancellationToken) -> (result: Result<
        Step<V>,
        ProtocolError,
    >)
        ensures
            exists|cancelled: bool| agrees(result, #[trigger] transition(self, outcome, cancelled)),
            !reaches_loop_top(self, outcome) ==> agrees(result, transition(self, outcome, false)),
    {
        let cancelled = if self.reads_signal(&outcome) {
            token.is_cancelled()
        } else {
            false
        };
        let result = self.advance(outcome, cancelled);
        assert(agrees(result, transition(self, outcome, cancelled)));
        result
    }
}

/// What the runtime reports at one step: the outcome of the pending action,
/// and what the cancellation signal says at the top of the loop.
pub struct Observation<V> {
    pub outcome: Outcome<V>,
    pub cancelled: bool,
}

/// Where a sequence of observations has led.
pub struct Run<V> {
    /// The phase reached.
    pub phase: Phase,
    /// Every action asked for, oldest first.
    pub actions: Seq<Action<V>>,
}

/// The run extended by one observation. A refused observation changes nothing.
pub open spec fn extend<V>(run: Run<V>, seen: Observation<V>) -> Run<V> {
    match transition(run.phase, seen.outcome, seen.cancelled) {
        Ok(moved) => Run { phase: moved.next, actions: run.actions.push(moved.action) },
        Err(_) => run,
    }
}

/// The loop from its first move, made with the signal reading `cancelled`,
/// and fed with `inputs` one after the other.
pub open spec fn run<V>(cancelled: bool, inputs: Seq<Observation<V>>) -> Run<V>
    decreases inputs.len(),
{
    if inputs.len() == 0 {
        Run { phase: opening::<V>(cancelled).next, actions: seq![opening::<V>(cancelled).action] }
    } else {
        extend(run(cancelled, inputs.drop_last()), inputs.last())
    }
}

/// The phase in which observation `i` of `inputs` finds the loop.
pub open spec fn phase_before<V>(cancelled: bool, inputs: Seq<Observation<V>>, i: int) -> Phase {
    run(cancelled, inputs.take(i)).phase
}

/// The move that observation `i` of `inputs` causes, or the refusal.
pub open spec fn move_at<V>(cancelled: bool, inputs: Seq<Observation<V>>, i: int) -> Result<
    Transition<V>,
    ProtocolError,
> {
    transition(phase_before(cancelled, inputs, i), inputs[i].outcome, inputs[i].cancelled)
}

/// How many of `actions` are the safe stop.
pub open spec fn safe_stops<V>(actions: Seq<Action<V>>) -> nat
    decreases actions.len(),
{
    if actions.len() == 0 {
        0
    } else {
        safe_stops(actions.drop_last()) + if actions.last() is SafeStop {
            1nat
        } else {
            0nat
        }
    }
}

proof fn lemma_run_unfold<V>(cancelled: bool, inputs: Seq<Observation<V>>, i: int)
    requires
        0 <= i < inputs.len(),
    ensures
        run(cancelled, inputs.take(i + 1)) == extend(run(cancelled, inputs.take(i)), inputs[i]),
{
    assert(inputs.take(i + 1).drop_last() =~= inputs.take(i));
}

proof fn lemma_stays_zeroing<V>(cancelled: bool, inputs: Seq<Observation<V>>, from: int, to: int)
    requires
        0 <= from <= to <= inputs.len(),
        phase_before(cancelled, inputs, from) == Phase::Zeroing,
        forall|k: int|
            from <= k < to && #[trigger] phase_before(cancelled, inputs, k) == Phase::Zeroing
                ==> !(inputs[k].outcome is Zeroed),
    ensures
        phase_before(cancelled, inputs, to) == Phase::Zeroing,
    decreases to - from,
{
    if from < to {
        lemma_stays_zeroing(cancelled, inputs, from, to - 1);
        lemma_run_unfold(cancelled, inputs, to - 1);
    }
}

/// The signal is read only at the top of the loop: where a move does not
/// lead there, it is the same move whatever the signal says.
pub proof fn lemma_signal_read_at_loop_top<V>(phase: Phase, outcome: Outcome<V>)
    requires
        !reaches_loop_top(phase, outcome),
    ensures
        transition(phase, outcome, true) == transition(phase, outcome, false),
{
}

/// Every wait that the loop asks for is bounded by [`DEAD_TIMEOUT`]: the
/// bound is armed anew with each wait, not once for the whole run.
pub proof fn lemma_every_wait_is_bounded<V>(cancelled: bool, inputs: Seq<Observation<V>>, k: int)
    requires
        0 <= k < run(cancelled, inputs).actions.len(),
        run(cancelled, inputs).actions[k] is Wait,
    ensures
        run(cancelled, inputs).actions[k] == (Action::<V>::Wait { deadline_ms: DEAD_TIMEOUT }),
    decreases inputs.len(),
{
    if inputs.len() > 0 {
        let before = run(cancelled, inputs.drop_last());
        if k < before.actions.len() {
            lemma_every_wait_is_bounded(cancelled, inputs.drop_last(), k);
        }
    }
}

/// The dead-man rule. A wait that times out is answered by zero speed, with
/// staleness reported, and steering is not touched. No command of a later
/// event is applied before the runtime has reported that the motor was told
/// to stop.
pub proof fn lemma_timeout_zeroes_speed_first<V>(
    cancelled: bool,
    inputs: Seq<Observation<V>>,
    i: int,
    j: int,
)
    requires
        0 <= i < j < inputs.len(),
        phase_before(cancelled, inputs, i) == Phase::Waiting,
        inputs[i].outcome is TimedOut,
        move_at(cancelled, inputs, j) is Ok,
        move_at(cancelled, inputs, j)->Ok_0.action is Apply,
    ensures
        move_at(cancelled, inputs, i) == Ok::<Transition<V>, ProtocolError>(
            Transition {
                next: Phase::Zeroing,
                action: Action::ZeroSpeed,
                log: seq![Diagnostic::StaleCommand],
            },
        ),
        exists|k: int|
            i < k < j && #[trigger] phase_before(cancelled, inputs, k) == Phase::Zeroing
                && inputs[k].outcome is Zeroed,
{
    lemma_run_unfold(cancelled, inputs, i);
    assert(phase_before(cancelled, inputs, i + 1) == Phase::Zeroing);
    if forall|k: int|
        i < k < j && #[trigger] phase_before(cancelled, inputs, k) == Phase::Zeroing
            ==> !(inputs[k].outcome is Zeroed) {
        lemma_stays_zeroing(cancelled, inputs, i + 1, j);
        assert(phase_before(cancelled, inputs, j) == Phase::Zeroing);
        assert(false);
    }
}

/// Only an update reaches the actuators. Whatever the loop is fed, each
/// command that it asks to apply is the steering value and the speed of an
/// update event among the inputs; an insertion or a deletion is never applied.
pub proof fn lemma_only_updates_are_applied<V>(
    cancelled: bool,
    inputs: Seq<Observation<V>>,
    k: int,
)
    requires
        0 <= k < run(cancelled, inputs).actions.len(),
        run(cancelled, inputs).actions[k] is Apply,
    ensures
        exists|i: int|
            0 <= i < inputs.len() && (#[trigger] inputs[i]).outcome == Outcome::Event(
                ControlEvent {
                    change_kind: ChangeKind::Update,
                    data: ControlCommand {
                        steer: run(cancelled, inputs).actions[k]->steer,
                        speed: run(cancelled, inputs).actions[k]->speed,
                    },
                },
            ),
    decreases inputs.len(),
{
    if inputs.len() > 0 {
        let shorter = inputs.drop_last();
        let before = run(cancelled, shorter);
        if k < before.actions.len() {
            lemma_only_updates_are_applied(cancelled, shorter, k);
            let i = choose|i: int|
                0 <= i < shorter.len() && (#[trigger] shorter[i]).outcome == Outcome::Event(
                    ControlEvent {
                        change_kind: ChangeKind::Update,
                        data: ControlCommand {
                            steer: before.actions[k]->steer,
                            speed: before.actions[k]->speed,
                        },
                    },
                );
            assert(inputs[i] == shorter[i]);
        } else {
            let i = inputs.len() - 1;
            assert(inputs[i] == inputs.last());
        }
    }
}

/// A move that was caused by anything but an update event asks for no
/// command to be applied.
pub proof fn lemma_other_events_are_not_applied<V>(phase: Phase, outcome: Outcome<V>, cancelled: bool)
    requires
        !(outcome matches Outcome::Event(event) && event.change_kind == ChangeKind::Update),
        transition(phase, outcome, cancelled) is Ok,
    ensures
        !(transition(phase, outcome, cancelled)->Ok_0.action is Apply),
{
}

/// While the subscription cannot be opened the loop keeps asking for it and
/// asks nothing of the actuators.
pub proof fn lemma_outage_is_retried<V>(inputs: Seq<Observation<V>>)
    requires
        forall|i: int|
            0 <= i < inputs.len() ==> (#[trigger] inputs[i]).outcome is OpenFailed
                && !inputs[i].cancelled,
    ensures
        run(false, inputs).phase == Phase::Disconnected,
        run(false, inputs).actions.len() == inputs.len() + 1,
        forall|k: int|
            0 <= k <= inputs.len() ==> #[trigger] run(false, inputs).actions[k]
                == Action::<V>::Subscribe,
    decreases inputs.len(),
{
    if inputs.len() > 0 {
        lemma_outage_is_retried(inputs.drop_last());
        assert(inputs.last() == inputs[inputs.len() - 1]);
    }
}

/// Cancellation ends the loop once. In every run the safe stop is asked for
/// exactly once if the run has reached [`Phase::Cancelled`], where it is the
/// last action, and not at all otherwise.
pub proof fn lemma_safe_stop_exactly_once<V>(cancelled: bool, inputs: Seq<Observation<V>>)
    ensures
        run(cancelled, inputs).phase == Phase::Cancelled ==> safe_stops(
            run(cancelled, inputs).actions,
        ) == 1 && run(cancelled, inputs).actions.last() is SafeStop,
        run(cancelled, inputs).phase != Phase::Cancelled ==> safe_stops(
            run(cancelled, inputs).actions,
        ) == 0,
    decreases inputs.len(),
{
    if inputs.len() == 0 {
        let actions = seq![opening::<V>(cancelled).action];
        assert(actions.drop_last() =~= Seq::<Action<V>>::empty());
        assert(safe_stops(actions.drop_last()) == 0);
    } else {
        lemma_safe_stop_exactly_once(cancelled, inputs.drop_last());
        let before = run(cancelled, inputs.drop_last());
        let after = run(cancelled, inputs);
        match transition(before.phase, inputs.last().outcome, inputs.last().cancelled) {
            Ok(moved) => {
                assert(after.actions.drop_last() =~= before.actions);
            },
            Err(_) => {},
        }
    }
}

/// Once the signal is seen cancelled, the loop ends within one action. A
/// move made with the signal cancelled asks for no further wait and no
/// further subscription: it either ends in the safe stop at once, or it
/// finishes the actuator call that the outcome demands, and then the next
/// outcome ends in the safe stop.
pub proof fn lemma_cancellation_completes<V>(phase: Phase, outcome: Outcome<V>, next_outcome: Outcome<V>)
    requires
        transition(phase, outcome, true) is Ok,
    ensures
        ({
            let moved = transition(phase, outcome, true)->Ok_0;
            &&& !(moved.action is Wait) && !(moved.action is Subscribe)
            &&& reaches_loop_top(phase, outcome) ==> moved.next == Phase::Cancelled && moved.action
                is SafeStop
            &&& moved.next != Phase::Cancelled && transition(moved.next, next_outcome, true) is Ok
                ==> transition(moved.next, next_outcome, true)->Ok_0.next == Phase::Cancelled
                && transition(moved.next, next_outcome, true)->Ok_0.action is SafeStop
        }),
{
}

/// A cancelled loop stays cancelled and asks for nothing more: what is fed
/// to it after it has reached [`Phase::Cancelled`] changes nothing.
pub proof fn lemma_cancelled_is_final<V>(cancelled: bool, inputs: Seq<Observation<V>>, i: int)
    requires
        0 <= i <= inputs.len(),
        phase_before(cancelled, inputs, i) == Phase::Cancelled,
    ensures
        run(cancelled, inputs) == run(cancelled, inputs.take(i)),
    decreases inputs.len() - i,
{
    if i < inputs.len() {
        lemma_run_unfold(cancelled, inputs, i);
        lemma_cancelled_is_final(cancelled, inputs, i + 1);
    } else {
        assert(inputs.take(i) =~= inputs);
    }
}

} // verus!
