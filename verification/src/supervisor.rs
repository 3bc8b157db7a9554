//! The supervisor: owner of the root of the cancellation tree.
//!
//! Every task gets a token derived from the root, so that one cancellation
//! reaches all of them, while a task that cancels its own token stops
//! nobody else.

use crate::cancel::derived_from;
use crate::telemetry::Source;
use tokio_util::sync::CancellationToken;
use vstd::prelude::*;

verus! {

/// The tasks of the runtime.
#[derive(Clone, Copy, Debug, PartialEq, Eq, Structural)]
pub enum Task {
    Gps,
    Imu,
    Analog,
    Magnetometer,
    Modem,
    Control,
}

/// A request to shut down. Both kinds are treated alike.
#[derive(Clone, Copy, Debug, PartialEq, Eq, Structural)]
pub enum Interrupt {
    /// The operating system's interrupt signal.
    Signal,
    /// An interrupt typed at the console.
    CtrlC,
}

/// The tasks that the runtime starts, in the order in which it starts them.
pub open spec fn roster_spec() -> Seq<Task> {
    seq![Task::Gps, Task::Imu, Task::Analog, Task::Magnetometer, Task::Modem, Task::Control]
}

/// The source that a task's pipeline polls; the control loop polls none.
pub open spec fn source_of_task(task: Task) -> Option<Source> {
    match task {
        Task::Gps => Some(Source::Gps),
        Task::Imu => Some(Source::Imu),
        Task::Analog => Some(Source::Analog),
        Task::Magnetometer => Some(Source::Magnetometer),
        Task::Modem => Some(Source::Modem),
        Task::Control => None,
    }
}

impl Task {
    /// The source polled by the pipeline of the task; the control loop polls none.
    pub fn source(self) -> (source: Option<Source>)
        ensures
            source == source_of_task(self),
    {
        match self {
            Task::Gps => Some(Source::Gps),
            Task::Imu => Some(Source::Imu),
            Task::Analog => Some(Source::Analog),
            Task::Magnetometer => Some(Source::Magnetometer),
            Task::Modem => Some(Source::Modem),
            Task::Control => None,
        }
    }
}

/// The owner of the root token.
pub struct Supervisor {
    root: CancellationToken,
    launched: Vec<Task>,
    stopping: bool,
}

impl Supervisor {
    /// The tasks that were given a token, oldest first.
    pub closed spec fn tasks(&self) -> Seq<Task> {
        self.launched@
    }

    /// Whether the root was cancelled by this supervisor.
    pub closed spec fn stopping(&self) -> bool {
        self.stopping
    }

    /// The root of the cancellation tree, from which every task's token is
    /// derived. A supervisor keeps the root that it was made with.
    pub closed spec fn root_token(&self) -> CancellationToken {
        self.root
    }

    /// A supervisor with a fresh root, no task and no shutdown under way.
    pub fn new() -> (supervisor: Supervisor)
        ensures
            supervisor.tasks() == Seq::<Task>::empty(),
            !supervisor.stopping(),
    {
        Supervisor { root: CancellationToken::new(), launched: Vec::new(), stopping: false }
    }

    /// The tasks that the runtime starts, in the order in which it starts them.
    pub fn roster() -> (tasks: Vec<Task>)
        ensures
            tasks@ == roster_spec(),
    {
        let mut tasks: Vec<Task> = Vec::new();
        tasks.push(Task::Gps);
        tasks.push(Task::Imu);
        tasks.push(Task::Analog);
        tasks.push(Task::Magnetometer);
        tasks.push(Task::Modem);
        tasks.push(Task::Control);
        tasks
    }

    /// Derives the token that `task` is to watch, and records the task. The
    /// token is a child of the root: the root's cancellation reaches it, and
    /// cancelling it stops nobody else.
    pub fn launch(&mut self, task: Task) -> (token: CancellationToken)
        ensures
            derived_from(token, old(self).root_token()),
            final(self).tasks() == old(self).tasks().push(task),
            final(self).stopping() == old(self).stopping(),
            final(self).root_token() == old(self).root_token(),
    {
        self.launched.push(task);
        self.root.child_token()
    }

    /// Handles a request to shut down. The first one cancels the root, and
    /// with it every token derived from it; the later ones find that done.
    /// The answer says whether this call cancelled the root.
    pub fn interrupt(&mut self, request: Interrupt) -> (cancelled_now: bool)
        ensures
            final(self).stopping(),
            cancelled_now == !old(self).stopping(),
            final(self).tasks() == old(self).tasks(),
            final(self).root_token() == old(self).root_token(),
    {
        if self.stopping {
            false
        } else {
            self.root.cancel();
            self.stopping = true;
            true
        }
    }

    /// Whether a shutdown is under way.
    pub fn is_stopping(&self) -> (stopping: bool)
        ensures
            stopping == self.stopping(),
    {
        self.stopping
    }

    /// How many tasks were given a token.
    pub fn task_count(&self) -> (count: usize)
        ensures
            count == self.tasks().len(),
    {
        self.launched.len()
    }

    /// The root token: the supervisor's own, not a copy and not a child.
    pub fn root(&self) -> (token: &CancellationToken)
        ensures
            *token == self.root_token(),
    {
        &self.root
    }
}

} // verus!
