//! The telemetry pipelines: one loop per source that polls a reader, forwards
//! what it read to the store, and paces itself.
//!
//! Like the control loop, a pipeline is a machine that answers the outcome of
//! one operation with the next operation. The type `R` is what a reader
//! yields; the machine hands it on untouched.

use crate::diagnostic::Diagnostic;
use crate::protocol::ProtocolError;
use tokio_util::sync::CancellationToken;
use vstd::prelude::*;

verus! {

/// Where samples come from.
#[derive(Clone, Copy, Debug, PartialEq, Eq, Structural)]
pub enum Source {
    Gps,
    Imu,
    Analog,
    Magnetometer,
    Modem,
}

/// The pause after each iteration of a source's loop, in milliseconds. The
/// GPS reader blocks until it has a sentence and needs no pause of its own.
pub open spec fn pacing(source: Source) -> u64 {
    match source {
        Source::Gps => 0,
        Source::Imu => 50,
        Source::Analog => 500,
        Source::Magnetometer => 300,
        Source::Modem => 500,
    }
}

impl Source {
    /// The pause after each iteration of this source's loop, in milliseconds.
    pub fn pacing_ms(self) -> (ms: u64)
        ensures
            ms == pacing(self),
    {
        match self {
            Source::Gps => 0,
            Source::Imu => 50,
            Source::Analog => 500,
            Source::Magnetometer => 300,
            Source::Modem => 500,
        }
    }
}

/// Where a pipeline stands.
#[derive(Clone, Copy, Debug, PartialEq, Eq, Structural)]
pub enum Stage {
    /// The reader is being polled.
    Polling,
    /// A sample is on its way to the store.
    Appending,
    /// The pause between two iterations.
    Pacing,
    /// Cancellation was observed; the task ends.
    Stopped,
}

/// What the runtime is to do next.
#[derive(Clone, Copy, Debug, PartialEq)]
pub enum Job<R> {
    /// Poll the reader.
    Poll,
    /// Append this sample to the store.
    Append(R),
    /// Sleep for `ms` milliseconds.
    Sleep { ms: u64 },
    /// End the task.
    Stop,
}

/// What came of the job that was asked for.
#[derive(Clone, Copy, Debug, PartialEq)]
pub enum Report<R> {
    /// The reader has nothing yet.
    NoData,
    /// The reader produced a sample.
    Sample(R),
    /// The reader failed: what it read could not be decoded, or it could not
    /// be asked at all.
    ReadFailed,
    /// The store was called; `ok` says whether it took the sample.
    Appended { ok: bool },
    /// The pause is over.
    Slept,
}

/// A pipeline: its source and where it stands.
#[derive(Clone, Copy, Debug, PartialEq, Eq, Structural)]
pub struct Pipeline {
    pub source: Source,
    pub stage: Stage,
}

/// One move of a pipeline, as a mathematical value.
pub struct Move<R> {
    pub next: Pipeline,
    pub job: Job<R>,
    pub log: Seq<Diagnostic>,
}

/// One move of a pipeline.
#[derive(Debug, PartialEq)]
pub struct Turn<R> {
    /// The pipeline after the move.
    pub next: Pipeline,
    /// What the runtime is to do now.
    pub job: Job<R>,
    /// What it is to report first, in this order.
    pub log: Vec<Diagnostic>,
}

impl<R> View for Turn<R> {
    type V = Move<R>;

    open spec fn view(&self) -> Move<R> {
        Move { next: self.next, job: self.job, log: self.log@ }
    }
}

/// The top of the loop: the task ends if cancellation is observed, and polls
/// again if not.
pub open spec fn loop_top<R>(source: Source, cancelled: bool, log: Seq<Diagnostic>) -> Move<R> {
    if cancelled {
        Move { next: Pipeline { source, stage: Stage::Stopped }, job: Job::Stop, log }
    } else {
        Move { next: Pipeline { source, stage: Stage::Polling }, job: Job::Poll, log }
    }
}

/// The end of an iteration: the source's pause, where it has one, and then
/// the top of the loop.
pub open spec fn pace<R>(source: Source, cancelled: bool, log: Seq<Diagnostic>) -> Move<R> {
    if pacing(source) == 0 {
        loop_top(source, cancelled, log)
    } else {
        Move {
            next: Pipeline { source, stage: Stage::Pacing },
            job: Job::Sleep { ms: pacing(source) },
            log,
        }
    }
}

/// Whether `report` answers the job that is pending at `stage`.
pub open spec fn fits<R>(stage: Stage, report: Report<R>) -> bool {
    match stage {
        Stage::Polling => report is NoData || report is Sample || report is ReadFailed,
        Stage::Appending => report is Appended,
        Stage::Pacing => report is Slept,
        Stage::Stopped => false,
    }
}

/// Whether handling `report` leads to the top of the loop, where the
/// cancellation signal is read.
pub open spec fn reads_signal_at<R>(pipeline: Pipeline, report: Report<R>) -> bool {
    &&& fits(pipeline.stage, report)
    &&& !(report is Sample)
    &&& pipeline.stage == Stage::Pacing || pacing(pipeline.source) == 0
}

/// The machine: what follows `report`, where `cancelled` is what the
/// cancellation signal says at the top of the loop.
pub open spec fn react<R>(pipeline: Pipeline, report: Report<R>, cancelled: bool) -> Result<
    Move<R>,
    ProtocolError,
> {
    if pipeline.stage == Stage::Stopped {
        Err(ProtocolError::Finished)
    } else if !fits(pipeline.stage, report) {
        Err(ProtocolError::Unexpected)
    } else {
        Ok(
            match report {
                Report::NoData => pace(pipeline.source, cancelled, seq![]),
                Report::Sample(sample) => Move {
                    next: Pipeline { source: pipeline.source, stage: Stage::Appending },
                    job: Job::Append(sample),
                    log: seq![],
                },
                Report::ReadFailed => pace(
                    pipeline.source,
                    cancelled,
                    seq![Diagnostic::ReadFailed],
                ),
                Report::Appended { ok } => pace(
                    pipeline.source,
                    cancelled,
                    if ok {
                        seq![]
                    } else {
                        seq![Diagnostic::AppendFailed]
                    },
                ),
                Report::Slept => loop_top(pipeline.source, cancelled, seq![]),
            },
        )
    }
}

/// Whether a result of the executable machine is the given mathematical one.
pub open spec fn matches_move<R>(
    result: Result<Turn<R>, ProtocolError>,
    expected: Result<Move<R>, ProtocolError>,
) -> bool {
    match result {
        Ok(turn) => expected == Ok::<Move<R>, ProtocolError>(turn@),
        Err(error) => expected == Err::<Move<R>, ProtocolError>(error),
    }
}

fn at_loop_top<R>(source: Source, cancelled: bool, log: Vec<Diagnostic>) -> (turn: Turn<R>)
    ensures
        turn@ == loop_top::<R>(source, cancelled, log@),
{
    if cancelled {
        Turn { next: Pipeline { source, stage: Stage::Stopped }, job: Job::Stop, log }
    } else {
        Turn { next: Pipeline { source, stage: Stage::Polling }, job: Job::Poll, log }
    }
}

fn paced<R>(source: Source, cancelled: bool, log: Vec<Diagnostic>) -> (turn: Turn<R>)
    ensures
        turn@ == pace::<R>(source, cancelled, log@),
{
    let ms = source.pacing_ms();
    if ms == 0 {
        at_loop_top(source, cancelled, log)
    } else {
        Turn { next: Pipeline { source, stage: Stage::Pacing }, job: Job::Sleep { ms }, log }
    }
}

impl Pipeline {
    /// A pipeline for `source`, about to poll for the first time.
    pub fn new(source: Source) -> (pipeline: Pipeline)
        ensures
            pipeline == (Pipeline { source, stage: Stage::Polling }),
    {
        Pipeline { source, stage: Stage::Polling }
    }

    /// Whether the pipeline has ended.
    pub fn is_stopped(self) -> (ended: bool)
        ensures
            ended == (self.stage == Stage::Stopped),
    {
        self.stage == Stage::Stopped
    }

    /// Whether handling `report` leads to the top of the loop, so that the
    /// cancellation signal has to be read.
    pub fn reads_signal<R>(self, report: &Report<R>) -> (read: bool)
        ensures
            read == reads_signal_at(self, *report),
    {
        match self.stage {
            Stage::Polling => match report {
                Report::NoData => self.source.pacing_ms() == 0,
                Report::ReadFailed => self.source.pacing_ms() == 0,
                _ => false,
            },
            Stage::Appending => match report {
                Report::Appended { .. } => self.source.pacing_ms() == 0,
                _ => false,
            },
            Stage::Pacing => match report {
                Report::Slept => true,
                _ => false,
            },
            Stage::Stopped => false,
        }
    }

    /// The first move of the loop for `source`, given what the cancellation
    /// signal says before anything was done.
    pub fn begin<R>(source: Source, cancelled: bool) -> (turn: Turn<R>)
        ensures
            turn@ == loop_top::<R>(source, cancelled, seq![]),
    {
        at_loop_top(source, cancelled, Vec::new())
    }

    /// One move of the loop: `report` is what came of the pending job, and
    /// `cancelled` is what the cancellation signal says at the top of the
    /// loop. The flag is used exactly where [`reads_signal_at`] holds.
    ///
    /// A report that does not answer the pending job is refused with
    /// [`ProtocolError::Unexpected`], and every report is refused with
    /// [`ProtocolError::Finished`] once the pipeline has stopped. A failed
    /// append and a failed read are reported and the loop goes on.
    pub fn advance<R>(self, report: Report<R>, cancelled: bool) -> (result: Result<
        Turn<R>,
        ProtocolError,
    >)
        ensures
            matches_move(result, react(self, report, cancelled)),
    {
        match self.stage {
            Stage::Stopped => Err(ProtocolError::Finished),
            Stage::Polling => match report {
                Report::NoData => Ok(paced(self.source, cancelled, Vec::new())),
                Report::Sample(sample) => Ok(
                    Turn {
                        next: Pipeline { source: self.source, stage: Stage::Appending },
                        job: Job::Append(sample),
                        log: Vec::new(),
                    },
                ),
                Report::ReadFailed => {
                    let mut log: Vec<Diagnostic> = Vec::new();
                    log.push(Diagnostic::ReadFailed);
                    Ok(paced(self.source, cancelled, log))
                },
                _ => Err(ProtocolError::Unexpected),
            },
            Stage::Appending => match report {
                Report::Appended { ok } => {
                    let mut log: Vec<Diagnostic> = Vec::new();
                    if !ok {
                        log.push(Diagnostic::AppendFailed);
                    }
                    Ok(paced(self.source, cancelled, log))
                },
                _ => Err(ProtocolError::Unexpected),
            },
            Stage::Pacing => match report {
                Report::Slept => Ok(at_loop_top(self.source, cancelled, Vec::new())),
                _ => Err(ProtocolError::Unexpected),
            },
        }
    }

    /// The first move of the loop, with the signal read from `token`.
    pub fn start<R>(source: Source, token: &CancellationToken) -> (turn: Turn<R>)
        ensures
            exists|cancelled: bool| turn@ == #[trigger] loop_top::<R>(source, cancelled, seq![]),
    {
        let cancelled = token.is_cancelled();
        let turn = Pipeline::begin(source, cancelled);
        assert(turn@ == loop_top::<R>(source, cancelled, seq![]));
        turn
    }

    /// One move of the loop, with the signal read from `token`. The token is
    /// read only where the move leads to the top of the loop.
    pub fn step<R>(self, report: Report<R>, token: &CancellationToken) -> (result: Result<
        Turn<R>,
        ProtocolError,
    >)
        ensures
            exists|cancelled: bool| matches_move(result, #[trigger] react(self, report, cancelled)),
            !reads_signal_at(self, report) ==> matches_move(result, react(self, report, false)),
    {
        let cancelled = if self.reads_signal(&report) {
            token.is_cancelled()
        } else {
            false
        };
        let result = self.advance(report, cancelled);
        assert(matches_move(result, react(self, report, cancelled)));
        result
    }
}

/// What the runtime reports at one step.
pub struct Sighting<R> {
    pub report: Report<R>,
    pub cancelled: bool,
}

/// Where a sequence of reports has led.
pub struct Course<R> {
    /// The pipeline as it stands.
    pub pipeline: Pipeline,
    /// Every job asked for, oldest first.
    pub jobs: Seq<Job<R>>,
    /// Every sample that was accepted from the reader, oldest first.
    pub polled: Seq<R>,
}

/// The course extended by one report. A refused report changes nothing.
pub open spec fn follow<R>(course: Course<R>, seen: Sighting<R>) -> Course<R> {
    match react(course.pipeline, seen.report, seen.cancelled) {
        Ok(moved) => Course {
            pipeline: moved.next,
            jobs: course.jobs.push(moved.job),
            polled: if seen.report is Sample {
                course.polled.push(seen.report->Sample_0)
            } else {
                course.polled
            },
        },
        Err(_) => course,
    }
}

/// The pipeline of `source` fed with `inputs`, one after the other, where
/// `cancelled` is what the signal said before the first poll.
pub open spec fn course<R>(source: Source, cancelled: bool, inputs: Seq<Sighting<R>>) -> Course<R>
    decreases inputs.len(),
{
    if inputs.len() == 0 {
        Course {
            pipeline: loop_top::<R>(source, cancelled, seq![]).next,
            jobs: seq![loop_top::<R>(source, cancelled, seq![]).job],
            polled: seq![],
        }
    } else {
        follow(course(source, cancelled, inputs.drop_last()), inputs.last())
    }
}

/// The samples that `jobs` hand to the store, oldest first.
pub open spec fn forwarded<R>(jobs: Seq<Job<R>>) -> Seq<R>
    decreases jobs.len(),
{
    if jobs.len() == 0 {
        seq![]
    } else if jobs.last() is Append {
        forwarded(jobs.drop_last()).push(jobs.last()->Append_0)
    } else {
        forwarded(jobs.drop_last())
    }
}

/// The flag is read only at the top of the loop: where a move does not lead
/// there, it is the same move whatever the signal says.
pub proof fn lemma_signal_read_at_loop_top<R>(pipeline: Pipeline, report: Report<R>)
    requires
        !reads_signal_at(pipeline, report),
    ensures
        react(pipeline, report, true) == react(pipeline, report, false),
{
}

/// A failure does not end a pipeline. After a failed append or a failed
/// read, with no cancellation, the pipeline reports the failure and polls
/// again: at once where the source has no pause, after the pause where it has.
pub proof fn lemma_failure_is_survived<R>(pipeline: Pipeline, report: Report<R>)
    requires
        pipeline.stage == Stage::Appending && report == (Report::<R>::Appended { ok: false })
            || pipeline.stage == Stage::Polling && report is ReadFailed,
    ensures
        react(pipeline, report, false) is Ok,
        ({
            let moved = react(pipeline, report, false)->Ok_0;
            &&& moved.log.len() == 1
            &&& moved.next.source == pipeline.source
            &&& pacing(pipeline.source) == 0 ==> moved.job is Poll && moved.next.stage
                == Stage::Polling
            &&& pacing(pipeline.source) != 0 ==> moved.job == (Job::<R>::Sleep {
                ms: pacing(pipeline.source),
            }) && react(moved.next, Report::<R>::Slept, false) == Ok::<Move<R>, ProtocolError>(
                Move {
                    next: Pipeline { source: pipeline.source, stage: Stage::Polling },
                    job: Job::Poll,
                    log: seq![],
                },
            )
        }),
{
}

/// Nothing but cancellation ends a pipeline: whatever the reader and the
/// store report, a pipeline that never saw the signal cancelled has not
/// stopped.
pub proof fn lemma_only_cancellation_stops<R>(source: Source, inputs: Seq<Sighting<R>>)
    requires
        forall|i: int| 0 <= i < inputs.len() ==> !(#[trigger] inputs[i]).cancelled,
    ensures
        course(source, false, inputs).pipeline.stage != Stage::Stopped,
        course(source, false, inputs).pipeline.source == source,
    decreases inputs.len(),
{
    if inputs.len() > 0 {
        lemma_only_cancellation_stops(source, inputs.drop_last());
        assert(inputs.last() == inputs[inputs.len() - 1]);
    }
}

/// Samples reach the store in the order polled. The samples that the jobs of
/// a course hand to the store are the samples accepted from the reader: none
/// is dropped, repeated or moved.
pub proof fn lemma_samples_forwarded_in_order<R>(
    source: Source,
    cancelled: bool,
    inputs: Seq<Sighting<R>>,
)
    ensures
        forwarded(course(source, cancelled, inputs).jobs) == course(
            source,
            cancelled,
            inputs,
        ).polled,
    decreases inputs.len(),
{
    let first = loop_top::<R>(source, cancelled, seq![]);
    if inputs.len() == 0 {
        let jobs = seq![first.job];
        assert(jobs.drop_last() =~= Seq::<Job<R>>::empty());
        assert(forwarded(jobs.drop_last()) =~= Seq::<R>::empty());
    } else {
        lemma_samples_forwarded_in_order(source, cancelled, inputs.drop_last());
        let before = course(source, cancelled, inputs.drop_last());
        let after = course(source, cancelled, inputs);
        match react(before.pipeline, inputs.last().report, inputs.last().cancelled) {
            Ok(moved) => {
                assert(after.jobs.drop_last() =~= before.jobs);
            },
            Err(_) => {},
        }
    }
}

/// Cancellation ends a pipeline within one iteration. A move made with the
/// signal cancelled asks for no further poll. It stops at once where it
/// reaches the top of the loop; otherwise it finishes the append or the pause
/// that is due, at most two more jobs, and then stops.
pub proof fn lemma_cancellation_completes<R>(
    pipeline: Pipeline,
    report: Report<R>,
    second: Report<R>,
    third: Report<R>,
)
    requires
        react(pipeline, report, true) is Ok,
    ensures
        ({
            let moved = react(pipeline, report, true)->Ok_0;
            &&& !(moved.job is Poll)
            &&& reads_signal_at(pipeline, report) ==> moved.next.stage == Stage::Stopped
                && moved.job is Stop
            &&& react(moved.next, second, true) matches Ok(later) ==> {
                &&& !(later.job is Poll)
                &&& later.next.stage == Stage::Stopped || (react(later.next, third, true) is Ok
                    ==> react(later.next, third, true)->Ok_0.next.stage == Stage::Stopped)
            }
        }),
{
}

} // verus!
