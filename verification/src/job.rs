//! Jobs and the rules by which the dispatcher handles one job after another.

use vstd::prelude::*;

verus! {

/// A search request: the key under which its results are published, and the
/// pattern to search for.
pub struct Job {
    /// Identifies the job; its results are pushed to the list at this key.
    pub id: String,
    /// The text of the regular expression.
    pub pattern: String,
}

/// Where the dispatcher is in its cycle. There is no final phase: after the
/// statistics of one job the dispatcher waits for the next.
#[derive(Clone, Copy, Debug, PartialEq, Eq, Structural)]
pub enum Phase {
    WaitingForJob,
    Parsing,
    Compiling,
    Scanning,
    Aggregating,
}

/// What can go wrong in the worker.
#[derive(Clone, Copy, Debug, PartialEq, Eq, Structural)]
pub enum ErrorKind {
    /// The corpus could not be loaded or a sink connection not made.
    Startup,
    /// The body of a job was malformed.
    JobParse,
    /// The pattern of a job did not compile.
    PatternCompile,
    /// A result could not be pushed to the sink.
    Publish,
}

/// How errors that concern one job alone are treated.
#[derive(Clone, Copy, Debug, PartialEq, Eq, Structural)]
pub enum ErrorPolicy {
    /// Any error ends the process.
    AbortOnAnyError,
    /// A job that does not parse or compile is reported and dropped, and the
    /// dispatcher goes on with the next job.
    IsolateJobErrors,
}

/// Where jobs come from.
#[derive(Clone, Copy, Debug, PartialEq, Eq, Structural)]
pub enum JobSource {
    /// Jobs are taken from the queue as producers add them.
    Queue,
    /// One canned job is timed and enqueued again each time it completes.
    Benchmark,
}

/// What the dispatcher is told once the work of a phase is done.
#[derive(Clone, Copy, Debug, PartialEq, Eq, Structural)]
pub enum Event {
    JobReceived,
    JobParsed,
    JobRejected,
    PatternCompiled,
    PatternRejected,
    ScanFinished,
    PublishFailed,
    StatisticsLogged,
}

/// What is to be done next.
#[derive(Clone, Copy, Debug, PartialEq, Eq, Structural)]
pub enum Action {
    /// Block until the queue yields a job.
    AwaitJob,
    /// Read the id and the pattern out of the body of the job.
    ParseJob,
    /// Compile the pattern of the job.
    CompilePattern,
    /// Scan the corpus and publish one message per chunk.
    Scan,
    /// Report how many documents matched.
    LogStatistics,
    /// Report the error, publish nothing for the job, and await the next.
    DropJob(ErrorKind),
    /// Record the elapsed time, report the mean, clear the results of the
    /// canned job and enqueue it again; then await it.
    RecordAndRequeue,
    /// Print a diagnostic and end the process.
    Abort(ErrorKind),
}

/// The phase that the dispatcher enters and the action that goes with it.
#[derive(Clone, Copy, Debug, PartialEq, Eq, Structural)]
pub struct Step {
    pub phase: Phase,
    pub action: Action,
}

/// Whether an error of kind `kind` ends the process under `policy`. Startup
/// and publishing errors always do: after them the worker cannot make
/// progress. An error in parsing or compiling a job does unless the policy
/// isolates such errors.
pub open spec fn fatal(kind: ErrorKind, policy: ErrorPolicy) -> bool {
    match kind {
        ErrorKind::Startup | ErrorKind::Publish => true,
        ErrorKind::JobParse | ErrorKind::PatternCompile => policy
            == ErrorPolicy::AbortOnAnyError,
    }
}

/// The diagnostic that is printed for an error of kind `kind`.
pub open spec fn diagnostic_text(kind: ErrorKind) -> Seq<char> {
    match kind {
        ErrorKind::Startup => "Error starting the worker"@,
        ErrorKind::JobParse => "Failed to parse job json"@,
        ErrorKind::PatternCompile => "Error parsing regular expression"@,
        ErrorKind::Publish => "Couldn't add results to queue"@,
    }
}

/// What follows an error of kind `kind` that the job in hand ran into: the
/// end of the process, or the next job.
pub open spec fn after_error(kind: ErrorKind, policy: ErrorPolicy) -> Step {
    if fatal(kind, policy) {
        Step { phase: Phase::WaitingForJob, action: Action::Abort(kind) }
    } else {
        Step { phase: Phase::WaitingForJob, action: Action::DropJob(kind) }
    }
}

/// The dispatcher's transitions. An event that the phase does not expect has
/// none.
pub open spec fn transition(phase: Phase, event: Event, policy: ErrorPolicy, source: JobSource)
    -> Option<Step> {
    match (phase, event) {
        (Phase::WaitingForJob, Event::JobReceived) => Some(
            Step { phase: Phase::Parsing, action: Action::ParseJob },
        ),
        (Phase::Parsing, Event::JobParsed) => Some(
            Step { phase: Phase::Compiling, action: Action::CompilePattern },
        ),
        (Phase::Parsing, Event::JobRejected) => Some(after_error(ErrorKind::JobParse, policy)),
        (Phase::Compiling, Event::PatternCompiled) => Some(
            Step { phase: Phase::Scanning, action: Action::Scan },
        ),
        (Phase::Compiling, Event::PatternRejected) => Some(
            after_error(ErrorKind::PatternCompile, policy),
        ),
        (Phase::Scanning, Event::ScanFinished) => Some(
            Step { phase: Phase::Aggregating, action: Action::LogStatistics },
        ),
        (Phase::Scanning, Event::PublishFailed) => Some(after_error(ErrorKind::Publish, policy)),
        (Phase::Aggregating, Event::StatisticsLogged) => Some(
            Step {
                phase: Phase::WaitingForJob,
                action: if source == JobSource::Benchmark {
                    Action::RecordAndRequeue
                } else {
                    Action::AwaitJob
                },
            },
        ),
        _ => None,
    }
}

/// Decides whether an error of kind `kind` ends the process under `policy`.
pub fn is_fatal(kind: ErrorKind, policy: ErrorPolicy) -> (b: bool)
    ensures
        b == fatal(kind, policy),
{
    match kind {
        ErrorKind::Startup => true,
        ErrorKind::Publish => true,
        ErrorKind::JobParse => policy == ErrorPolicy::AbortOnAnyError,
        ErrorKind::PatternCompile => policy == ErrorPolicy::AbortOnAnyError,
    }
}

/// The diagnostic to print for an error of kind `kind`.
pub fn diagnostic(kind: ErrorKind) -> (text: &'static str)
    ensures
        text@ == diagnostic_text(kind),
{
    match kind {
        ErrorKind::Startup => "Error starting the worker",
        ErrorKind::JobParse => "Failed to parse job json",
        ErrorKind::PatternCompile => "Error parsing regular expression",
        ErrorKind::Publish => "Couldn't add results to queue",
    }
}

/// The step that the dispatcher takes in `phase` on `event`, or nothing if
/// the phase does not expect the event.
pub fn next_step(phase: Phase, event: Event, policy: ErrorPolicy, source: JobSource) -> (step:
    Option<Step>)
    ensures
        step == transition(phase, event, policy, source),
{
    match phase {
        Phase::WaitingForJob => match event {
            Event::JobReceived => Some(Step { phase: Phase::Parsing, action: Action::ParseJob }),
            _ => None,
        },
        Phase::Parsing => match event {
            Event::JobParsed => Some(
                Step { phase: Phase::Compiling, action: Action::CompilePattern },
            ),
            Event::JobRejected => Some(on_error(ErrorKind::JobParse, policy)),
            _ => None,
        },
        Phase::Compiling => match event {
            Event::PatternCompiled => Some(Step { phase: Phase::Scanning, action: Action::Scan }),
            Event::PatternRejected => Some(on_error(ErrorKind::PatternCompile, policy)),
            _ => None,
        },
        Phase::Scanning => match event {
            Event::ScanFinished => Some(
                Step { phase: Phase::Aggregating, action: Action::LogStatistics },
            ),
            Event::PublishFailed => Some(on_error(ErrorKind::Publish, policy)),
            _ => None,
        },
        Phase::Aggregating => match event {
            Event::StatisticsLogged => {
                let action = if source == JobSource::Benchmark {
                    Action::RecordAndRequeue
                } else {
                    Action::AwaitJob
                };
                Some(Step { phase: Phase::WaitingForJob, action })
            },
            _ => None,
        },
    }
}

/// The step after an error of kind `kind`.
pub fn on_error(kind: ErrorKind, policy: ErrorPolicy) -> (step: Step)
    ensures
        step == after_error(kind, policy),
{
    if is_fatal(kind, policy) {
        Step { phase: Phase::WaitingForJob, action: Action::Abort(kind) }
    } else {
        Step { phase: Phase::WaitingForJob, action: Action::DropJob(kind) }
    }
}

/// Jobs never overlap, and a job is scanned only after it parsed and its
/// pattern compiled: a job is accepted only while the dispatcher waits for
/// one, scanning starts only when a pattern compiled, and the dispatcher
/// waits again only after the statistics of a job or after an error.
pub proof fn lemma_one_job_at_a_time(
    phase: Phase,
    event: Event,
    policy: ErrorPolicy,
    source: JobSource,
)
    ensures
        ({
            let taken = transition(phase, event, policy, source);
            &&& event == Event::JobReceived && taken is Some ==> phase == Phase::WaitingForJob
            &&& taken is Some && taken->0.phase == Phase::Scanning ==> phase == Phase::Compiling
                && event == Event::PatternCompiled
            &&& taken is Some && taken->0.phase == Phase::WaitingForJob ==> (phase
                == Phase::Aggregating && event == Event::StatisticsLogged)
                || taken->0.action is DropJob || taken->0.action is Abort
        }),
{
}

/// A failure to publish ends the process under either policy. A job that
/// does not parse or compile ends it under `AbortOnAnyError`, and is dropped
/// without a scan under `IsolateJobErrors`.
pub proof fn lemma_error_handling(policy: ErrorPolicy, source: JobSource)
    ensures
        transition(Phase::Scanning, Event::PublishFailed, policy, source) == Some(
            Step { phase: Phase::WaitingForJob, action: Action::Abort(ErrorKind::Publish) },
        ),
        policy == ErrorPolicy::AbortOnAnyError ==> transition(
            Phase::Parsing,
            Event::JobRejected,
            policy,
            source,
        ) == Some(Step { phase: Phase::WaitingForJob, action: Action::Abort(ErrorKind::JobParse) })
            && transition(Phase::Compiling, Event::PatternRejected, policy, source) == Some(
            Step { phase: Phase::WaitingForJob, action: Action::Abort(ErrorKind::PatternCompile) },
        ),
        policy == ErrorPolicy::IsolateJobErrors ==> transition(
            Phase::Parsing,
            Event::JobRejected,
            policy,
            source,
        ) == Some(
            Step { phase: Phase::WaitingForJob, action: Action::DropJob(ErrorKind::JobParse) },
        ) && transition(Phase::Compiling, Event::PatternRejected, policy, source) == Some(
            Step {
                phase: Phase::WaitingForJob,
                action: Action::DropJob(ErrorKind::PatternCompile),
            },
        ),
{
}

} // verus!
