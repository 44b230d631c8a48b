use grep_caselaw::bench::benchmark_job;
use grep_caselaw::bench::Mean;
use grep_caselaw::bench::TimingLog;
use grep_caselaw::bench::BENCHMARK_JOB_ID;
use grep_caselaw::job::diagnostic;
use grep_caselaw::job::is_fatal;
use grep_caselaw::job::next_step;
use grep_caselaw::job::on_error;
use grep_caselaw::job::Action;
use grep_caselaw::job::ErrorKind;
use grep_caselaw::job::ErrorPolicy;
use grep_caselaw::job::Event;
use grep_caselaw::job::JobSource;
use grep_caselaw::job::Phase;
use grep_caselaw::job::Step;

const PHASES: [Phase; 5] =
    [Phase::WaitingForJob, Phase::Parsing, Phase::Compiling, Phase::Scanning, Phase::Aggregating];

const EVENTS: [Event; 8] = [
    Event::JobReceived,
    Event::JobParsed,
    Event::JobRejected,
    Event::PatternCompiled,
    Event::PatternRejected,
    Event::ScanFinished,
    Event::PublishFailed,
    Event::StatisticsLogged,
];

#[test]
fn a_job_passes_through_every_phase_in_order() {
    let policy = ErrorPolicy::AbortOnAnyError;
    let source = JobSource::Queue;
    let mut phase = Phase::WaitingForJob;
    let events =
        [Event::JobReceived, Event::JobParsed, Event::PatternCompiled, Event::ScanFinished];
    let expected = [
        Step { phase: Phase::Parsing, action: Action::ParseJob },
        Step { phase: Phase::Compiling, action: Action::CompilePattern },
        Step { phase: Phase::Scanning, action: Action::Scan },
        Step { phase: Phase::Aggregating, action: Action::LogStatistics },
    ];
    for (event, want) in events.iter().zip(expected.iter()) {
        let step = next_step(phase, *event, policy, source).expect("the event is expected");
        assert_eq!(step, *want);
        phase = step.phase;
    }
    assert_eq!(
        next_step(phase, Event::StatisticsLogged, policy, source),
        Some(Step { phase: Phase::WaitingForJob, action: Action::AwaitJob })
    );
}

#[test]
fn benchmark_mode_requeues_after_the_statistics() {
    assert_eq!(
        next_step(
            Phase::Aggregating,
            Event::StatisticsLogged,
            ErrorPolicy::AbortOnAnyError,
            JobSource::Benchmark
        ),
        Some(Step { phase: Phase::WaitingForJob, action: Action::RecordAndRequeue })
    );
}

#[test]
fn every_error_is_fatal_unless_job_errors_are_isolated() {
    for kind in [ErrorKind::Startup, ErrorKind::JobParse, ErrorKind::PatternCompile, ErrorKind::Publish]
    {
        assert!(is_fatal(kind, ErrorPolicy::AbortOnAnyError));
        assert_eq!(on_error(kind, ErrorPolicy::AbortOnAnyError).action, Action::Abort(kind));
    }
    assert!(is_fatal(ErrorKind::Startup, ErrorPolicy::IsolateJobErrors));
    assert!(is_fatal(ErrorKind::Publish, ErrorPolicy::IsolateJobErrors));
    assert!(!is_fatal(ErrorKind::JobParse, ErrorPolicy::IsolateJobErrors));
    assert!(!is_fatal(ErrorKind::PatternCompile, ErrorPolicy::IsolateJobErrors));
}

#[test]
fn an_isolated_job_error_drops_the_job_and_waits_for_the_next() {
    let policy = ErrorPolicy::IsolateJobErrors;
    assert_eq!(
        next_step(Phase::Parsing, Event::JobRejected, policy, JobSource::Queue),
        Some(Step { phase: Phase::WaitingForJob, action: Action::DropJob(ErrorKind::JobParse) })
    );
    assert_eq!(
        next_step(Phase::Compiling, Event::PatternRejected, policy, JobSource::Queue),
        Some(Step {
            phase: Phase::WaitingForJob,
            action: Action::DropJob(ErrorKind::PatternCompile)
        })
    );
    assert_eq!(
        next_step(Phase::Scanning, Event::PublishFailed, policy, JobSource::Queue),
        Some(Step { phase: Phase::WaitingForJob, action: Action::Abort(ErrorKind::Publish) })
    );
}

#[test]
fn job_errors_abort_under_the_baseline_policy() {
    let policy = ErrorPolicy::AbortOnAnyError;
    assert_eq!(
        next_step(Phase::Parsing, Event::JobRejected, policy, JobSource::Queue),
        Some(Step { phase: Phase::WaitingForJob, action: Action::Abort(ErrorKind::JobParse) })
    );
    assert_eq!(
        next_step(Phase::Compiling, Event::PatternRejected, policy, JobSource::Queue),
        Some(Step {
            phase: Phase::WaitingForJob,
            action: Action::Abort(ErrorKind::PatternCompile)
        })
    );
}

#[test]
fn each_phase_expects_only_its_own_events() {
    let mut accepted = 0;
    for phase in PHASES {
        for event in EVENTS {
            let step =
                next_step(phase, event, ErrorPolicy::IsolateJobErrors, JobSource::Queue);
            if step.is_some() {
                accepted += 1;
            }
            if event == Event::JobReceived {
                assert_eq!(step.is_some(), phase == Phase::WaitingForJob);
            }
        }
    }
    assert_eq!(accepted, 8);
}

#[test]
fn the_mean_of_the_run_times_is_exact() {
    let mut log = TimingLog::new();
    assert_eq!(log.mean(), None);
    log.record(1);
    assert_eq!(log.mean(), Some(Mean { whole: 1, remainder: 0, count: 1 }));
    log.record(2);
    log.record(4);
    assert_eq!(log.len(), 3);
    assert_eq!(log.total(), 7);
    assert_eq!(log.mean(), Some(Mean { whole: 2, remainder: 1, count: 3 }));
}

#[test]
fn the_sum_of_the_run_times_does_not_wrap() {
    let mut log = TimingLog::new();
    log.record(u64::MAX);
    log.record(u64::MAX);
    log.record(3);
    assert_eq!(log.total(), 2 * (u64::MAX as u128) + 3);
    let mean = log.mean().expect("three samples");
    assert_eq!(mean.count, 3);
    assert_eq!(
        (mean.whole as u128) * 3 + mean.remainder as u128,
        2 * (u64::MAX as u128) + 3
    );
    assert!(mean.remainder < 3);
}

#[test]
fn the_canned_job_searches_for_the_parties() {
    let job = benchmark_job();
    assert_eq!(job.id, "1");
    assert_eq!(job.id, BENCHMARK_JOB_ID);
    assert_eq!(job.pattern, "([dD])efendant|(Pp)laintiff");
}

#[test]
fn each_kind_of_error_has_its_diagnostic() {
    assert_eq!(diagnostic(ErrorKind::Startup), "Error starting the worker");
    assert_eq!(diagnostic(ErrorKind::JobParse), "Failed to parse job json");
    assert_eq!(diagnostic(ErrorKind::PatternCompile), "Error parsing regular expression");
    assert_eq!(diagnostic(ErrorKind::Publish), "Couldn't add results to queue");
}
