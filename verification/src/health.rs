//! What the health endpoints and the metrics of the server say.

use vstd::prelude::*;

use crate::text::{decimal, opt_text, push_decimal};

verus! {

/// The body of the liveness probe: the process is up and serving.
pub const LIVE: &'static str = "ok";

/// The status code and the body of the readiness probe. A load balancer holds
/// traffic until the pipeline plays.
pub fn readiness(playing: bool) -> (r: (u16, &'static str))
    ensures
        playing ==> r.0 == 200 && r.1@ == "ready"@,
        !playing ==> r.0 == 503 && r.1@ == "not ready"@,
{
    if playing {
        (200, "ready")
    } else {
        (503, "not ready")
    }
}

/// What is known of the server's process.
#[derive(Debug, Clone, Copy)]
pub struct ProcessSample {
    /// Memory in use, in bytes.
    pub memory: u64,
    /// The number of threads, where it is known.
    pub tasks: Option<usize>,
}

/// The metrics of the server's process.
#[derive(Debug)]
pub struct ProcessMetrics {
    pub host: String,
    /// Memory in use, such as `12 MB`.
    pub ram: String,
    pub threads: usize,
}

/// The memory in use in whole megabytes. 0 where nothing is known of the process.
pub open spec fn ram_mb(sample: Option<ProcessSample>) -> nat {
    match sample {
        Some(s) => s.memory as nat / (1024 * 1024),
        None => 0,
    }
}

/// What a `ProcessMetrics` holds.
pub struct ProcessMetricsView {
    pub host: Seq<char>,
    pub ram: Seq<char>,
    pub threads: usize,
}

impl View for ProcessMetrics {
    type V = ProcessMetricsView;

    open spec fn view(&self) -> ProcessMetricsView {
        ProcessMetricsView { host: self.host@, ram: self.ram@, threads: self.threads }
    }
}

/// The metrics of a process on a host, each where it is known.
pub open spec fn metrics_of(
    host: Option<Seq<char>>,
    sample: Option<ProcessSample>,
) -> ProcessMetricsView {
    ProcessMetricsView {
        host: match host {
            Some(name) => name,
            None => "unknown-host"@,
        },
        ram: decimal(ram_mb(sample)) + " MB"@,
        threads: match sample {
            Some(s) => match s.tasks {
                Some(n) => n,
                None => 0,
            },
            None => 0,
        },
    }
}

/// The metrics that are logged, from what is known of the process and of the name of
/// the host.
pub fn process_metrics(host: Option<String>, sample: Option<ProcessSample>) -> (r: ProcessMetrics)
    ensures
        r.host@ == (match host {
            Some(name) => name@,
            None => "unknown-host"@,
        }),
        r.ram@ == decimal(ram_mb(sample)) + " MB"@,
        r.threads == (match sample {
            Some(s) => match s.tasks {
                Some(n) => n,
                None => 0,
            },
            None => 0,
        }),
        r@ == metrics_of(opt_text(host), sample),
{
    let host = match host {
        Some(name) => name,
        None => "unknown-host".to_owned(),
    };
    let mut megabytes: u64 = 0;
    let mut threads: usize = 0;
    if let Some(s) = sample {
        megabytes = s.memory / (1024 * 1024);
        if let Some(n) = s.tasks {
            threads = n;
        }
    }
    let mut ram = String::new();
    push_decimal(&mut ram, megabytes);
    ram.append(" MB");
    ProcessMetrics { host, ram, threads }
}

/// What happens in the course of logging the metrics.
#[derive(Debug, Clone, Copy, PartialEq, Eq, Structural)]
pub enum MetricsEvent {
    /// The server knows which process it is.
    PidKnown,
    /// The server cannot find out which process it is.
    PidUnknown,
    /// One record was logged.
    Logged,
    /// The pause is over.
    Slept,
}

/// What is to be done to log the metrics.
#[derive(Debug, Clone, Copy, PartialEq, Eq, Structural)]
pub enum MetricsAction {
    /// Log one record.
    LogRound,
    /// Pause for this long.
    Sleep { seconds: u64 },
    /// Log no more.
    End,
}

/// What is to be done on an event: without knowing the process nothing is ever
/// logged, otherwise one record every 5 seconds.
pub open spec fn metrics_action(event: MetricsEvent) -> MetricsAction {
    match event {
        MetricsEvent::PidUnknown => MetricsAction::End,
        MetricsEvent::PidKnown | MetricsEvent::Slept => MetricsAction::LogRound,
        MetricsEvent::Logged => MetricsAction::Sleep { seconds: 5 },
    }
}

/// What is to be done on an event.
pub fn on_metrics_event(event: MetricsEvent) -> (r: MetricsAction)
    ensures
        r == metrics_action(event),
{
    match event {
        MetricsEvent::PidUnknown => MetricsAction::End,
        MetricsEvent::PidKnown | MetricsEvent::Slept => MetricsAction::LogRound,
        MetricsEvent::Logged => MetricsAction::Sleep { seconds: 5 },
    }
}

/// The event that reports that an action was performed. None follows the end.
pub open spec fn performed(action: MetricsAction) -> Option<MetricsEvent> {
    match action {
        MetricsAction::LogRound => Some(MetricsEvent::Logged),
        MetricsAction::Sleep { .. } => Some(MetricsEvent::Slept),
        MetricsAction::End => None,
    }
}

/// The action number `n`, counted from 0, of a run that starts with `first`. `None`
/// where the run has ended before.
pub open spec fn nth_action(first: MetricsEvent, n: nat) -> Option<MetricsAction>
    decreases n,
{
    if n == 0 {
        Some(metrics_action(first))
    } else {
        match nth_action(first, (n - 1) as nat) {
            Some(before) => match performed(before) {
                Some(event) => Some(metrics_action(event)),
                None => None,
            },
            None => None,
        }
    }
}

/// Where the process is known the metrics never end: every other action logs one
/// record, and between two records there is one pause, of 5 seconds.
pub proof fn law_one_record_every_five_seconds(n: nat)
    ensures
        nth_action(MetricsEvent::PidKnown, n) == Some(
            if n % 2 == 0 {
                MetricsAction::LogRound
            } else {
                MetricsAction::Sleep { seconds: 5 }
            },
        ),
    decreases n,
{
    if n > 0 {
        law_one_record_every_five_seconds((n - 1) as nat);
    }
}

/// Where the process is not known the metrics end at once, and no record is ever
/// logged.
pub proof fn law_no_record_without_a_process(n: nat)
    ensures
        nth_action(MetricsEvent::PidUnknown, n) == (if n == 0 {
            Some(MetricsAction::End)
        } else {
            None
        }),
    decreases n,
{
    if n > 0 {
        law_no_record_without_a_process((n - 1) as nat);
    }
}

/// The memory is given in whole megabytes, rounded down: as many as fit in it, and no
/// more.
pub proof fn law_memory_is_in_whole_megabytes(s: ProcessSample)
    ensures
        ram_mb(Some(s)) * 1_048_576 <= s.memory,
        s.memory < (ram_mb(Some(s)) + 1) * 1_048_576,
        ram_mb(None) == 0,
{
    let m = s.memory as nat;
    assert(m / (1024 * 1024) * 1_048_576 <= m < (m / (1024 * 1024) + 1) * 1_048_576)
        by (nonlinear_arith);
}

/// Each metric is what is known, and stands for nothing where nothing is known.
pub proof fn law_metrics_are_what_is_known(
    host: Option<Seq<char>>,
    sample: Option<ProcessSample>,
)
    ensures
        ({
            let m = metrics_of(host, sample);
            &&& host is Some ==> m.host == host->0
            &&& host is None ==> m.host == "unknown-host"@
            &&& sample is Some && sample->0.tasks is Some ==> m.threads == sample->0.tasks->0
            &&& sample is None || sample->0.tasks is None ==> m.threads == 0
            &&& sample is None ==> m.ram == decimal(0) + " MB"@
            &&& sample is Some ==> m.ram == decimal((sample->0.memory / 1_048_576) as nat) + " MB"@
        }),
{
}

} // verus!
