//! What is said of a unit of the process when it ends.
//!
//! The units of the process run side by side and none of them is restarted:
//! the first one that ends, however it ends, is reported with its name and
//! the process shuts down.
use vstd::prelude::*;

verus! {

/// The units that the process runs side by side.
#[derive(Clone, Copy, Debug, PartialEq, Eq, Structural)]
pub enum Unit {
    /// The HTTP server.
    Server,
    /// The periodic search indexer.
    Indexer,
    /// The worker of the delivery queue.
    Queue,
    /// The control channel.
    ControlChannel,
}

impl Unit {
    /// The name under which the unit is reported.
    pub open spec fn name(self) -> Seq<char> {
        match self {
            Unit::Server => "server"@,
            Unit::Indexer => "meili indexing"@,
            Unit::Queue => "queue"@,
            Unit::ControlChannel => "CLI Manager"@,
        }
    }

    /// The name under which the unit is reported.
    pub fn as_str(&self) -> (name: &'static str)
        ensures
            name@ == self.name(),
    {
        match self {
            Unit::Server => "server",
            Unit::Indexer => "meili indexing",
            Unit::Queue => "queue",
            Unit::ControlChannel => "CLI Manager",
        }
    }
}

/// How a unit has ended.
#[derive(Debug)]
pub enum TaskExit {
    /// It returned without an error.
    Completed,
    /// It returned an error: its message and its chain of causes.
    Failed { message: String, cause_chain: String },
    /// It did not run to its end: it panicked or was cancelled.
    Aborted { message: String, cause_chain: String },
}

/// How loud a report is.
#[derive(Clone, Copy, Debug, PartialEq, Eq, Structural)]
pub enum Severity {
    Info,
    Error,
}

/// The report of the end of a unit.
#[derive(Debug)]
pub struct ExitReport {
    pub severity: Severity,
    pub message: String,
    pub error_message: Option<String>,
    pub cause_chain: Option<String>,
}

/// A report as plain text.
pub struct ExitReportView {
    pub severity: Severity,
    pub message: Seq<char>,
    pub error_message: Option<Seq<char>>,
    pub cause_chain: Option<Seq<char>>,
}

/// A way to end as plain text.
pub enum TaskExitView {
    Completed,
    Failed { message: Seq<char>, cause_chain: Seq<char> },
    Aborted { message: Seq<char>, cause_chain: Seq<char> },
}

impl View for TaskExit {
    type V = TaskExitView;

    open spec fn view(&self) -> TaskExitView {
        match self {
            TaskExit::Completed => TaskExitView::Completed,
            TaskExit::Failed { message, cause_chain } => TaskExitView::Failed {
                message: message@,
                cause_chain: cause_chain@,
            },
            TaskExit::Aborted { message, cause_chain } => TaskExitView::Aborted {
                message: message@,
                cause_chain: cause_chain@,
            },
        }
    }
}

/// The view of an optional text.
pub open spec fn text_of(text: Option<String>) -> Option<Seq<char>> {
    match text {
        Some(t) => Some(t@),
        None => None,
    }
}

impl View for ExitReport {
    type V = ExitReportView;

    open spec fn view(&self) -> ExitReportView {
        ExitReportView {
            severity: self.severity,
            message: self.message@,
            error_message: text_of(self.error_message),
            cause_chain: text_of(self.cause_chain),
        }
    }
}

/// What is reported when the unit `task_name` ends with `outcome`.
pub open spec fn exit_report(task_name: Seq<char>, outcome: TaskExitView) -> ExitReportView {
    match outcome {
        TaskExitView::Completed => ExitReportView {
            severity: Severity::Info,
            message: task_name + " has exited"@,
            error_message: None,
            cause_chain: None,
        },
        TaskExitView::Failed { message, cause_chain } => ExitReportView {
            severity: Severity::Error,
            message: task_name + " failed"@,
            error_message: Some(message),
            cause_chain: Some(cause_chain),
        },
        TaskExitView::Aborted { message, cause_chain } => ExitReportView {
            severity: Severity::Error,
            message: "'"@ + task_name + "' task failed to complete"@,
            error_message: Some(message),
            cause_chain: Some(cause_chain),
        },
    }
}

/// Reports the end of a unit: a quiet line for a unit that returned without
/// an error, a loud one with the error and its causes for every other end.
pub fn report_exit(task_name: &str, outcome: &TaskExit) -> (report: ExitReport)
    ensures
        report@ == exit_report(task_name@, outcome@),
{
    match outcome {
        TaskExit::Completed => {
            let mut message = String::from_str(task_name);
            message.append(" has exited");
            ExitReport {
                severity: Severity::Info,
                message,
                error_message: None,
                cause_chain: None,
            }
        },
        TaskExit::Failed { message: error, cause_chain } => {
            let mut message = String::from_str(task_name);
            message.append(" failed");
            ExitReport {
                severity: Severity::Error,
                message,
                error_message: Some(error.clone()),
                cause_chain: Some(cause_chain.clone()),
            }
        },
        TaskExit::Aborted { message: error, cause_chain } => {
            let mut message = String::from_str("'");
            message.append(task_name);
            message.append("' task failed to complete");
            ExitReport {
                severity: Severity::Error,
                message,
                error_message: Some(error.clone()),
                cause_chain: Some(cause_chain.clone()),
            }
        },
    }
}

/// The report for the unit that ended first. Whatever its outcome, the rest
/// of the process is shut down after it.
pub fn report_first_exit(unit: Unit, outcome: &TaskExit) -> (report: ExitReport)
    ensures
        report@ == exit_report(unit.name(), outcome@),
{
    report_exit(unit.as_str(), outcome)
}

/// Only a unit that returned without an error is reported quietly.
pub proof fn law_only_clean_exits_are_quiet(task_name: Seq<char>, outcome: TaskExitView)
    ensures
        exit_report(task_name, outcome).severity == Severity::Info <==> outcome is Completed,
        exit_report(task_name, outcome).error_message is None <==> outcome is Completed,
{
}

/// Whether the process still runs all its units, or is shutting down after
/// the unit that ended first.
#[derive(Clone, Copy, Debug, PartialEq, Eq, Structural)]
pub enum Supervision {
    /// No unit has ended yet.
    Running,
    /// This unit ended first; the process is shutting down.
    ShuttingDown(Unit),
}

impl Supervision {
    /// The state after `unit` has ended.
    pub open spec fn after_exit(self, unit: Unit) -> Supervision {
        match self {
            Supervision::Running => Supervision::ShuttingDown(unit),
            shutting_down => shutting_down,
        }
    }

    /// The state after the units of `exits` have ended, in this order.
    pub open spec fn after_exits(self, exits: Seq<Unit>) -> Supervision
        decreases exits.len(),
    {
        if exits.len() == 0 {
            self
        } else {
            self.after_exit(exits[0]).after_exits(exits.drop_first())
        }
    }

    /// Takes note of the end of a unit. The first end is reported and starts
    /// the shutdown; every later end is passed over in silence, and no unit is
    /// ever started again.
    pub fn on_exit(&mut self, unit: Unit, outcome: &TaskExit) -> (report: Option<ExitReport>)
        ensures
            *final(self) == old(self).after_exit(unit),
            match *old(self) {
                Supervision::Running => report is Some && report->0@ == exit_report(
                    unit.name(),
                    outcome@,
                ),
                Supervision::ShuttingDown(_) => report is None,
            },
    {
        match self {
            Supervision::Running => {
                *self = Supervision::ShuttingDown(unit);
                Some(report_first_exit(unit, outcome))
            },
            Supervision::ShuttingDown(_) => None,
        }
    }
}

/// Once a unit has ended, the process stays in the shutdown that this unit
/// started, whatever ends afterwards.
pub proof fn law_first_exit_wins(first: Unit, later: Seq<Unit>)
    ensures
        Supervision::Running.after_exit(first).after_exits(later) == Supervision::ShuttingDown(
            first,
        ),
    decreases later.len(),
{
    if later.len() > 0 {
        law_first_exit_wins(first, later.drop_first());
    }
}

} // verus!
