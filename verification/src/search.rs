//! The schedule of the periodic search indexer: when the next run is due,
//! and when a failing indexer is given up.
use crate::config::MeiliConfig;
use vstd::prelude::*;

verus! {

/// Seconds between a failed run and the next try, unless configured.
pub const DEFAULT_RETRY_SECONDS: u64 = 60;

/// Failed runs that are tolerated, unless configured.
pub const DEFAULT_MAX_RETRIES: u64 = 5;

/// Seconds between a good run and the next one, unless configured.
pub const DEFAULT_INDEXING_INTERVAL_SECONDS: u64 = 3600;

/// What the indexer does after a run.
#[derive(Clone, Copy, Debug, PartialEq, Eq, Structural)]
pub enum IndexerStep {
    /// Rest for the indexing interval, then run again.
    RunAfter { seconds: u64 },
    /// Rest for the retry interval, then run again; so many retries are left.
    RetryAfter { seconds: u64, retries_left: u64 },
    /// End with the error of the last run.
    GiveUp,
}

/// The intervals of the indexer and the count of the runs that have failed.
/// The count is never reset: `max_retries` failures are tolerated over the
/// whole life of the indexer.
#[derive(Clone, Copy, Debug, PartialEq, Eq, Structural)]
pub struct IndexerSchedule {
    pub retry_seconds: u64,
    pub max_retries: u64,
    pub indexing_interval_seconds: u64,
    pub current_retries: u64,
}

/// The value of a setting, or its default.
pub open spec fn setting_or(setting: Option<u64>, default: u64) -> u64 {
    match setting {
        Some(value) => value,
        None => default,
    }
}

impl IndexerSchedule {
    /// Whether the count of failed runs is within the tolerated number.
    pub open spec fn wf(self) -> bool {
        self.current_retries <= self.max_retries
    }

    /// The step after a run that succeeded (`true`) or failed (`false`).
    pub open spec fn step_after(self, succeeded: bool) -> IndexerStep {
        if succeeded {
            IndexerStep::RunAfter { seconds: self.indexing_interval_seconds }
        } else if self.max_retries > self.current_retries {
            IndexerStep::RetryAfter {
                seconds: self.retry_seconds,
                retries_left: (self.max_retries - self.current_retries - 1) as u64,
            }
        } else {
            IndexerStep::GiveUp
        }
    }

    /// The schedule after a run that succeeded (`true`) or failed (`false`).
    pub open spec fn after(self, succeeded: bool) -> IndexerSchedule {
        if !succeeded && self.max_retries > self.current_retries {
            IndexerSchedule { current_retries: (self.current_retries + 1) as u64, ..self }
        } else {
            self
        }
    }

    /// The schedule after a sequence of runs, first run first.
    pub open spec fn after_all(self, runs: Seq<bool>) -> IndexerSchedule
        decreases runs.len(),
    {
        if runs.len() == 0 {
            self
        } else {
            self.after(runs[0]).after_all(runs.drop_first())
        }
    }

    /// The schedule that the configuration asks for, with no failed run yet.
    pub fn from_config(config: &MeiliConfig) -> (schedule: Self)
        ensures
            schedule.retry_seconds == setting_or(config.retry_seconds, DEFAULT_RETRY_SECONDS),
            schedule.max_retries == setting_or(config.max_retries, DEFAULT_MAX_RETRIES),
            schedule.indexing_interval_seconds == setting_or(
                config.indexing_interval_seconds,
                DEFAULT_INDEXING_INTERVAL_SECONDS,
            ),
            schedule.current_retries == 0,
            schedule.wf(),
    {
        IndexerSchedule {
            retry_seconds: match config.retry_seconds {
                Some(seconds) => seconds,
                None => DEFAULT_RETRY_SECONDS,
            },
            max_retries: match config.max_retries {
                Some(retries) => retries,
                None => DEFAULT_MAX_RETRIES,
            },
            indexing_interval_seconds: match config.indexing_interval_seconds {
                Some(seconds) => seconds,
                None => DEFAULT_INDEXING_INTERVAL_SECONDS,
            },
            current_retries: 0,
        }
    }

    /// Takes note of a run and says what to do next; see
    /// [`IndexerSchedule::step_after`] and [`IndexerSchedule::after`].
    pub fn after_run(&mut self, succeeded: bool) -> (step: IndexerStep)
        ensures
            step == old(self).step_after(succeeded),
            *final(self) == old(self).after(succeeded),
            old(self).wf() ==> final(self).wf(),
    {
        if succeeded {
            IndexerStep::RunAfter { seconds: self.indexing_interval_seconds }
        } else if self.max_retries > self.current_retries {
            self.current_retries = self.current_retries + 1;
            IndexerStep::RetryAfter {
                seconds: self.retry_seconds,
                retries_left: self.max_retries - self.current_retries,
            }
        } else {
            IndexerStep::GiveUp
        }
    }
}

/// How many runs of the sequence failed.
pub open spec fn failures(runs: Seq<bool>) -> nat
    decreases runs.len(),
{
    if runs.len() == 0 {
        0
    } else {
        let here: nat = if runs[0] {
            0
        } else {
            1
        };
        here + failures(runs.drop_first())
    }
}

/// A run that succeeds never ends the indexer, and never changes the count.
pub proof fn law_success_keeps_running(schedule: IndexerSchedule)
    ensures
        schedule.step_after(true) == (IndexerStep::RunAfter {
            seconds: schedule.indexing_interval_seconds,
        }),
        schedule.after(true) == schedule,
{
}

/// As long as the runs so far have failed no more than `max_retries` times,
/// the count of the schedule is the number of failures so far; and the
/// indexer is given up exactly by a failure that comes when `max_retries`
/// failures have been counted.
pub proof fn law_gives_up_after_max_retries(schedule: IndexerSchedule, runs: Seq<bool>)
    requires
        schedule.wf(),
        schedule.current_retries + failures(runs) <= schedule.max_retries,
    ensures
        schedule.after_all(runs).current_retries == schedule.current_retries + failures(runs),
        schedule.after_all(runs).wf(),
        schedule.after_all(runs).step_after(false) is GiveUp <==> schedule.current_retries
            + failures(runs) == schedule.max_retries,
    decreases runs.len(),
{
    if runs.len() > 0 {
        law_gives_up_after_max_retries(schedule.after(runs[0]), runs.drop_first());
    }
}

} // verus!
