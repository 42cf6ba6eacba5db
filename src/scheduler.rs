//! When the daily report goes out: a two-state machine that a background
//! worker drives, sleeping between checks of the clock.
use crate::clock::{local_now, ClockTime};
use crate::model::{opt_view, AppConfig};
use crate::text::same_text;
use vstd::prelude::*;

verus! {

/// Seconds between two checks of the clock.
pub const POLL_INTERVAL_SECS: u64 = 60;

/// Seconds of extra sleep after a job, so that a job fires once per minute.
pub const COOLDOWN_SECS: u64 = 60;

#[derive(Clone, Copy, Debug, PartialEq, Eq)]
pub enum SchedulerState {
    /// Waiting for the configured minute.
    Idle,
    /// A job is running.
    Firing,
}

pub enum SchedulerEvent {
    /// The worker woke up; the wall clock shows `now`.
    Woke { now: ClockTime },
    /// The job that was started has ended, however it ended.
    JobDone,
}

#[derive(Clone, Copy, Debug, PartialEq, Eq)]
pub enum SchedulerAction {
    /// Sleep this many seconds, then report `Woke`.
    Sleep(u64),
    /// Run one report job, then report `JobDone`.
    RunJob,
}

/// A job fires when delivery is enabled and the schedule time, as text, is the
/// current time of day.
pub open spec fn fires(enabled: bool, schedule: Option<Seq<char>>, now: Seq<char>) -> bool {
    enabled && schedule == Some(now)
}

/// Whether the configuration asks for a job at `now`.
pub fn should_fire(config: &AppConfig, now: &ClockTime) -> (r: bool)
    requires
        now.wf(),
    ensures
        r == fires(config.feishu_enabled, opt_view(config.schedule_time), now.text()),
{
    if !config.feishu_enabled {
        return false;
    }
    match &config.schedule_time {
        Some(t) => {
            let text = now.format();
            same_text(t.as_str(), text.as_str())
        },
        None => false,
    }
}

/// One transition of the scheduler, with the configuration read at this step.
pub fn scheduler_step(state: SchedulerState, config: &AppConfig, event: SchedulerEvent) -> (r: (
    SchedulerState,
    SchedulerAction,
))
    requires
        event matches SchedulerEvent::Woke { now } ==> now.wf(),
    ensures
        match (state, event) {
            (SchedulerState::Idle, SchedulerEvent::Woke { now }) => if fires(
                config.feishu_enabled,
                opt_view(config.schedule_time),
                now.text(),
            ) {
                r == (SchedulerState::Firing, SchedulerAction::RunJob)
            } else {
                r == (SchedulerState::Idle, SchedulerAction::Sleep(POLL_INTERVAL_SECS))
            },
            (SchedulerState::Firing, SchedulerEvent::JobDone) => r == (
                SchedulerState::Idle,
                SchedulerAction::Sleep((COOLDOWN_SECS + POLL_INTERVAL_SECS) as u64),
            ),
            (SchedulerState::Firing, SchedulerEvent::Woke { .. }) => r == (
                SchedulerState::Firing,
                SchedulerAction::Sleep(POLL_INTERVAL_SECS),
            ),
            (SchedulerState::Idle, SchedulerEvent::JobDone) => r == (
                SchedulerState::Idle,
                SchedulerAction::Sleep(POLL_INTERVAL_SECS),
            ),
        },
{
    match (state, event) {
        (SchedulerState::Idle, SchedulerEvent::Woke { now }) => {
            if should_fire(config, &now) {
                (SchedulerState::Firing, SchedulerAction::RunJob)
            } else {
                (SchedulerState::Idle, SchedulerAction::Sleep(POLL_INTERVAL_SECS))
            }
        },
        (SchedulerState::Firing, SchedulerEvent::JobDone) => (
            SchedulerState::Idle,
            SchedulerAction::Sleep(COOLDOWN_SECS + POLL_INTERVAL_SECS),
        ),
        (SchedulerState::Firing, SchedulerEvent::Woke { .. }) => (
            SchedulerState::Firing,
            SchedulerAction::Sleep(POLL_INTERVAL_SECS),
        ),
        (SchedulerState::Idle, SchedulerEvent::JobDone) => (
            SchedulerState::Idle,
            SchedulerAction::Sleep(POLL_INTERVAL_SECS),
        ),
    }
}

/// Wakes the scheduler: reads the local time of day and takes the step that
/// the configuration asks for at that time.
pub fn wake(state: SchedulerState, config: &AppConfig) -> (r: (SchedulerState, SchedulerAction))
    ensures
        state is Firing ==> r == (SchedulerState::Firing, SchedulerAction::Sleep(POLL_INTERVAL_SECS)),
        r.1 is RunJob ==> exists|now: ClockTime|
            now.wf() && fires(config.feishu_enabled, opt_view(config.schedule_time), now.text()),
        state is Idle ==> r == (SchedulerState::Firing, SchedulerAction::RunJob) || r == (
            SchedulerState::Idle,
            SchedulerAction::Sleep(POLL_INTERVAL_SECS),
        ),
{
    let now = local_now();
    scheduler_step(state, config, SchedulerEvent::Woke { now })
}

/// A job fires at most once in its minute: a job started at second `fired_at`
/// and running for `job_secs` seconds is followed by the sleep that
/// `scheduler_step` asks for on `JobDone`, so the next check of the clock
/// falls in a later minute than the firing, however short the job.
pub proof fn lemma_no_second_fire_in_minute(fired_at: nat, job_secs: nat)
    ensures
        (fired_at + job_secs + (COOLDOWN_SECS + POLL_INTERVAL_SECS)) / 60 > fired_at / 60,
{
    assert((fired_at + job_secs + 120) / 60 >= (fired_at + 60) / 60) by (nonlinear_arith);
    assert((fired_at + 60) / 60 == fired_at / 60 + 1) by (nonlinear_arith);
}

} // verus!
