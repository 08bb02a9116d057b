//! Starting and stopping the monitor, as far as the shared state sees it.
use super::state::{ state_view, with_log, ReporterState, StateView};
use super::worker::{log_line, new_log_entry, LoopClock};
use crate::models::ClientConfig;
use crate::text::owned;
use vstd::prelude::*;

verus! {

/// Every configuration can be monitored; the check exists for callers that ask.
pub fn config_is_ready(_config: &ClientConfig) -> (r: bool)
    ensures
        r,
{
    true
}

/// How often a sleeping worker looks at its stop flag, in milliseconds.
pub const STOP_CHECK_STEP_MS: u64 = 200;

/// The next slice of a sleep that has `remaining_ms` left: what remains, but
/// at most `STOP_CHECK_STEP_MS`, so that a stop is seen within that time and
/// a sleep with time left always moves on.
pub fn sleep_slice_ms(remaining_ms: u64) -> (r: u64)
    ensures
        r == (if remaining_ms < STOP_CHECK_STEP_MS {
            remaining_ms
        } else {
            STOP_CHECK_STEP_MS
        }),
        r <= remaining_ms,
        remaining_ms > 0 ==> r > 0,
{
    if remaining_ms < STOP_CHECK_STEP_MS {
        remaining_ms
    } else {
        STOP_CHECK_STEP_MS
    }
}

/// The error a start gets while the previous worker has not exited yet.
pub fn reporter_worker_stopping() -> (r: String)
    ensures
        r@ == "Local monitor is still stopping. Try again shortly."@,
{
    owned("Local monitor is still stopping. Try again shortly.")
}

/// The state once run `run_id` has started: running, owned by the run, no
/// error, and the start logged.
pub open spec fn started_spec(s: StateView, run_id: u64, sequence: u64, clock: LoopClock) -> StateView {
    with_log(
        StateView { running: true, active_run_id: Some(run_id), last_error: None, ..s },
        log_line(
            sequence,
            clock,
            "info"@,
            "Local monitor started"@,
            "Activity capture is now running inside this desktop app."@,
        ),
    )
}

/// The state after a stop request, once the worker has been waited for.
pub open spec fn stopped_spec(s: StateView, stopped_cleanly: bool, sequence: u64, clock: LoopClock) -> StateView {
    let ended = StateView { running: false, active_run_id: None, ..s };
    if stopped_cleanly {
        with_log(
            StateView { current_activity: None, ..ended },
            log_line(
                sequence,
                clock,
                "warn"@,
                "Local monitor stopped"@,
                "Activity capture has been stopped."@,
            ),
        )
    } else {
        with_log(
            ended,
            log_line(
                sequence,
                clock,
                "warn"@,
                "Local monitor is stopping"@,
                "The worker will exit after the current capture cycle completes."@,
            ),
        )
    }
}

/// Hands the state to run `run_id` and logs the start.
pub fn record_start(state: &mut ReporterState, run_id: u64, sequence: &mut u64, clock: &LoopClock)
    requires
        *old(sequence) < u64::MAX,
    ensures
        state_view(*final(state)) == started_spec(state_view(*old(state)), run_id, *old(sequence), *clock),
        *final(sequence) == *old(sequence) + 1,
{
    state.begin_run(run_id);
    let entry = new_log_entry(
        sequence,
        clock,
        "info",
        owned("Local monitor started"),
        owned("Activity capture is now running inside this desktop app."),
    );
    state.push_log(entry);
}

/// Ends the run: when the worker exited, the activity is cleared and the
/// stop logged; otherwise the log says that it is still stopping.
pub fn record_stop(
    state: &mut ReporterState,
    stopped_cleanly: bool,
    sequence: &mut u64,
    clock: &LoopClock,
)
    requires
        *old(sequence) < u64::MAX,
    ensures
        state_view(*final(state)) == stopped_spec(
            state_view(*old(state)),
            stopped_cleanly,
            *old(sequence),
            *clock,
        ),
        *final(sequence) == *old(sequence) + 1,
{
    state.end_run();
    if stopped_cleanly {
        state.clear_activity();
        let entry = new_log_entry(
            sequence,
            clock,
            "warn",
            owned("Local monitor stopped"),
            owned("Activity capture has been stopped."),
        );
        state.push_log(entry);
    } else {
        let entry = new_log_entry(
            sequence,
            clock,
            "warn",
            owned("Local monitor is stopping"),
            owned("The worker will exit after the current capture cycle completes."),
        );
        state.push_log(entry);
    }
}

} // verus!
