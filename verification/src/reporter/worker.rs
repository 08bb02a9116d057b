//! One pass of the capture loop: from what was captured to the log lines,
//! the recorded activity, the loop's memory and how long to sleep.
use super::state::{
    activity_record, guarded_error, guarded_update, log_view, with_log, ActivityRecord,
    LogView, ReporterActivity, ReporterLogEntry, ReporterState, StateView, state_view,
    clone_activity,
};
use crate::models::{copy_opt_string, ClientConfig};
use crate::platform::{media_is_reportable, ForegroundSnapshot, MediaInfo};
use crate::rules::resolve::{activity_view, resolve_activity, resolve_spec, ActivityView};
use crate::rules::types::ResolvedActivity;
use crate::text::{decimal, decimal_string, non_empty, non_empty_spec, owned, push_str};
use vstd::prelude::*;

verus! {

/// Consecutive failures never stretch the sleep past this.
pub const MAX_ERROR_BACKOFF_MS: u64 = 30000;

/// The clock as the loop reads it once per pass.
pub struct LoopClock {
    /// Nanoseconds since the epoch, for heartbeat timing.
    pub now_ns: u64,
    /// Milliseconds since the epoch, for log ids.
    pub unix_ms: u64,
    /// The same instant in RFC 3339, for timestamps.
    pub iso: String,
}

/// What the loop remembers from one pass to the next.
pub struct LoopMemory {
    pub last_signature: Option<String>,
    pub last_emit_at_ns: Option<u64>,
    pub consecutive_errors: u32,
    pub last_media_error: Option<String>,
    /// The number the next log id carries.
    pub sequence: u64,
}

pub struct MemoryView {
    pub last_signature: Option<Seq<char>>,
    pub last_emit_at_ns: Option<u64>,
    pub consecutive_errors: u32,
    pub last_media_error: Option<Seq<char>>,
    pub sequence: u64,
}

pub open spec fn memory_view(m: LoopMemory) -> MemoryView {
    MemoryView {
        last_signature: m.last_signature.deep_view(),
        last_emit_at_ns: m.last_emit_at_ns,
        consecutive_errors: m.consecutive_errors,
        last_media_error: m.last_media_error.deep_view(),
        sequence: m.sequence,
    }
}

/// What one capture brought back.
pub enum CaptureOutcome {
    /// The foreground window was read; `media` is what the media capture gave
    /// (an empty record when it was skipped or failed with `media_error`).
    Captured { snapshot: ForegroundSnapshot, media: MediaInfo, media_error: Option<String> },
    /// The foreground window could not be read.
    ForegroundFailed(String),
}

/// How long to sleep, and the activity whose report log (the newest entry)
/// still needs its payload.
pub struct IterationOutcome {
    pub sleep_ms: u64,
    pub report: Option<(ResolvedActivity, ReporterActivity)>,
}

/// A log line with plain texts: id `"<unix ms>-<sequence>"`.
pub open spec fn log_line(
    sequence: u64,
    clock: LoopClock,
    level: Seq<char>,
    title: Seq<char>,
    detail: Seq<char>,
) -> LogView {
    LogView {
        id: decimal(clock.unix_ms as nat) + "-"@ + decimal(sequence as nat),
        timestamp: clock.iso@,
        level,
        title,
        detail,
        title_key: None,
        title_params: None,
        detail_key: None,
        detail_params: None,
        payload: None,
    }
}

/// The poll interval, at least a second.
pub open spec fn poll_interval_spec(c: ClientConfig) -> u64 {
    if c.poll_interval_ms < 1000 {
        1000
    } else {
        c.poll_interval_ms
    }
}

/// The heartbeat interval: none when it is zero, else at least a second.
pub open spec fn heartbeat_interval_spec(c: ClientConfig) -> Option<u64> {
    if c.heartbeat_interval_ms == 0 {
        None
    } else if c.heartbeat_interval_ms < 1000 {
        Some(1000)
    } else {
        Some(c.heartbeat_interval_ms)
    }
}

/// A changed activity is always reported; an unchanged one only when a
/// heartbeat interval is set and has passed since the last report.
pub open spec fn should_emit_spec(
    same_as_last: bool,
    heartbeat_ms: Option<u64>,
    last_emit_at_ns: Option<u64>,
    now_ns: u64,
) -> bool {
    if !same_as_last {
        true
    } else {
        match (heartbeat_ms, last_emit_at_ns) {
            (Some(interval), Some(last)) => last <= now_ns && now_ns - last >= interval * 1000000,
            _ => false,
        }
    }
}

/// The sleep after a pass: the poll interval, or after two or more failures
/// in a row the interval times 4, 8 or 16, at most `MAX_ERROR_BACKOFF_MS`.
pub open spec fn sleep_ms_spec(poll_ms: u64, consecutive_errors: u32) -> int {
    if consecutive_errors > 1 {
        let factor: int = if consecutive_errors == 2 {
            4
        } else if consecutive_errors == 3 {
            8
        } else {
            16
        };
        if poll_ms * factor > MAX_ERROR_BACKOFF_MS {
            MAX_ERROR_BACKOFF_MS as int
        } else {
            poll_ms * factor
        }
    } else {
        poll_ms as int
    }
}

/// The activity the monitor shows for a resolved capture.
pub open spec fn reported_activity(
    c: ClientConfig,
    snapshot: ForegroundSnapshot,
    a: ActivityView,
    media: MediaInfo,
    updated_at: Seq<char>,
) -> ActivityRecord {
    let shown = media_is_reportable(media, c.report_stopped_media);
    ActivityRecord {
        process_name: a.process_name,
        process_title: a.process_title,
        raw_process_title: non_empty_spec(snapshot.process_title@),
        media_title: if shown {
            non_empty_spec(media.title@)
        } else {
            None
        },
        media_artist: if shown {
            non_empty_spec(media.artist@)
        } else {
            None
        },
        media_album: if shown {
            non_empty_spec(media.album@)
        } else {
            None
        },
        media_summary: a.media_summary,
        media_duration_ms: if shown {
            media.duration_ms
        } else {
            None
        },
        media_position_ms: if shown {
            media.position_ms
        } else {
            None
        },
        play_source: a.play_source,
        status_text: a.status_text,
        updated_at: Some(updated_at),
    }
}

/// A media failure is logged when it differs from the last one logged.
pub open spec fn media_log_needed(last: Option<Seq<char>>, error: Option<Seq<char>>) -> bool {
    error is Some && last != error
}

pub open spec fn after_media(
    s: StateView,
    m: MemoryView,
    clock: LoopClock,
    media_error: Option<Seq<char>>,
) -> (StateView, MemoryView) {
    let m1 = MemoryView { last_media_error: media_error, ..m };
    if media_log_needed(m.last_media_error, media_error) {
        (
            with_log(
                s,
                log_line(m.sequence, clock, "warn"@, "Media capture failed"@, media_error->0),
            ),
            MemoryView { sequence: (m.sequence + 1) as u64, ..m1 },
        )
    } else {
        (s, m1)
    }
}

pub open spec fn report_title(same: bool) -> Seq<char> {
    if same {
        "Activity heartbeat"@
    } else {
        "Activity updated"@
    }
}

pub open spec fn report_detail(same: bool, summary: Seq<char>) -> Seq<char> {
    if same {
        "Heartbeat kept for "@ + summary + "."@
    } else {
        "Captured "@ + summary + "."@
    }
}

pub open spec fn report_level(same: bool) -> Seq<char> {
    if same {
        "info"@
    } else {
        "success"@
    }
}

/// Whether the resolved activity is reported on this pass.
pub open spec fn emits(m: MemoryView, c: ClientConfig, a: ActivityView, clock: LoopClock) -> bool {
    should_emit_spec(
        m.last_signature == Some(a.signature),
        heartbeat_interval_spec(c),
        m.last_emit_at_ns,
        clock.now_ns,
    )
}

pub open spec fn after_resolution(
    s: StateView,
    m: MemoryView,
    c: ClientConfig,
    snapshot: ForegroundSnapshot,
    media: MediaInfo,
    clock: LoopClock,
    run_id: u64,
) -> (StateView, MemoryView) {
    match resolve_spec(c, snapshot, media) {
        Some(a) => {
            let rec = reported_activity(c, snapshot, a, media, clock.iso@);
            let same = m.last_signature == Some(a.signature);
            let s1 = guarded_update(s, run_id, Some(rec), None, None);
            if emits(m, c, a, clock) {
                let line = log_line(
                    m.sequence,
                    clock,
                    report_level(same),
                    report_title(same),
                    report_detail(same, a.summary),
                );
                (
                    guarded_update(with_log(s1, line), run_id, Some(rec), None, Some(clock.iso@)),
                    MemoryView {
                        last_signature: Some(a.signature),
                        last_emit_at_ns: Some(clock.now_ns),
                        sequence: (m.sequence + 1) as u64,
                        ..m
                    },
                )
            } else {
                (s1, m)
            }
        },
        None => {
            if m.last_signature is Some {
                (
                    guarded_update(
                        with_log(
                            s,
                            log_line(
                                m.sequence,
                                clock,
                                "info"@,
                                "Activity cleared"@,
                                "No local activity passed the current rules."@,
                            ),
                        ),
                        run_id,
                        None,
                        None,
                        None,
                    ),
                    MemoryView {
                        last_signature: None,
                        last_emit_at_ns: None,
                        sequence: (m.sequence + 1) as u64,
                        ..m
                    },
                )
            } else {
                (guarded_update(s, run_id, None, None, None), m)
            }
        },
    }
}

pub open spec fn saturating_inc(v: u32) -> u32 {
    if v == u32::MAX {
        v
    } else {
        (v + 1) as u32
    }
}

/// The state and memory after one pass.
pub open spec fn iteration_spec(
    s: StateView,
    m: MemoryView,
    c: ClientConfig,
    outcome: CaptureOutcome,
    clock: LoopClock,
    run_id: u64,
) -> (StateView, MemoryView) {
    match outcome {
        CaptureOutcome::ForegroundFailed(error) => (
            guarded_error(
                with_log(
                    s,
                    log_line(m.sequence, clock, "error"@, "Foreground capture failed"@, error@),
                ),
                run_id,
                Some(error@),
            ),
            MemoryView {
                sequence: (m.sequence + 1) as u64,
                consecutive_errors: saturating_inc(m.consecutive_errors),
                ..m
            },
        ),
        CaptureOutcome::Captured { snapshot, media, media_error } => {
            let (s1, m1) = after_media(s, m, clock, media_error.deep_view());
            let (s2, m2) = after_resolution(s1, m1, c, snapshot, media, clock, run_id);
            (s2, MemoryView { consecutive_errors: 0, ..m2 })
        },
    }
}

/// The state and memory after the passes of one run, in order: each pass
/// with its capture outcome and clock, all under the run's configuration.
pub open spec fn run_passes(
    s: StateView,
    m: MemoryView,
    c: ClientConfig,
    passes: Seq<(CaptureOutcome, LoopClock)>,
    run_id: u64,
) -> (StateView, MemoryView)
    decreases passes.len(),
{
    if passes.len() == 0 {
        (s, m)
    } else {
        let (s1, m1) = iteration_spec(s, m, c, passes[0].0, passes[0].1, run_id);
        run_passes(s1, m1, c, passes.drop_first(), run_id)
    }
}

/// The resolved activity and the shown activity when this pass reports one.
pub open spec fn report_spec(
    m: MemoryView,
    c: ClientConfig,
    outcome: CaptureOutcome,
    clock: LoopClock,
) -> Option<(ActivityView, ActivityRecord)> {
    match outcome {
        CaptureOutcome::ForegroundFailed(_) => None,
        CaptureOutcome::Captured { snapshot, media, media_error } => {
            let m1 = after_media(StateView {
                running: false,
                active_run_id: None,
                logs: Seq::empty(),
                current_activity: None,
                last_heartbeat_at: None,
                last_error: None,
            }, m, clock, media_error.deep_view()).1;
            match resolve_spec(c, snapshot, media) {
                Some(a) => if emits(m1, c, a, clock) {
                    Some((a, reported_activity(c, snapshot, a, media, clock.iso@)))
                } else {
                    None
                },
                None => None,
            }
        },
    }
}

/// A log line with plain texts and the next sequence number.
pub fn new_log_entry(
    sequence: &mut u64,
    clock: &LoopClock,
    level: &str,
    title: String,
    detail: String,
) -> (e: ReporterLogEntry)
    requires
        *old(sequence) < u64::MAX,
    ensures
        *final(sequence) == *old(sequence) + 1,
        log_view(e) == log_line(*old(sequence), *clock, level@, title@, detail@),
        e.payload is None,
{
    let mut id = decimal_string(clock.unix_ms);
    push_str(&mut id, "-");
    let number = decimal_string(*sequence);
    push_str(&mut id, number.as_str());
    *sequence = *sequence + 1;
    ReporterLogEntry {
        id,
        timestamp: clock.iso.clone(),
        level: owned(level),
        title,
        detail,
        title_key: None,
        title_params: None,
        detail_key: None,
        detail_params: None,
        payload: None,
    }
}

/// The poll interval, at least a second.
pub fn poll_interval_ms(config: &ClientConfig) -> (r: u64)
    ensures
        r == poll_interval_spec(*config),
{
    if config.poll_interval_ms < 1000 {
        1000
    } else {
        config.poll_interval_ms
    }
}

/// The heartbeat interval: none when it is zero, else at least a second.
pub fn heartbeat_interval_ms(config: &ClientConfig) -> (r: Option<u64>)
    ensures
        r == heartbeat_interval_spec(*config),
{
    if config.heartbeat_interval_ms == 0 {
        None
    } else if config.heartbeat_interval_ms < 1000 {
        Some(1000)
    } else {
        Some(config.heartbeat_interval_ms)
    }
}

/// Whether to report: always for a new activity, for the same one only when
/// the heartbeat interval has passed since the last report.
pub fn should_emit_activity(
    same_as_last: bool,
    heartbeat_interval_ms: Option<u64>,
    last_emit_at_ns: Option<u64>,
    now_ns: u64,
) -> (r: bool)
    ensures
        r == should_emit_spec(same_as_last, heartbeat_interval_ms, last_emit_at_ns, now_ns),
{
    if !same_as_last {
        return true;
    }
    match (heartbeat_interval_ms, last_emit_at_ns) {
        (Some(interval), Some(last)) => {
            if last <= now_ns {
                let elapsed: u128 = (now_ns - last) as u128;
                elapsed >= (interval as u128) * 1000000
            } else {
                false
            }
        },
        _ => false,
    }
}

/// The sleep after a pass, backing off after repeated failures.
pub fn effective_sleep_ms(poll_ms: u64, consecutive_errors: u32) -> (r: u64)
    ensures
        r == sleep_ms_spec(poll_ms, consecutive_errors),
{
    if consecutive_errors > 1 {
        let factor: u64 = if consecutive_errors == 2 {
            4
        } else if consecutive_errors == 3 {
            8
        } else {
            16
        };
        if poll_ms > MAX_ERROR_BACKOFF_MS / factor {
            assert(poll_ms * factor > MAX_ERROR_BACKOFF_MS) by (nonlinear_arith)
                requires
                    poll_ms > MAX_ERROR_BACKOFF_MS / factor,
                    factor > 0,
            ;
            MAX_ERROR_BACKOFF_MS
        } else {
            assert(poll_ms * factor <= MAX_ERROR_BACKOFF_MS) by (nonlinear_arith)
                requires
                    poll_ms <= MAX_ERROR_BACKOFF_MS / factor,
                    factor > 0,
            ;
            poll_ms * factor
        }
    } else {
        poll_ms
    }
}

/// The activity the monitor shows for a resolved capture.
pub fn build_reporter_activity(
    config: &ClientConfig,
    snapshot: &ForegroundSnapshot,
    resolved: &ResolvedActivity,
    media: &MediaInfo,
    updated_at: String,
) -> (r: ReporterActivity)
    ensures
        activity_record(r) == reported_activity(
            *config,
            *snapshot,
            activity_view(*resolved),
            *media,
            updated_at@,
        ),
{
    let shown = media.is_reportable(config.report_stopped_media);
    ReporterActivity {
        process_name: resolved.process_name.clone(),
        process_title: copy_opt_string(&resolved.process_title),
        raw_process_title: non_empty(snapshot.process_title.as_str()),
        media_title: if shown {
            non_empty(media.title.as_str())
        } else {
            None
        },
        media_artist: if shown {
            non_empty(media.artist.as_str())
        } else {
            None
        },
        media_album: if shown {
            non_empty(media.album.as_str())
        } else {
            None
        },
        media_summary: copy_opt_string(&resolved.media_summary),
        media_duration_ms: if shown {
            media.duration_ms
        } else {
            None
        },
        media_position_ms: if shown {
            media.position_ms
        } else {
            None
        },
        play_source: copy_opt_string(&resolved.play_source),
        status_text: copy_opt_string(&resolved.status_text),
        updated_at: Some(updated_at),
    }
}

fn same_text(a: &Option<String>, b: &str) -> (r: bool)
    ensures
        r == (a.deep_view() == Some(b@)),
{
    match a {
        Some(v) => crate::text::str_eq(v.as_str(), b),
        None => false,
    }
}

/// Logs a media failure unless it repeats the last one, and remembers it.
fn record_media_error(
    state: &mut ReporterState,
    memory: &mut LoopMemory,
    clock: &LoopClock,
    media_error: Option<String>,
)
    requires
        old(memory).sequence < u64::MAX,
    ensures
        (state_view(*final(state)), memory_view(*final(memory))) == after_media(
            state_view(*old(state)),
            memory_view(*old(memory)),
            *clock,
            media_error.deep_view(),
        ),
        final(memory).sequence <= old(memory).sequence + 1,
{
    match media_error {
        Some(error) => {
            let repeated = same_text(&memory.last_media_error, error.as_str());
            if !repeated {
                let entry = new_log_entry(
                    &mut memory.sequence,
                    clock,
                    "warn",
                    owned("Media capture failed"),
                    error.clone(),
                );
                state.push_log(entry);
            }
            memory.last_media_error = Some(error);
        },
        None => {
            memory.last_media_error = None;
        },
    }
}

fn report_texts(same: bool, summary: &str) -> (r: (&'static str, String, String))
    ensures
        r.0@ == report_level(same),
        r.1@ == report_title(same),
        r.2@ == report_detail(same, summary@),
{
    if same {
        let mut detail = owned("Heartbeat kept for ");
        push_str(&mut detail, summary);
        push_str(&mut detail, ".");
        ("info", owned("Activity heartbeat"), detail)
    } else {
        let mut detail = owned("Captured ");
        push_str(&mut detail, summary);
        push_str(&mut detail, ".");
        ("success", owned("Activity updated"), detail)
    }
}

/// Resolves the capture against the rules and records what comes out.
fn record_resolution(
    state: &mut ReporterState,
    memory: &mut LoopMemory,
    config: &ClientConfig,
    snapshot: &ForegroundSnapshot,
    media: &MediaInfo,
    clock: &LoopClock,
    run_id: u64,
) -> (r: Option<(ResolvedActivity, ReporterActivity)>)
    requires
        old(memory).sequence < u64::MAX,
    ensures
        (state_view(*final(state)), memory_view(*final(memory))) == after_resolution(
            state_view(*old(state)),
            memory_view(*old(memory)),
            *config,
            *snapshot,
            *media,
            *clock,
            run_id,
        ),
        match r {
            Some((a, rec)) => {
                &&& resolve_spec(*config, *snapshot, *media) == Some(activity_view(a))
                &&& emits(memory_view(*old(memory)), *config, activity_view(a), *clock)
                &&& activity_record(rec) == reported_activity(
                    *config,
                    *snapshot,
                    activity_view(a),
                    *media,
                    clock.iso@,
                )
            },
            None => match resolve_spec(*config, *snapshot, *media) {
                Some(a) => !emits(memory_view(*old(memory)), *config, a, *clock),
                None => true,
            },
        },
{
    match resolve_activity(config, snapshot, media) {
        Some(resolved) => {
            let activity = build_reporter_activity(
                config,
                snapshot,
                &resolved,
                media,
                clock.iso.clone(),
            );
            state.update_snapshot(Some(clone_activity(&activity)), None, None, run_id);
            let same = same_text(&memory.last_signature, resolved.signature.as_str());
            let emit = should_emit_activity(
                same,
                heartbeat_interval_ms(config),
                memory.last_emit_at_ns,
                clock.now_ns,
            );
            if emit {
                let (level, title, detail) = report_texts(same, resolved.summary.as_str());
                let entry = new_log_entry(&mut memory.sequence, clock, level, title, detail);
                state.push_log(entry);
                state.update_snapshot(
                    Some(clone_activity(&activity)),
                    None,
                    Some(clock.iso.clone()),
                    run_id,
                );
                memory.last_signature = Some(resolved.signature.clone());
                memory.last_emit_at_ns = Some(clock.now_ns);
                Some((resolved, activity))
            } else {
                None
            }
        },
        None => {
            if memory.last_signature.is_some() {
                let entry = new_log_entry(
                    &mut memory.sequence,
                    clock,
                    "info",
                    owned("Activity cleared"),
                    owned("No local activity passed the current rules."),
                );
                state.push_log(entry);
                memory.last_signature = None;
                memory.last_emit_at_ns = None;
            }
            state.update_snapshot(None, None, None, run_id);
            None
        },
    }
}

/// One pass of the capture loop: logs what happened, records the activity
/// while `run_id` owns the state, updates the loop's memory and says how long
/// to sleep. When a report was logged, `report` holds the activity so that
/// the caller can give that newest log entry its payload.
pub fn reporter_iteration(
    state: &mut ReporterState,
    memory: &mut LoopMemory,
    config: &ClientConfig,
    outcome: CaptureOutcome,
    clock: &LoopClock,
    run_id: u64,
) -> (r: IterationOutcome)
    requires
        old(memory).sequence < u64::MAX - 1,
    ensures
        (state_view(*final(state)), memory_view(*final(memory))) == iteration_spec(
            state_view(*old(state)),
            memory_view(*old(memory)),
            *config,
            outcome,
            *clock,
            run_id,
        ),
        r.sleep_ms == sleep_ms_spec(poll_interval_spec(*config), final(memory).consecutive_errors),
        match r.report {
            Some((a, rec)) => report_spec(memory_view(*old(memory)), *config, outcome, *clock)
                == Some((activity_view(a), activity_record(rec))),
            None => report_spec(memory_view(*old(memory)), *config, outcome, *clock) is None,
        },
{
    let ghost m0 = memory_view(*memory);
    match outcome {
        CaptureOutcome::ForegroundFailed(error) => {
            let entry = new_log_entry(
                &mut memory.sequence,
                clock,
                "error",
                owned("Foreground capture failed"),
                error.clone(),
            );
            state.push_log(entry);
            state.set_last_error(Some(error), run_id);
            if memory.consecutive_errors < u32::MAX {
                memory.consecutive_errors = memory.consecutive_errors + 1;
            }
            let sleep_ms = effective_sleep_ms(poll_interval_ms(config), memory.consecutive_errors);
            IterationOutcome { sleep_ms, report: None }
        },
        CaptureOutcome::Captured { snapshot, media, media_error } => {
            let ghost err = media_error.deep_view();
            record_media_error(state, memory, clock, media_error);
            let ghost m1 = memory_view(*memory);
            assert(m1 == after_media(
                StateView {
                    running: false,
                    active_run_id: None,
                    logs: Seq::empty(),
                    current_activity: None,
                    last_heartbeat_at: None,
                    last_error: None,
                },
                m0,
                *clock,
                err,
            ).1);
            let report = record_resolution(state, memory, config, &snapshot, &media, clock, run_id);
            memory.consecutive_errors = 0;
            IterationOutcome { sleep_ms: effective_sleep_ms(poll_interval_ms(config), 0), report }
        },
    }
}

} // verus!
