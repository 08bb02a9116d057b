//! The monitor's shared state: whether it runs, which run owns it, the
//! newest-first log, and what the last capture produced.
use crate::models::copy_opt_string;
use vstd::prelude::*;

verus! {

/// The log keeps this many entries, newest first.
pub const MAX_LOGS: usize = 20;

/// One line of the monitor's log.
pub struct ReporterLogEntry {
    pub id: String,
    pub timestamp: String,
    pub level: String,
    pub title: String,
    pub detail: String,
    pub title_key: Option<String>,
    pub title_params: Option<serde_json::Value>,
    pub detail_key: Option<String>,
    pub detail_params: Option<serde_json::Value>,
    pub payload: Option<serde_json::Value>,
}

/// What the monitor last captured, as the UI shows it.
pub struct ReporterActivity {
    pub process_name: String,
    pub process_title: Option<String>,
    pub raw_process_title: Option<String>,
    pub media_title: Option<String>,
    pub media_artist: Option<String>,
    pub media_album: Option<String>,
    pub media_summary: Option<String>,
    pub media_duration_ms: Option<u64>,
    pub media_position_ms: Option<u64>,
    pub play_source: Option<String>,
    pub status_text: Option<String>,
    pub updated_at: Option<String>,
}

/// A copy of the monitor's state for the UI.
pub struct RealtimeReporterSnapshot {
    pub running: bool,
    pub logs: Vec<ReporterLogEntry>,
    pub current_activity: Option<ReporterActivity>,
    pub last_heartbeat_at: Option<String>,
    pub last_error: Option<String>,
}

/// The state the monitor and its worker share.
pub struct ReporterState {
    pub running: bool,
    pub active_run_id: Option<u64>,
    pub logs: Vec<ReporterLogEntry>,
    pub current_activity: Option<ReporterActivity>,
    pub last_heartbeat_at: Option<String>,
    pub last_error: Option<String>,
}

/// A log entry by its texts, with its JSON parameters and payload.
pub struct LogView {
    pub id: Seq<char>,
    pub timestamp: Seq<char>,
    pub level: Seq<char>,
    pub title: Seq<char>,
    pub detail: Seq<char>,
    pub title_key: Option<Seq<char>>,
    pub title_params: Option<serde_json::Value>,
    pub detail_key: Option<Seq<char>>,
    pub detail_params: Option<serde_json::Value>,
    pub payload: Option<serde_json::Value>,
}

pub open spec fn log_view(e: ReporterLogEntry) -> LogView {
    LogView {
        id: e.id@,
        timestamp: e.timestamp@,
        level: e.level@,
        title: e.title@,
        detail: e.detail@,
        title_key: e.title_key.deep_view(),
        title_params: e.title_params,
        detail_key: e.detail_key.deep_view(),
        detail_params: e.detail_params,
        payload: e.payload,
    }
}

pub open spec fn log_views(s: Seq<ReporterLogEntry>) -> Seq<LogView> {
    s.map_values(|e: ReporterLogEntry| log_view(e))
}

/// An activity by its values.
pub struct ActivityRecord {
    pub process_name: Seq<char>,
    pub process_title: Option<Seq<char>>,
    pub raw_process_title: Option<Seq<char>>,
    pub media_title: Option<Seq<char>>,
    pub media_artist: Option<Seq<char>>,
    pub media_album: Option<Seq<char>>,
    pub media_summary: Option<Seq<char>>,
    pub media_duration_ms: Option<u64>,
    pub media_position_ms: Option<u64>,
    pub play_source: Option<Seq<char>>,
    pub status_text: Option<Seq<char>>,
    pub updated_at: Option<Seq<char>>,
}

pub open spec fn activity_record(a: ReporterActivity) -> ActivityRecord {
    ActivityRecord {
        process_name: a.process_name@,
        process_title: a.process_title.deep_view(),
        raw_process_title: a.raw_process_title.deep_view(),
        media_title: a.media_title.deep_view(),
        media_artist: a.media_artist.deep_view(),
        media_album: a.media_album.deep_view(),
        media_summary: a.media_summary.deep_view(),
        media_duration_ms: a.media_duration_ms,
        media_position_ms: a.media_position_ms,
        play_source: a.play_source.deep_view(),
        status_text: a.status_text.deep_view(),
        updated_at: a.updated_at.deep_view(),
    }
}

pub open spec fn opt_record(a: Option<ReporterActivity>) -> Option<ActivityRecord> {
    match a {
        Some(v) => Some(activity_record(v)),
        None => None,
    }
}

/// The whole state by its values.
pub struct StateView {
    pub running: bool,
    pub active_run_id: Option<u64>,
    pub logs: Seq<LogView>,
    pub current_activity: Option<ActivityRecord>,
    pub last_heartbeat_at: Option<Seq<char>>,
    pub last_error: Option<Seq<char>>,
}

pub open spec fn state_view(s: ReporterState) -> StateView {
    StateView {
        running: s.running,
        active_run_id: s.active_run_id,
        logs: log_views(s.logs@),
        current_activity: opt_record(s.current_activity),
        last_heartbeat_at: s.last_heartbeat_at.deep_view(),
        last_error: s.last_error.deep_view(),
    }
}

/// `e` put in front of `s`, keeping at most `MAX_LOGS` entries.
pub open spec fn prepend_capped<T>(s: Seq<T>, e: T) -> Seq<T> {
    let t = seq![e] + s;
    if t.len() > MAX_LOGS {
        t.take(MAX_LOGS as int)
    } else {
        t
    }
}

/// The state with `payload` given to its newest log entry, if it has one.
pub open spec fn with_payload(s: StateView, payload: serde_json::Value) -> StateView {
    if s.logs.len() > 0 {
        StateView { logs: s.logs.update(0, LogView { payload: Some(payload), ..s.logs[0] }), ..s }
    } else {
        s
    }
}

/// The state with one more log entry.
pub open spec fn with_log(s: StateView, e: LogView) -> StateView {
    StateView { logs: prepend_capped(s.logs, e), ..s }
}

/// The capture results recorded, but only while `run_id` owns the state.
pub open spec fn guarded_update(
    s: StateView,
    run_id: u64,
    activity: Option<ActivityRecord>,
    error: Option<Seq<char>>,
    heartbeat: Option<Seq<char>>,
) -> StateView {
    if s.active_run_id == Some(run_id) {
        StateView {
            current_activity: activity,
            last_error: error,
            last_heartbeat_at: if heartbeat is Some {
                heartbeat
            } else {
                s.last_heartbeat_at
            },
            ..s
        }
    } else {
        s
    }
}

/// The error recorded, but only while `run_id` owns the state.
pub open spec fn guarded_error(s: StateView, run_id: u64, error: Option<Seq<char>>) -> StateView {
    if s.active_run_id == Some(run_id) {
        StateView { last_error: error, ..s }
    } else {
        s
    }
}

/// The run ended, when `run_id` still owns the state.
pub open spec fn guarded_stop(s: StateView, run_id: u64, error: Option<Seq<char>>) -> StateView {
    if s.active_run_id == Some(run_id) {
        StateView {
            running: false,
            active_run_id: None,
            current_activity: None,
            last_error: if error is Some {
                error
            } else {
                s.last_error
            },
            ..s
        }
    } else {
        s
    }
}

proof fn lemma_log_views_prepend(s: Seq<ReporterLogEntry>, e: ReporterLogEntry)
    ensures
        log_views(prepend_capped(s, e)) == prepend_capped(log_views(s), log_view(e)),
{
    let t = seq![e] + s;
    assert(log_views(t) =~= seq![log_view(e)] + log_views(s));
    if t.len() > MAX_LOGS {
        assert(log_views(t.take(MAX_LOGS as int)) =~= log_views(t).take(MAX_LOGS as int));
    }
}

/// A copy of optional JSON parameters.
fn clone_params(p: &Option<serde_json::Value>) -> (r: Option<serde_json::Value>)
    ensures
        r == *p,
{
    match p {
        Some(v) => Some(v.clone()),
        None => None,
    }
}

/// A copy of a log entry.
pub fn clone_log_entry(e: &ReporterLogEntry) -> (r: ReporterLogEntry)
    ensures
        log_view(r) == log_view(*e),
{
    ReporterLogEntry {
        id: e.id.clone(),
        timestamp: e.timestamp.clone(),
        level: e.level.clone(),
        title: e.title.clone(),
        detail: e.detail.clone(),
        title_key: copy_opt_string(&e.title_key),
        title_params: clone_params(&e.title_params),
        detail_key: copy_opt_string(&e.detail_key),
        detail_params: clone_params(&e.detail_params),
        payload: clone_params(&e.payload),
    }
}

/// A copy of an activity.
pub fn clone_activity(a: &ReporterActivity) -> (r: ReporterActivity)
    ensures
        activity_record(r) == activity_record(*a),
{
    ReporterActivity {
        process_name: a.process_name.clone(),
        process_title: copy_opt_string(&a.process_title),
        raw_process_title: copy_opt_string(&a.raw_process_title),
        media_title: copy_opt_string(&a.media_title),
        media_artist: copy_opt_string(&a.media_artist),
        media_album: copy_opt_string(&a.media_album),
        media_summary: copy_opt_string(&a.media_summary),
        media_duration_ms: a.media_duration_ms,
        media_position_ms: a.media_position_ms,
        play_source: copy_opt_string(&a.play_source),
        status_text: copy_opt_string(&a.status_text),
        updated_at: copy_opt_string(&a.updated_at),
    }
}

impl ReporterState {
    /// Not running, no run, nothing logged or captured.
    pub fn new() -> (s: Self)
        ensures
            !s.running,
            s.active_run_id is None,
            s.logs@.len() == 0,
            s.current_activity is None,
            s.last_heartbeat_at is None,
            s.last_error is None,
    {
        ReporterState {
            running: false,
            active_run_id: None,
            logs: Vec::new(),
            current_activity: None,
            last_heartbeat_at: None,
            last_error: None,
        }
    }

    /// Puts an entry in front of the log and drops what falls past `MAX_LOGS`.
    pub fn push_log(&mut self, entry: ReporterLogEntry)
        ensures
            final(self).logs@ == prepend_capped(old(self).logs@, entry),
            state_view(*final(self)) == with_log(state_view(*old(self)), log_view(entry)),
            final(self).running == old(self).running,
            final(self).active_run_id == old(self).active_run_id,
            final(self).current_activity == old(self).current_activity,
            final(self).last_heartbeat_at == old(self).last_heartbeat_at,
            final(self).last_error == old(self).last_error,
    {
        let ghost before = self.logs@;
        proof {
            lemma_log_views_prepend(before, entry);
        }
        self.logs.insert(0, entry);
        assert(self.logs@ =~= seq![entry] + before);
        if self.logs.len() > MAX_LOGS {
            self.logs.truncate(MAX_LOGS);
        }
        assert(self.logs@ =~= prepend_capped(before, entry));
    }

    /// Gives the newest log entry a payload; with no entry, nothing changes.
    pub fn attach_payload_to_newest(&mut self, payload: serde_json::Value)
        ensures
            state_view(*final(self)) == with_payload(state_view(*old(self)), payload),
    {
        if self.logs.len() > 0 {
            let ghost before = self.logs@;
            let mut entry = self.logs.remove(0);
            entry.payload = Some(payload);
            self.logs.insert(0, entry);
            proof {
                assert(self.logs@ =~= before.update(0, entry));
                assert(log_views(self.logs@) =~= log_views(before).update(
                    0,
                    LogView { payload: Some(payload), ..log_view(before[0]) },
                ));
            }
        }
    }

    /// A new run takes the state over.
    pub fn begin_run(&mut self, run_id: u64)
        ensures
            state_view(*final(self)) == (StateView {
                running: true,
                active_run_id: Some(run_id),
                last_error: None,
                ..state_view(*old(self))
            }),
    {
        self.running = true;
        self.active_run_id = Some(run_id);
        self.last_error = None;
    }

    /// The monitor was asked to stop: no run owns the state any more.
    pub fn end_run(&mut self)
        ensures
            state_view(*final(self)) == (StateView {
                running: false,
                active_run_id: None,
                ..state_view(*old(self))
            }),
    {
        self.running = false;
        self.active_run_id = None;
    }

    /// Forgets the last captured activity.
    pub fn clear_activity(&mut self)
        ensures
            state_view(*final(self)) == (StateView {
                current_activity: None,
                ..state_view(*old(self))
            }),
    {
        self.current_activity = None;
    }

    /// Records a capture's activity, error and heartbeat time, unless a
    /// newer run owns the state.
    pub fn update_snapshot(
        &mut self,
        current_activity: Option<ReporterActivity>,
        last_error: Option<String>,
        last_heartbeat_at: Option<String>,
        run_id: u64,
    )
        ensures
            state_view(*final(self)) == guarded_update(
                state_view(*old(self)),
                run_id,
                opt_record(current_activity),
                last_error.deep_view(),
                last_heartbeat_at.deep_view(),
            ),
            final(self).logs == old(self).logs,
    {
        if self.active_run_id != Some(run_id) {
            return ;
        }
        self.current_activity = current_activity;
        self.last_error = last_error;
        if let Some(heartbeat_at) = last_heartbeat_at {
            self.last_heartbeat_at = Some(heartbeat_at);
        }
    }

    /// Records an error, unless a newer run owns the state.
    pub fn set_last_error(&mut self, error: Option<String>, run_id: u64)
        ensures
            state_view(*final(self)) == guarded_error(
                state_view(*old(self)),
                run_id,
                error.deep_view(),
            ),
            final(self).logs == old(self).logs,
    {
        if self.active_run_id != Some(run_id) {
            return ;
        }
        self.last_error = error;
    }

    /// The worker of `run_id` has ended; nothing changes if another run owns the state.
    pub fn mark_stopped(&mut self, error: Option<String>, run_id: u64)
        ensures
            state_view(*final(self)) == guarded_stop(state_view(*old(self)), run_id, error.deep_view()),
            final(self).logs == old(self).logs,
    {
        if self.active_run_id != Some(run_id) {
            return ;
        }
        self.running = false;
        self.active_run_id = None;
        self.current_activity = None;
        if error.is_some() {
            self.last_error = error;
        }
    }

    /// A copy for the UI.
    pub fn snapshot(&self) -> (r: RealtimeReporterSnapshot)
        ensures
            r.running == self.running,
            log_views(r.logs@) == log_views(self.logs@),
            opt_record(r.current_activity) == opt_record(self.current_activity),
            r.last_heartbeat_at.deep_view() == self.last_heartbeat_at.deep_view(),
            r.last_error.deep_view() == self.last_error.deep_view(),
    {
        let mut logs: Vec<ReporterLogEntry> = Vec::new();
        let mut i: usize = 0;
        while i < self.logs.len()
            invariant
                i <= self.logs@.len(),
                logs@.len() == i,
                forall|k: int| 0 <= k < i ==> log_view(#[trigger] logs@[k]) == log_view(self.logs@[k]),
            decreases self.logs@.len() - i,
        {
            logs.push(clone_log_entry(&self.logs[i]));
            i += 1;
        }
        assert(log_views(logs@) =~= log_views(self.logs@));
        let current_activity = match &self.current_activity {
            Some(a) => Some(clone_activity(a)),
            None => None,
        };
        RealtimeReporterSnapshot {
            running: self.running,
            logs,
            current_activity,
            last_heartbeat_at: copy_opt_string(&self.last_heartbeat_at),
            last_error: copy_opt_string(&self.last_error),
        }
    }
}

} // verus!
