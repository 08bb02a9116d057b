//! Properties that hold across the library's functions: what the monitor's
//! state can and cannot become, how its loop backs off and reports, what the
//! presence text and the activity depend on, what the tray's menu ids and
//! presets do, and what cleaning the configuration and the saved state
//! guarantees, once and twice.
use crate::models::{AppFilterMode, ClientConfig, DiscordCustomPreset, DiscordReportMode};
use crate::platform::{ForegroundSnapshot, MediaInfo};
use crate::reporter::lifecycle::{started_spec, stopped_spec};
use crate::reporter::state::{
    guarded_error, guarded_stop, guarded_update, prepend_capped, ActivityRecord, LogView,
    StateView, MAX_LOGS,
};
use crate::reporter::worker::{
    after_media, after_resolution, iteration_spec, log_line, run_passes, should_emit_spec,
    sleep_ms_spec, CaptureOutcome, LoopClock, MemoryView, MAX_ERROR_BACKOFF_MS,
};
use crate::rules::capture::capture_media_spec;
use crate::rules::discord_text::{
    discord_text_spec, media_shown, music_text_spec, smart_media_text_spec,
};
use crate::rules::filters::listed;
use crate::rules::idempotence::{
    lemma_clean_assets_fixed, lemma_clean_groups_fixed, lemma_clean_preset_fixed,
    is_own_key, lemma_keyed_list_idempotent, lemma_kept_assets_clean,
    lemma_normalized_rule_groups_clean, lemma_string_list_idempotent,
};
use crate::rules::normalize::{
    asset_views, button_views, cleaned_preset, config_normalized, lemma_buttons_idempotent,
    lemma_kept_list, lemma_line_format_idempotent, no_empty_entries, normalized_string_list,
    preset_view, rule_group_views, same_settings_but_blocklist,
};
use crate::rules::resolve::{
    display_title_spec, media_hidden_spec, media_summary_spec, play_source_spec, resolve_spec,
    status_spec,
};
use crate::state_store::{
    app_blanks, app_entry_view, app_keys, firsts, lemma_app_history_stable, lemma_firsts_ordered,
    lemma_play_source_history_stable, normalized_app_history, source_entry_view, normalized_play_source_history, source_blanks, source_keys,
    state_normalized, AppHistoryEntry, AppStatePayload, PlaySourceHistoryEntry, DEFAULT_LOCALE,
    MAX_HISTORY_RECORDS,
};
use crate::text::{
    decimal, is_digit, is_edge, lemma_decimal, lemma_trim_by_slice, lemma_trim_idempotent,
    lowercased, starts_with, trim, views,
};
use crate::tray::{
    custom_menu_spec, preset_is_active, quick_switch_menu_spec, MenuEntryV,
    matches_preset, preset_applied, switch_target_spec, TraySwitchTarget, MENU_ID_SWITCH_APP,
    MENU_ID_SWITCH_CUSTOM_CURRENT, MENU_ID_SWITCH_CUSTOM_PRESET_PREFIX, MENU_ID_SWITCH_MIXED,
    MENU_ID_SWITCH_MUSIC,
};
use vstd::prelude::*;

verus! {

// ---------------------------------------------------------------------------
// The monitor's state
// ---------------------------------------------------------------------------

/// The log never holds more than `MAX_LOGS` entries; a new entry comes first
/// and the older ones follow in their order.
pub proof fn law_log_is_capped_newest_first(logs: Seq<LogView>, entry: LogView)
    ensures
        prepend_capped(logs, entry).len() <= MAX_LOGS,
        prepend_capped(logs, entry)[0] == entry,
        forall|i: int|
            1 <= i < prepend_capped(logs, entry).len() ==> #[trigger] prepend_capped(logs, entry)[i]
                == logs[i - 1],
        prepend_capped(logs, entry).len() == (if logs.len() + 1 > MAX_LOGS {
            MAX_LOGS as int
        } else {
            (logs.len() + 1) as int
        }),
{
}

/// A worker whose run no longer owns the state cannot change what it
/// records: its updates, errors and end leave the state as it is.
pub proof fn law_stale_run_changes_nothing(
    s: StateView,
    run_id: u64,
    activity: Option<ActivityRecord>,
    error: Option<Seq<char>>,
    heartbeat: Option<Seq<char>>,
)
    requires
        s.active_run_id != Some(run_id),
    ensures
        guarded_update(s, run_id, activity, error, heartbeat) == s,
        guarded_error(s, run_id, error) == s,
        guarded_stop(s, run_id, error) == s,
{
}

/// A whole pass of a stale worker only adds log lines: whether the monitor
/// runs, which run owns it, the activity, the heartbeat time and the error
/// stay as they were.
pub proof fn law_stale_pass_only_logs(
    s: StateView,
    m: MemoryView,
    c: ClientConfig,
    outcome: CaptureOutcome,
    clock: LoopClock,
    run_id: u64,
)
    requires
        s.active_run_id != Some(run_id),
    ensures
        ({
            let n = iteration_spec(s, m, c, outcome, clock, run_id).0;
            n == StateView { logs: n.logs, ..s }
        }),
{
    match outcome {
        CaptureOutcome::ForegroundFailed(_) => {},
        CaptureOutcome::Captured { snapshot, media, media_error } => {
            let (s1, m1) = after_media(s, m, clock, media_error.deep_view());
            assert(s1 == StateView { logs: s1.logs, ..s });
            let (s2, m2) = after_resolution(s1, m1, c, snapshot, media, clock, run_id);
            assert(s2 == StateView { logs: s2.logs, ..s1 });
        },
    }
}

/// One pass never leaves more than `MAX_LOGS` log entries when it found at
/// most that many.
proof fn lemma_pass_keeps_log_capped(
    s: StateView,
    m: MemoryView,
    c: ClientConfig,
    outcome: CaptureOutcome,
    clock: LoopClock,
    run_id: u64,
)
    requires
        s.logs.len() <= MAX_LOGS,
    ensures
        iteration_spec(s, m, c, outcome, clock, run_id).0.logs.len() <= MAX_LOGS,
{
    match outcome {
        CaptureOutcome::ForegroundFailed(_) => {},
        CaptureOutcome::Captured { snapshot, media, media_error } => {
            let (s1, m1) = after_media(s, m, clock, media_error.deep_view());
            assert(s1.logs.len() <= MAX_LOGS);
            let (s2, m2) = after_resolution(s1, m1, c, snapshot, media, clock, run_id);
            assert(s2.logs.len() <= MAX_LOGS);
        },
    }
}

/// However many passes a run makes, its log never holds more than
/// `MAX_LOGS` entries when it started with at most that many.
pub proof fn law_run_keeps_log_capped(
    s: StateView,
    m: MemoryView,
    c: ClientConfig,
    passes: Seq<(CaptureOutcome, LoopClock)>,
    run_id: u64,
)
    requires
        s.logs.len() <= MAX_LOGS,
    ensures
        run_passes(s, m, c, passes, run_id).0.logs.len() <= MAX_LOGS,
    decreases passes.len(),
{
    if passes.len() > 0 {
        lemma_pass_keeps_log_capped(s, m, c, passes[0].0, passes[0].1, run_id);
        let (s1, m1) = iteration_spec(s, m, c, passes[0].0, passes[0].1, run_id);
        law_run_keeps_log_capped(s1, m1, c, passes.drop_first(), run_id);
    }
}

/// However many passes a worker makes after its run stopped owning the
/// state, it only adds log lines: whether the monitor runs, which run owns
/// it, the activity, the heartbeat time and the error stay as they were.
pub proof fn law_stale_run_only_logs(
    s: StateView,
    m: MemoryView,
    c: ClientConfig,
    passes: Seq<(CaptureOutcome, LoopClock)>,
    run_id: u64,
)
    requires
        s.active_run_id != Some(run_id),
    ensures
        ({
            let n = run_passes(s, m, c, passes, run_id).0;
            n == StateView { logs: n.logs, ..s }
        }),
    decreases passes.len(),
{
    if passes.len() > 0 {
        law_stale_pass_only_logs(s, m, c, passes[0].0, passes[0].1, run_id);
        let (s1, m1) = iteration_spec(s, m, c, passes[0].0, passes[0].1, run_id);
        law_stale_run_only_logs(s1, m1, c, passes.drop_first(), run_id);
    }
}

/// Starting a run and then stopping it cleanly leaves the monitor not
/// running, owned by no run and without an activity, with the stop as the
/// newest log line.
pub proof fn law_start_then_stop(
    s: StateView,
    run_id: u64,
    sequence: u64,
    clock: LoopClock,
)
    requires
        sequence < u64::MAX,
    ensures
        ({
            let started = started_spec(s, run_id, sequence, clock);
            let stopped = stopped_spec(started, true, (sequence + 1) as u64, clock);
            &&& started.running
            &&& started.active_run_id == Some(run_id)
            &&& started.last_error is None
            &&& !stopped.running
            &&& stopped.active_run_id is None
            &&& stopped.current_activity is None
            &&& stopped.logs[0] == log_line(
                (sequence + 1) as u64,
                clock,
                "warn"@,
                "Local monitor stopped"@,
                "Activity capture has been stopped."@,
            )
            &&& stopped.logs.len() <= MAX_LOGS
        }),
{
}

// ---------------------------------------------------------------------------
// The capture loop
// ---------------------------------------------------------------------------

/// Repeated failures slow the loop down, but never past
/// `MAX_ERROR_BACKOFF_MS`, never below the poll interval (or the cap), and
/// more failures never mean a shorter sleep; a single failure or none keeps
/// the poll interval.
pub proof fn law_backoff_is_bounded_and_monotone(poll_ms: u64, e1: u32, e2: u32)
    ensures
        e1 <= 1 ==> sleep_ms_spec(poll_ms, e1) == poll_ms,
        e1 > 1 ==> sleep_ms_spec(poll_ms, e1) <= MAX_ERROR_BACKOFF_MS,
        e1 > 1 ==> sleep_ms_spec(poll_ms, e1) >= (if poll_ms <= MAX_ERROR_BACKOFF_MS {
            poll_ms as int
        } else {
            MAX_ERROR_BACKOFF_MS as int
        }),
        1 < e1 <= e2 ==> sleep_ms_spec(poll_ms, e1) <= sleep_ms_spec(poll_ms, e2),
{
    assert(poll_ms * 4 <= poll_ms * 8 <= poll_ms * 16) by (nonlinear_arith);
    assert(poll_ms <= poll_ms * 4) by (nonlinear_arith);
}

/// A changed activity is always reported; an unchanged one never is without
/// a heartbeat interval, and never before the interval has passed.
pub proof fn law_reporting_follows_changes_and_heartbeat(
    heartbeat_ms: Option<u64>,
    last_emit_at_ns: Option<u64>,
    now_ns: u64,
)
    ensures
        should_emit_spec(false, heartbeat_ms, last_emit_at_ns, now_ns),
        heartbeat_ms is None ==> !should_emit_spec(true, heartbeat_ms, last_emit_at_ns, now_ns),
        last_emit_at_ns is None ==> !should_emit_spec(true, heartbeat_ms, last_emit_at_ns, now_ns),
        (heartbeat_ms matches Some(i) && last_emit_at_ns matches Some(l) && l <= now_ns && now_ns - l
            < i * 1000000) ==> !should_emit_spec(true, heartbeat_ms, last_emit_at_ns, now_ns),
{
}

/// A pass that read the foreground window ends a run of failures; a pass
/// that could not read it adds one.
pub proof fn law_failures_are_counted_until_a_capture(
    s: StateView,
    m: MemoryView,
    c: ClientConfig,
    outcome: CaptureOutcome,
    clock: LoopClock,
    run_id: u64,
)
    ensures
        outcome is Captured ==> iteration_spec(s, m, c, outcome, clock, run_id).1.consecutive_errors
            == 0,
        outcome is ForegroundFailed && m.consecutive_errors < u32::MAX ==> iteration_spec(
            s,
            m,
            c,
            outcome,
            clock,
            run_id,
        ).1.consecutive_errors == m.consecutive_errors + 1,
{
}

// ---------------------------------------------------------------------------
// Presence text by mode
// ---------------------------------------------------------------------------

/// In App mode the presence text never depends on the media, which is why
/// App mode does not capture it.
pub proof fn law_app_mode_text_ignores_media(
    c: ClientConfig,
    name: Seq<char>,
    title: Option<Seq<char>>,
    m1: MediaInfo,
    m2: MediaInfo,
    hidden1: bool,
    hidden2: bool,
    status: Option<Seq<char>>,
)
    requires
        c.discord_report_mode == DiscordReportMode::App,
    ensures
        discord_text_spec(c, name, title, m1, hidden1, status) == discord_text_spec(
            c,
            name,
            title,
            m2,
            hidden2,
            status,
        ),
{
}

/// In Music mode the presence text never depends on the window (name,
/// title, rule status), which is why Music mode does not capture the title.
pub proof fn law_music_mode_text_ignores_window(
    c: ClientConfig,
    name1: Seq<char>,
    name2: Seq<char>,
    title1: Option<Seq<char>>,
    title2: Option<Seq<char>>,
    m: MediaInfo,
    hidden: bool,
    status1: Option<Seq<char>>,
    status2: Option<Seq<char>>,
)
    requires
        c.discord_report_mode == DiscordReportMode::Music,
    ensures
        discord_text_spec(c, name1, title1, m, hidden, status1) == discord_text_spec(
            c,
            name2,
            title2,
            m,
            hidden,
            status2,
        ),
{
}

// ---------------------------------------------------------------------------
// The tray menu
// ---------------------------------------------------------------------------

/// The menu id built for the preset at `index` reads back as that preset:
/// a click on it switches to exactly the preset it was built for.
pub proof fn law_preset_menu_id_round_trip(index: usize)
    ensures
        switch_target_spec(MENU_ID_SWITCH_CUSTOM_PRESET_PREFIX@ + decimal(index as nat)) == Some(
            TraySwitchTarget::CustomPreset(index),
        ),
{
    reveal_strlit("tray_switch_custom_preset::");
    reveal_strlit("tray_switch_mixed");
    reveal_strlit("tray_switch_music");
    reveal_strlit("tray_switch_app");
    reveal_strlit("tray_switch_custom_current");
    let p = MENU_ID_SWITCH_CUSTOM_PRESET_PREFIX@;
    let d = decimal(index as nat);
    let id = p + d;
    lemma_decimal(index as nat);
    assert(id.len() > MENU_ID_SWITCH_CUSTOM_CURRENT@.len());
    assert(id.len() > MENU_ID_SWITCH_MIXED@.len());
    assert(id.len() > MENU_ID_SWITCH_MUSIC@.len());
    assert(id.len() > MENU_ID_SWITCH_APP@.len());
    assert(id.subrange(0, p.len() as int) =~= p);
    assert(starts_with(id, p));
    assert(id.skip(p.len() as int) =~= d);
    assert(is_digit(d[0]));
    assert(d[0] != '+');
}

// ---------------------------------------------------------------------------
// The saved histories
// ---------------------------------------------------------------------------

/// A cleaned play-source history holds at most `MAX_HISTORY_RECORDS`
/// entries, each with a non-empty source, and no source twice.
pub proof fn law_play_source_history_is_short_and_unique(vs: Seq<PlaySourceHistoryEntry>)
    ensures
        normalized_play_source_history(vs).len() <= MAX_HISTORY_RECORDS,
        forall|i: int|
            0 <= i < normalized_play_source_history(vs).len()
                ==> #[trigger] normalized_play_source_history(vs)[i].source.len() > 0,
        forall|i: int, j: int|
            0 <= i < j < normalized_play_source_history(vs).len()
                ==> #[trigger] normalized_play_source_history(vs)[i].source
                != #[trigger] normalized_play_source_history(vs)[j].source,
{
    let keys = source_keys(vs);
    let blank = source_blanks(vs);
    let f = firsts(keys, blank, vs.len() as int);
    lemma_firsts_ordered(keys, blank, vs.len() as int);
    let h = normalized_play_source_history(vs);
    assert forall|i: int| 0 <= i < h.len() implies #[trigger] h[i].source.len() > 0 by {
        assert(!blank[f[i]]);
    }
    assert forall|i: int, j: int| 0 <= i < j < h.len() implies #[trigger] h[i].source
        != #[trigger] h[j].source by {
        assert(f[i] < f[j]);
        assert(!blank[f[i]]);
        assert(keys[f[i]] != keys[f[j]]);
    }
}

/// A cleaned app history holds at most `MAX_HISTORY_RECORDS` entries, each
/// with a non-empty name, and no name twice, whatever its case.
pub proof fn law_app_history_is_short_and_unique(vs: Seq<AppHistoryEntry>)
    ensures
        normalized_app_history(vs).len() <= MAX_HISTORY_RECORDS,
        forall|i: int|
            0 <= i < normalized_app_history(vs).len()
                ==> #[trigger] normalized_app_history(vs)[i].process_name.len() > 0,
        forall|i: int, j: int|
            0 <= i < j < normalized_app_history(vs).len() ==> lowercased(
                #[trigger] normalized_app_history(vs)[i].process_name,
            ) != lowercased(#[trigger] normalized_app_history(vs)[j].process_name),
{
    let keys = app_keys(vs);
    let blank = app_blanks(vs);
    let f = firsts(keys, blank, vs.len() as int);
    lemma_firsts_ordered(keys, blank, vs.len() as int);
    let h = normalized_app_history(vs);
    assert forall|i: int| 0 <= i < h.len() implies #[trigger] h[i].process_name.len() > 0 by {
        assert(!blank[f[i]]);
    }
    assert forall|i: int, j: int| 0 <= i < j < h.len() implies lowercased(
        #[trigger] h[i].process_name,
    ) != lowercased(#[trigger] h[j].process_name) by {
        assert(f[i] < f[j]);
        assert(!blank[f[i]]);
        assert(keys[f[i]] != keys[f[j]]);
    }
}

// ---------------------------------------------------------------------------
// A cleaned configuration
// ---------------------------------------------------------------------------

/// No entry of `s` occurs twice.
pub open spec fn no_repeats(s: Seq<Seq<char>>) -> bool {
    forall|i: int, j: int| 0 <= i < j < s.len() ==> #[trigger] s[i] != #[trigger] s[j]
}

proof fn lemma_list_clean(vs: Seq<Seq<char>>, lower: bool)
    ensures
        no_repeats(normalized_string_list(vs, lower)),
        !lower ==> no_empty_entries(normalized_string_list(vs, lower)),
{
    lemma_kept_list(vs, vs.len() as int, lower);
}

/// Whatever it was, a cleaned configuration polls at most once a second,
/// keeps its history limits within 1..=50, has no legacy setting left, at
/// most two custom buttons, and filter lists without blank or repeated
/// entries.
pub proof fn law_cleaned_config_within_limits(o: ClientConfig, n: ClientConfig)
    requires
        config_normalized(o, n),
    ensures
        n.poll_interval_ms >= 1000,
        1 <= n.capture_history_record_limit <= 50,
        1 <= n.capture_history_title_limit <= 50,
        !n.legacy_reporter_enabled && !n.legacy_discord_enabled
            && !n.legacy_discord_use_media_artwork,
        n.legacy_discord_status_display is None && n.legacy_discord_app_name_mode is None
            && n.legacy_discord_custom_app_name is None,
        button_views(n.discord_custom_buttons@).len() <= 2,
        no_repeats(views(n.app_blacklist@)) && no_empty_entries(views(n.app_blacklist@)),
        no_repeats(views(n.app_whitelist@)) && no_empty_entries(views(n.app_whitelist@)),
        no_repeats(views(n.app_name_only_list@)) && no_empty_entries(views(n.app_name_only_list@)),
        no_repeats(views(n.media_play_source_blocklist@)) && no_empty_entries(
            views(n.media_play_source_blocklist@),
        ),
{
    lemma_list_clean(views(o.app_blacklist@), false);
    lemma_list_clean(views(o.app_whitelist@), false);
    lemma_list_clean(views(o.app_name_only_list@), false);
    lemma_list_clean(views(o.media_play_source_blocklist@), true);
}

// ---------------------------------------------------------------------------
// Presets
// ---------------------------------------------------------------------------

/// Once a preset is applied, the configuration is in Custom mode and its
/// settings match that preset, so the tray shows a preset as the active one;
/// the saved presets themselves are untouched.
pub proof fn law_applied_preset_matches(o: ClientConfig, n: ClientConfig, q: DiscordCustomPreset)
    requires
        preset_applied(o, n, cleaned_preset(q)),
    ensures
        n.discord_report_mode == DiscordReportMode::Custom,
        matches_preset(n, cleaned_preset(q)),
        n.discord_custom_presets == o.discord_custom_presets,
{
    lemma_trim_idempotent(q.custom_app_name@, false);
    lemma_trim_idempotent(q.party_id@, false);
    lemma_trim_idempotent(q.join_secret@, false);
    lemma_trim_idempotent(q.spectate_secret@, false);
    lemma_trim_idempotent(q.match_secret@, false);
    lemma_line_format_idempotent(q.details_format@);
    lemma_line_format_idempotent(q.state_format@);
    lemma_buttons_idempotent(q.buttons@, n.discord_custom_buttons@);
}

// ---------------------------------------------------------------------------
// The app filter
// ---------------------------------------------------------------------------

/// A process that the app filter rejects is never reported: one on the
/// blacklist in blacklist mode, and any process in whitelist mode while the
/// whitelist is empty or does not list it.
pub proof fn law_filtered_process_is_not_reported(
    c: ClientConfig,
    snapshot: ForegroundSnapshot,
    m: MediaInfo,
)
    ensures
        c.app_filter_mode == AppFilterMode::Blacklist && listed(
            c.app_blacklist@,
            trim(snapshot.process_name@),
        ) ==> resolve_spec(c, snapshot, m) is None,
        c.app_filter_mode == AppFilterMode::Whitelist && (c.app_whitelist@.len() == 0 || !listed(
            c.app_whitelist@,
            trim(snapshot.process_name@),
        )) ==> resolve_spec(c, snapshot, m) is None,
{
}

/// In Smart and Music mode, when the configuration does not ask for media,
/// the media never shapes the reported activity: skipping its capture loses
/// nothing.
pub proof fn law_uncaptured_media_never_matters(
    c: ClientConfig,
    snapshot: ForegroundSnapshot,
    m1: MediaInfo,
    m2: MediaInfo,
)
    requires
        c.discord_report_mode == DiscordReportMode::Mixed || c.discord_report_mode
            == DiscordReportMode::Music,
        !capture_media_spec(c),
    ensures
        resolve_spec(c, snapshot, m1) == resolve_spec(c, snapshot, m2),
{
    let name = trim(snapshot.process_name@);
    let title = display_title_spec(c, snapshot);
    let status = status_spec(c, snapshot);
    assert(!media_hidden_spec(c, m1) && !media_hidden_spec(c, m2));
    assert(media_summary_spec(c, m1) is None && media_summary_spec(c, m2) is None);
    assert(play_source_spec(c, m1) is None && play_source_spec(c, m2) is None);
    assert(!media_shown(c, m1, false) && !media_shown(c, m2, false));
    assert(smart_media_text_spec(c, m1, false) is None && smart_media_text_spec(c, m2, false) is None);
    assert(music_text_spec(c, m1, false) is None && music_text_spec(c, m2, false) is None);
    assert(discord_text_spec(c, name, title, m1, false, status) == discord_text_spec(
        c,
        name,
        title,
        m2,
        false,
        status,
    ));
}

// ---------------------------------------------------------------------------
// Cleaning twice
// ---------------------------------------------------------------------------

/// Cleaning an already cleaned configuration changes none of its settings,
/// so loading and saving the state does not drift. The media source
/// blocklist, whose entries are lower-cased, is kept as it is when each of
/// its entries is its own key (trimmed and lower-cased already).
pub proof fn law_cleaning_twice_is_cleaning_once(o: ClientConfig, n: ClientConfig, n2: ClientConfig)
    requires
        config_normalized(o, n),
        config_normalized(n, n2),
    ensures
        same_settings_but_blocklist(n, n2),
        (forall|k: int|
            0 <= k < n.media_play_source_blocklist@.len() ==> is_own_key(
                #[trigger] n.media_play_source_blocklist@[k]@,
            )) ==> views(n2.media_play_source_blocklist@) == views(n.media_play_source_blocklist@),
{
    if forall|k: int|
        0 <= k < n.media_play_source_blocklist@.len() ==> is_own_key(
            #[trigger] n.media_play_source_blocklist@[k]@,
        ) {
        let ws = views(n.media_play_source_blocklist@);
        assert forall|k: int| 0 <= k < ws.len() implies is_own_key(#[trigger] ws[k]) by {
            assert(ws[k] == n.media_play_source_blocklist@[k]@);
        }
        lemma_keyed_list_idempotent(views(o.media_play_source_blocklist@));
    }
    lemma_trim_idempotent(o.discord_application_id@, false);
    lemma_trim_idempotent(o.discord_artwork_worker_upload_url@, false);
    lemma_trim_idempotent(o.discord_artwork_worker_token@, false);
    lemma_trim_idempotent(o.discord_smart_custom_app_name@, false);
    lemma_trim_idempotent(o.discord_app_custom_app_name@, false);
    lemma_trim_idempotent(o.discord_custom_mode_custom_app_name@, false);
    lemma_trim_idempotent(o.discord_music_custom_app_name@, false);
    if let Some(legacy) = o.legacy_discord_custom_app_name {
        lemma_trim_idempotent(legacy@, false);
    }
    lemma_line_format_idempotent(o.discord_details_format@);
    lemma_line_format_idempotent(o.discord_state_format@);
    lemma_trim_idempotent(o.discord_custom_artwork_text@, false);
    lemma_trim_idempotent(o.discord_custom_artwork_asset_id@, false);
    lemma_trim_idempotent(o.discord_custom_app_icon_text@, false);
    lemma_trim_idempotent(o.discord_custom_app_icon_asset_id@, false);
    lemma_kept_assets_clean(o.discord_custom_assets@, o.discord_custom_assets@.len() as int);
    lemma_clean_assets_fixed(n.discord_custom_assets@, n.discord_custom_assets@.len() as int);
    assert(asset_views(n.discord_custom_assets@).take(n.discord_custom_assets@.len() as int)
        =~= asset_views(n.discord_custom_assets@));
    lemma_buttons_idempotent(o.discord_custom_buttons@, n.discord_custom_buttons@);
    lemma_trim_idempotent(o.discord_custom_party_id@, false);
    lemma_trim_idempotent(o.discord_custom_join_secret@, false);
    lemma_trim_idempotent(o.discord_custom_spectate_secret@, false);
    lemma_trim_idempotent(o.discord_custom_match_secret@, false);
    assert forall|i: int| 0 <= i < n.discord_custom_presets@.len() implies preset_view(
        #[trigger] n.discord_custom_presets@[i],
    ) == preset_view(n2.discord_custom_presets@[i]) by {
        lemma_clean_preset_fixed(n.discord_custom_presets@[i], o.discord_custom_presets@[i]);
    }
    lemma_string_list_idempotent(views(o.app_blacklist@));
    lemma_string_list_idempotent(views(o.app_whitelist@));
    lemma_string_list_idempotent(views(o.app_name_only_list@));
    lemma_normalized_rule_groups_clean(o.app_message_rules@);
    lemma_clean_groups_fixed(n.app_message_rules@);
}

/// Cleaning a cleaned state keeps its locale, its settings and its app
/// history, and, when their entries are their own keys (trimmed and
/// lower-cased already), the media source blocklist and the play-source
/// history: what is saved after a load is what was loaded.
pub proof fn law_state_cleaning_is_stable(p: AppStatePayload, p1: AppStatePayload, p2: AppStatePayload)
    requires
        state_normalized(p, p1),
        state_normalized(p1, p2),
    ensures
        p2.locale@ == p1.locale@,
        same_settings_but_blocklist(p1.config, p2.config),
        (forall|k: int|
            0 <= k < p1.config.media_play_source_blocklist@.len() ==> is_own_key(
                #[trigger] p1.config.media_play_source_blocklist@[k]@,
            )) ==> views(p2.config.media_play_source_blocklist@) == views(
            p1.config.media_play_source_blocklist@,
        ),
        p2.app_history@.map_values(|e: AppHistoryEntry| app_entry_view(e))
            == p1.app_history@.map_values(|e: AppHistoryEntry| app_entry_view(e)),
        (forall|k: int|
            0 <= k < p1.play_source_history@.len() ==> is_own_key(
                #[trigger] p1.play_source_history@[k].source@,
            )) ==> p2.play_source_history@.map_values(
            |e: PlaySourceHistoryEntry| source_entry_view(e),
        ) == p1.play_source_history@.map_values(|e: PlaySourceHistoryEntry| source_entry_view(e)),
{
    reveal_strlit("en-US");
    assert(trim(DEFAULT_LOCALE@) == DEFAULT_LOCALE@) by {
        let d = DEFAULT_LOCALE@;
        assert(!is_edge(d[0], false) && !is_edge(d[d.len() - 1], false));
        lemma_trim_by_slice(d, false, 0, d.len() as int);
        assert(d.subrange(0, d.len() as int) =~= d);
    }
    law_cleaning_twice_is_cleaning_once(p.config, p1.config, p2.config);
    lemma_app_history_stable(p.app_history@, p1.app_history@);
    if forall|k: int|
        0 <= k < p1.play_source_history@.len() ==> is_own_key(
            #[trigger] p1.play_source_history@[k].source@,
        ) {
        lemma_play_source_history_stable(p.play_source_history@, p1.play_source_history@);
    }
}

// ---------------------------------------------------------------------------
// The tray's choices
// ---------------------------------------------------------------------------

/// A check item that is checked.
pub open spec fn is_checked(e: MenuEntryV) -> bool {
    e matches MenuEntryV::Check(_, _, true)
}

/// When some preset matches in Custom mode, one of them is the active one.
proof fn lemma_some_preset_active(c: ClientConfig, n: int)
    requires
        c.discord_report_mode == DiscordReportMode::Custom,
        0 <= n <= c.discord_custom_presets@.len(),
        exists|j: int|
            0 <= j < n && matches_preset(c, cleaned_preset(#[trigger] c.discord_custom_presets@[j])),
    ensures
        exists|i: int| 0 <= i < n && #[trigger] preset_is_active(c, i),
    decreases n,
{
    let presets = c.discord_custom_presets@;
    if exists|j: int| 0 <= j < n - 1 && matches_preset(c, cleaned_preset(#[trigger] presets[j])) {
        lemma_some_preset_active(c, n - 1);
        let i = choose|i: int| 0 <= i < n - 1 && #[trigger] preset_is_active(c, i);
        assert(preset_is_active(c, i));
    } else {
        let j = choose|j: int| 0 <= j < n && matches_preset(c, cleaned_preset(#[trigger] presets[j]));
        assert(j == n - 1);
        assert(preset_is_active(c, n - 1));
    }
}

/// The tray marks exactly one choice: outside Custom mode the item of the
/// current mode and nothing in the Custom submenu; in Custom mode none of
/// the mode items and exactly one entry of the Custom submenu (the active
/// preset, or the current custom settings when no preset matches).
pub proof fn law_tray_marks_one_choice(en: bool, c: ClientConfig)
    ensures
        ({
            let q = quick_switch_menu_spec(en, c.discord_report_mode);
            let m = custom_menu_spec(en, c);
            &&& c.discord_report_mode != DiscordReportMode::Custom ==> {
                &&& forall|k: int| 0 <= k < m.len() ==> !is_checked(#[trigger] m[k])
                &&& exists|k: int| 0 <= k < q.len() && is_checked(#[trigger] q[k])
                &&& forall|k1: int, k2: int|
                    0 <= k1 < q.len() && 0 <= k2 < q.len() && is_checked(#[trigger] q[k1])
                        && is_checked(#[trigger] q[k2]) ==> k1 == k2
            }
            &&& c.discord_report_mode == DiscordReportMode::Custom ==> {
                &&& forall|k: int| 0 <= k < q.len() ==> !is_checked(#[trigger] q[k])
                &&& exists|k: int| 0 <= k < m.len() && is_checked(#[trigger] m[k])
                &&& forall|k1: int, k2: int|
                    0 <= k1 < m.len() && 0 <= k2 < m.len() && is_checked(#[trigger] m[k1])
                        && is_checked(#[trigger] m[k2]) ==> k1 == k2
            }
        }),
{
    let q = quick_switch_menu_spec(en, c.discord_report_mode);
    let m = custom_menu_spec(en, c);
    let presets = c.discord_custom_presets@;
    if c.discord_report_mode != DiscordReportMode::Custom {
        if c.discord_report_mode == DiscordReportMode::Mixed {
            assert(is_checked(q[0]));
        } else if c.discord_report_mode == DiscordReportMode::Music {
            assert(is_checked(q[1]));
        } else {
            assert(is_checked(q[2]));
        }
        assert forall|k: int| 0 <= k < m.len() implies !is_checked(#[trigger] m[k]) by {
            if presets.len() > 0 && k >= 2 {
                assert(!preset_is_active(c, k - 2));
            }
        }
    } else {
        if exists|j: int| 0 <= j < presets.len() && matches_preset(c, cleaned_preset(#[trigger] presets[j])) {
            lemma_some_preset_active(c, presets.len() as int);
            let i = choose|i: int| 0 <= i < presets.len() && #[trigger] preset_is_active(c, i);
            assert(is_checked(m[i + 2]));
            assert forall|k1: int, k2: int|
                0 <= k1 < m.len() && 0 <= k2 < m.len() && is_checked(#[trigger] m[k1])
                    && is_checked(#[trigger] m[k2]) implies k1 == k2 by {
                assert(k1 >= 2 && k2 >= 2);
                assert(preset_is_active(c, k1 - 2) && preset_is_active(c, k2 - 2));
                if k1 < k2 {
                    assert(!matches_preset(c, cleaned_preset(presets[k1 - 2])));
                }
                if k2 < k1 {
                    assert(!matches_preset(c, cleaned_preset(presets[k2 - 2])));
                }
            }
        } else {
            assert(is_checked(m[0]));
            assert forall|k1: int, k2: int|
                0 <= k1 < m.len() && 0 <= k2 < m.len() && is_checked(#[trigger] m[k1])
                    && is_checked(#[trigger] m[k2]) implies k1 == k2 by {
                if k1 >= 2 {
                    assert(preset_is_active(c, k1 - 2));
                }
                if k2 >= 2 {
                    assert(preset_is_active(c, k2 - 2));
                }
            }
        }
    }
}

} // verus!
