//! The tray menu's rules: its texts, the quick-switch targets and how they
//! change the configuration, and the notices that report the outcome.
use crate::models::{
    copy_button, AppMessageRuleGroup, AppMessageTitleRule, ClientConfig, DiscordCustomAsset,
    DiscordCustomPreset, DiscordReportMode, DiscordRichPresenceButtonConfig,
};
use crate::rules::normalize::{
    button_views, cleaned_preset, normalize_discord_buttons, normalize_discord_custom_preset,
    normalize_discord_line_format, normalize_party_size, normalized_buttons, kept_buttons,
    normalized_line_format, normalized_party_size, preset_view, PresetV, asset_view, asset_views,
    rule_group_view, rule_group_views, same_settings_but_blocklist, title_rule_view,
    title_rule_views,
};
use crate::text::{decimal, decimal_string, owned, parse_unsigned, parse_unsigned_exec, push_str,
    starts_with, str_eq, trim, trim_string, views};
use vstd::prelude::*;

verus! {

/// The event the UI listens to for quick-switch notices.
pub const TRAY_QUICK_SWITCH_EVENT: &'static str = "tray-quick-switch-applied";

pub const TRAY_ID: &'static str = "activityping-tray";

pub const MENU_ID_SHOW: &'static str = "tray_show";

pub const MENU_ID_HIDE: &'static str = "tray_hide";

pub const MENU_ID_QUIT: &'static str = "tray_quit";

pub const MENU_ID_RUNTIME: &'static str = "tray_runtime";

pub const MENU_ID_RUNTIME_START: &'static str = "tray_runtime_start";

pub const MENU_ID_RUNTIME_STOP: &'static str = "tray_runtime_stop";

pub const MENU_ID_QUICK_SWITCH: &'static str = "tray_quick_switch";

pub const MENU_ID_SWITCH_MIXED: &'static str = "tray_switch_mixed";

pub const MENU_ID_SWITCH_MUSIC: &'static str = "tray_switch_music";

pub const MENU_ID_SWITCH_APP: &'static str = "tray_switch_app";

pub const MENU_ID_SWITCH_CUSTOM: &'static str = "tray_switch_custom";

pub const MENU_ID_SWITCH_CUSTOM_CURRENT: &'static str = "tray_switch_custom_current";

pub const MENU_ID_SWITCH_CUSTOM_PRESET_PREFIX: &'static str = "tray_switch_custom_preset::";

/// The language of the tray's texts.
#[derive(Clone, Copy, Debug, PartialEq, Eq, Structural)]
pub enum BackendLocale {
    En,
    ZhCn,
}

impl BackendLocale {
    pub fn is_en(&self) -> (r: bool)
        ensures
            r == (*self == BackendLocale::En),
    {
        match self {
            BackendLocale::En => true,
            BackendLocale::ZhCn => false,
        }
    }
}

/// A notice shown after a tray action and sent to the UI.
pub struct TrayQuickSwitchNotice {
    pub tone: String,
    pub title: String,
    pub detail: String,
    pub reload_state: bool,
    pub refresh_runtime: bool,
}

/// What a quick-switch menu item asks for.
#[derive(Clone, Copy, Debug, PartialEq, Eq, Structural)]
pub enum TraySwitchTarget {
    Mode(DiscordReportMode),
    CustomCurrent,
    CustomPreset(usize),
}

/// What a quick switch applied, for its notice.
pub enum AppliedSelection {
    Mode(DiscordReportMode),
    CustomCurrent,
    CustomPreset(String),
}

/// The fixed texts of the tray.
#[derive(Clone, Copy, Debug, PartialEq, Eq, Structural)]
pub enum TrayText {
    MainWindowNotFound,
    Show,
    Hide,
    Runtime,
    Start,
    Stop,
    QuickSwitch,
    Custom,
    CurrentCustomSettings,
    Quit,
    CreateMenuFailed,
    LoadIconFailed,
    CreateTrayFailed,
    SwitchFailed,
}

pub open spec fn tray_text_spec(en: bool, key: TrayText) -> Seq<char> {
    if en {
        match key {
            TrayText::MainWindowNotFound => "Main window not found."@,
            TrayText::Show => "Open main window"@,
            TrayText::Hide => "Hide to background"@,
            TrayText::Runtime => "Runtime"@,
            TrayText::Start => "Start"@,
            TrayText::Stop => "Stop"@,
            TrayText::QuickSwitch => "Quick switch"@,
            TrayText::Custom => "Custom"@,
            TrayText::CurrentCustomSettings => "Current custom settings"@,
            TrayText::Quit => "Quit app"@,
            TrayText::CreateMenuFailed => "Failed to create the tray menu"@,
            TrayText::LoadIconFailed => "Failed to load the tray icon"@,
            TrayText::CreateTrayFailed => "Failed to create the system tray"@,
            TrayText::SwitchFailed => "Tray switch failed"@,
        }
    } else {
        match key {
            TrayText::MainWindowNotFound => "找不到主窗口。"@,
            TrayText::Show => "打开主窗口"@,
            TrayText::Hide => "隐藏到后台"@,
            TrayText::Runtime => "运行时"@,
            TrayText::Start => "启动"@,
            TrayText::Stop => "关闭"@,
            TrayText::QuickSwitch => "快速切换"@,
            TrayText::Custom => "自定义"@,
            TrayText::CurrentCustomSettings => "当前自定义设置"@,
            TrayText::Quit => "退出应用"@,
            TrayText::CreateMenuFailed => "创建托盘菜单失败"@,
            TrayText::LoadIconFailed => "加载托盘图标失败"@,
            TrayText::CreateTrayFailed => "创建系统托盘失败"@,
            TrayText::SwitchFailed => "托盘切换失败"@,
        }
    }
}

/// A fixed tray text in the locale's language.
pub fn tray_text(locale: BackendLocale, key: TrayText) -> (r: &'static str)
    ensures
        r@ == tray_text_spec(locale == BackendLocale::En, key),
{
    if locale.is_en() {
        match key {
            TrayText::MainWindowNotFound => "Main window not found.",
            TrayText::Show => "Open main window",
            TrayText::Hide => "Hide to background",
            TrayText::Runtime => "Runtime",
            TrayText::Start => "Start",
            TrayText::Stop => "Stop",
            TrayText::QuickSwitch => "Quick switch",
            TrayText::Custom => "Custom",
            TrayText::CurrentCustomSettings => "Current custom settings",
            TrayText::Quit => "Quit app",
            TrayText::CreateMenuFailed => "Failed to create the tray menu",
            TrayText::LoadIconFailed => "Failed to load the tray icon",
            TrayText::CreateTrayFailed => "Failed to create the system tray",
            TrayText::SwitchFailed => "Tray switch failed",
        }
    } else {
        match key {
            TrayText::MainWindowNotFound => "找不到主窗口。",
            TrayText::Show => "打开主窗口",
            TrayText::Hide => "隐藏到后台",
            TrayText::Runtime => "运行时",
            TrayText::Start => "启动",
            TrayText::Stop => "关闭",
            TrayText::QuickSwitch => "快速切换",
            TrayText::Custom => "自定义",
            TrayText::CurrentCustomSettings => "当前自定义设置",
            TrayText::Quit => "退出应用",
            TrayText::CreateMenuFailed => "创建托盘菜单失败",
            TrayText::LoadIconFailed => "加载托盘图标失败",
            TrayText::CreateTrayFailed => "创建系统托盘失败",
            TrayText::SwitchFailed => "托盘切换失败",
        }
    }
}

pub open spec fn mode_label_spec(en: bool, mode: DiscordReportMode) -> Seq<char> {
    match mode {
        DiscordReportMode::Mixed => "Smart"@,
        DiscordReportMode::Music => "Music"@,
        DiscordReportMode::App => "App"@,
        DiscordReportMode::Custom => if en {
            "Custom"@
        } else {
            "自定义"@
        },
    }
}

/// The menu label of a report mode.
pub fn mode_label(locale: BackendLocale, mode: &DiscordReportMode) -> (r: &'static str)
    ensures
        r@ == mode_label_spec(locale == BackendLocale::En, *mode),
{
    match mode {
        DiscordReportMode::Mixed => "Smart",
        DiscordReportMode::Music => "Music",
        DiscordReportMode::App => "App",
        DiscordReportMode::Custom => if locale.is_en() {
            "Custom"
        } else {
            "自定义"
        },
    }
}

pub open spec fn preset_fallback_label_spec(en: bool, index: nat) -> Seq<char> {
    if en {
        "Preset "@ + decimal(index + 1)
    } else {
        "预设 "@ + decimal(index + 1)
    }
}

/// "Preset <n>" for the preset at `index`, counting from one.
pub fn preset_fallback_label(locale: BackendLocale, index: usize) -> (r: String)
    requires
        index < usize::MAX,
    ensures
        r@ == preset_fallback_label_spec(locale == BackendLocale::En, index as nat),
{
    let mut label = if locale.is_en() {
        owned("Preset ")
    } else {
        owned("预设 ")
    };
    let number = decimal_string((index + 1) as u64);
    push_str(&mut label, number.as_str());
    label
}

pub open spec fn preset_label_spec(en: bool, name: Seq<char>, index: nat) -> Seq<char> {
    if trim(name).len() == 0 {
        preset_fallback_label_spec(en, index)
    } else {
        trim(name)
    }
}

/// A preset's menu label: its trimmed name, or "Preset <n>" when it has none.
pub fn preset_label(locale: BackendLocale, preset: &DiscordCustomPreset, index: usize) -> (r: String)
    requires
        index < usize::MAX,
    ensures
        r@ == preset_label_spec(locale == BackendLocale::En, preset.name@, index as nat),
{
    let name = trim_string(preset.name.as_str());
    if name.as_str().is_empty() {
        preset_fallback_label(locale, index)
    } else {
        name
    }
}

/// "<fixed text>: <error>".
pub fn format_tray_error(locale: BackendLocale, key: TrayText, error: &str) -> (r: String)
    ensures
        r@ == tray_text_spec(locale == BackendLocale::En, key) + ": "@ + error@,
{
    let mut out = owned(tray_text(locale, key));
    push_str(&mut out, ": ");
    push_str(&mut out, error);
    out
}

pub open spec fn selection_title_spec(en: bool, selection: AppliedSelection, changed: bool) -> Seq<char> {
    match selection {
        AppliedSelection::Mode(mode) => if changed {
            if en {
                "Switched to "@ + mode_label_spec(en, mode) + " mode"@
            } else {
                "已切换到"@ + mode_label_spec(en, mode) + "模式"@
            }
        } else {
            if en {
                mode_label_spec(en, mode) + " mode already active"@
            } else {
                mode_label_spec(en, mode) + "模式已在使用中"@
            }
        },
        AppliedSelection::CustomCurrent => if changed {
            if en {
                "Switched to Custom mode"@
            } else {
                "已切换到自定义模式"@
            }
        } else {
            if en {
                "Custom mode already active"@
            } else {
                "自定义模式已在使用中"@
            }
        },
        AppliedSelection::CustomPreset(label) => if changed {
            if en {
                "Applied custom preset: "@ + label@
            } else {
                "已应用自定义预设："@ + label@
            }
        } else {
            if en {
                "Custom preset already active: "@ + label@
            } else {
                "该自定义预设已生效："@ + label@
            }
        },
    }
}

pub open spec fn success_detail_spec(en: bool, changed: bool, runtime_restarted: bool) -> Seq<char> {
    if !changed {
        if en {
            "No restart was needed."@
        } else {
            "当前已经是这个配置，无需重启运行时。"@
        }
    } else if runtime_restarted {
        if en {
            "Running services were updated immediately."@
        } else {
            "运行中的服务已立即更新。"@
        }
    } else if en {
        "The setting was saved and will be used when the runtime starts."@
    } else {
        "设置已保存，运行时下次启动时会使用新配置。"@
    }
}

fn selection_title(locale: BackendLocale, selection: &AppliedSelection, changed: bool) -> (r: String)
    ensures
        r@ == selection_title_spec(locale == BackendLocale::En, *selection, changed),
{
    let en = locale.is_en();
    let mut out = String::new();
    match selection {
        AppliedSelection::Mode(mode) => {
            let label = mode_label(locale, mode);
            if changed {
                if en {
                    push_str(&mut out, "Switched to ");
                    push_str(&mut out, label);
                    push_str(&mut out, " mode");
                } else {
                    push_str(&mut out, "已切换到");
                    push_str(&mut out, label);
                    push_str(&mut out, "模式");
                }
            } else {
                push_str(&mut out, label);
                if en {
                    push_str(&mut out, " mode already active");
                } else {
                    push_str(&mut out, "模式已在使用中");
                }
            }
        },
        AppliedSelection::CustomCurrent => {
            if changed {
                if en {
                    push_str(&mut out, "Switched to Custom mode");
                } else {
                    push_str(&mut out, "已切换到自定义模式");
                }
            } else {
                if en {
                    push_str(&mut out, "Custom mode already active");
                } else {
                    push_str(&mut out, "自定义模式已在使用中");
                }
            }
        },
        AppliedSelection::CustomPreset(label) => {
            if changed {
                if en {
                    push_str(&mut out, "Applied custom preset: ");
                } else {
                    push_str(&mut out, "已应用自定义预设：");
                }
            } else {
                if en {
                    push_str(&mut out, "Custom preset already active: ");
                } else {
                    push_str(&mut out, "该自定义预设已生效：");
                }
            }
            push_str(&mut out, label.as_str());
        },
    }
    proof {
        assert(Seq::<char>::empty() + "Switched to "@ =~= "Switched to "@);
        assert(Seq::<char>::empty() + "已切换到"@ =~= "已切换到"@);
        assert(Seq::<char>::empty() + "Switched to Custom mode"@ =~= "Switched to Custom mode"@);
        assert(Seq::<char>::empty() + "已切换到自定义模式"@ =~= "已切换到自定义模式"@);
        assert(Seq::<char>::empty() + "Custom mode already active"@ =~= "Custom mode already active"@);
        assert(Seq::<char>::empty() + "自定义模式已在使用中"@ =~= "自定义模式已在使用中"@);
        assert(Seq::<char>::empty() + "Applied custom preset: "@ =~= "Applied custom preset: "@);
        assert(Seq::<char>::empty() + "已应用自定义预设："@ =~= "已应用自定义预设："@);
        assert(Seq::<char>::empty() + "Custom preset already active: "@
            =~= "Custom preset already active: "@);
        assert(Seq::<char>::empty() + "该自定义预设已生效："@ =~= "该自定义预设已生效："@);
        if let AppliedSelection::Mode(mode) = selection {
            assert(Seq::<char>::empty() + mode_label_spec(en, *mode) =~= mode_label_spec(en, *mode));
        }
    }
    out
}

/// The notice after a quick switch went through: success when something
/// changed, info when it was already active.
pub fn success_notice(
    locale: BackendLocale,
    selection: &AppliedSelection,
    changed: bool,
    runtime_restarted: bool,
) -> (r: TrayQuickSwitchNotice)
    ensures
        r.tone@ == (if changed {
            "success"@
        } else {
            "info"@
        }),
        r.title@ == selection_title_spec(locale == BackendLocale::En, *selection, changed),
        r.detail@ == success_detail_spec(locale == BackendLocale::En, changed, runtime_restarted),
        r.reload_state == changed,
        !r.refresh_runtime,
{
    let en = locale.is_en();
    let detail = if !changed {
        if en {
            "No restart was needed."
        } else {
            "当前已经是这个配置，无需重启运行时。"
        }
    } else if runtime_restarted {
        if en {
            "Running services were updated immediately."
        } else {
            "运行中的服务已立即更新。"
        }
    } else if en {
        "The setting was saved and will be used when the runtime starts."
    } else {
        "设置已保存，运行时下次启动时会使用新配置。"
    };
    TrayQuickSwitchNotice {
        tone: owned(
            if changed {
                "success"
            } else {
                "info"
            },
        ),
        title: selection_title(locale, selection, changed),
        detail: owned(detail),
        reload_state: changed,
        refresh_runtime: false,
    }
}

/// The notice after a quick switch failed.
pub fn failure_notice(locale: BackendLocale, detail: String, reload_state: bool) -> (r:
    TrayQuickSwitchNotice)
    ensures
        r.tone@ == "error"@,
        r.title@ == tray_text_spec(locale == BackendLocale::En, TrayText::SwitchFailed),
        r.detail == detail,
        r.reload_state == reload_state,
        !r.refresh_runtime,
{
    TrayQuickSwitchNotice {
        tone: owned("error"),
        title: owned(tray_text(locale, TrayText::SwitchFailed)),
        detail,
        reload_state,
        refresh_runtime: false,
    }
}

/// A notice about starting or stopping the runtime; the UI refreshes its runtime view.
pub fn runtime_notice(tone: &str, title: String, detail: String) -> (r: TrayQuickSwitchNotice)
    ensures
        r.tone@ == tone@,
        r.title == title,
        r.detail == detail,
        !r.reload_state,
        r.refresh_runtime,
{
    TrayQuickSwitchNotice {
        tone: owned(tone),
        title,
        detail,
        reload_state: false,
        refresh_runtime: true,
    }
}

/// The menu id of the preset at `index`.
pub fn custom_preset_menu_id(index: usize) -> (r: String)
    ensures
        r@ == MENU_ID_SWITCH_CUSTOM_PRESET_PREFIX@ + decimal(index as nat),
{
    let mut id = owned(MENU_ID_SWITCH_CUSTOM_PRESET_PREFIX);
    let number = decimal_string(index as u64);
    push_str(&mut id, number.as_str());
    id
}

pub open spec fn switch_target_spec(id: Seq<char>) -> Option<TraySwitchTarget> {
    if id == MENU_ID_SWITCH_MIXED@ {
        Some(TraySwitchTarget::Mode(DiscordReportMode::Mixed))
    } else if id == MENU_ID_SWITCH_MUSIC@ {
        Some(TraySwitchTarget::Mode(DiscordReportMode::Music))
    } else if id == MENU_ID_SWITCH_APP@ {
        Some(TraySwitchTarget::Mode(DiscordReportMode::App))
    } else if id == MENU_ID_SWITCH_CUSTOM_CURRENT@ {
        Some(TraySwitchTarget::CustomCurrent)
    } else if starts_with(id, MENU_ID_SWITCH_CUSTOM_PRESET_PREFIX@) {
        match parse_unsigned(
            id.skip(MENU_ID_SWITCH_CUSTOM_PRESET_PREFIX@.len() as int),
            usize::MAX as nat,
        ) {
            Some(n) => Some(TraySwitchTarget::CustomPreset(n as usize)),
            None => None,
        }
    } else {
        None
    }
}

/// The quick-switch target of a menu item id, if it is one.
pub fn parse_switch_target(id: &str) -> (r: Option<TraySwitchTarget>)
    ensures
        r == switch_target_spec(id@),
{
    if str_eq(id, MENU_ID_SWITCH_MIXED) {
        Some(TraySwitchTarget::Mode(DiscordReportMode::Mixed))
    } else if str_eq(id, MENU_ID_SWITCH_MUSIC) {
        Some(TraySwitchTarget::Mode(DiscordReportMode::Music))
    } else if str_eq(id, MENU_ID_SWITCH_APP) {
        Some(TraySwitchTarget::Mode(DiscordReportMode::App))
    } else if str_eq(id, MENU_ID_SWITCH_CUSTOM_CURRENT) {
        Some(TraySwitchTarget::CustomCurrent)
    } else if crate::text::starts_with_str(id, MENU_ID_SWITCH_CUSTOM_PRESET_PREFIX) {
        let chars = crate::text::chars_of(id);
        let prefix_len = crate::text::chars_of(MENU_ID_SWITCH_CUSTOM_PRESET_PREFIX).len();
        let rest = crate::text::string_from_range(&chars, prefix_len, chars.len());
        assert(rest@ =~= id@.skip(MENU_ID_SWITCH_CUSTOM_PRESET_PREFIX@.len() as int));
        match parse_unsigned_exec(rest.as_str(), usize::MAX as u64) {
            Some(n) => Some(TraySwitchTarget::CustomPreset(n as usize)),
            None => None,
        }
    } else {
        None
    }
}

/// The normalized form of a preset that the tray compares and applies.
pub fn normalized_custom_preset(preset: &DiscordCustomPreset) -> (r: DiscordCustomPreset)
    ensures
        preset_view(r) == cleaned_preset(*preset),
{
    normalize_discord_custom_preset(preset)
}

/// The Custom-mode settings of `c` (normalized) are those of the cleaned preset `p`.
pub open spec fn matches_preset(c: ClientConfig, p: PresetV) -> bool {
    &&& c.discord_activity_type == p.activity_type
    &&& c.discord_custom_mode_status_display == p.status_display
    &&& c.discord_custom_mode_app_name_mode == p.app_name_mode
    &&& trim(c.discord_custom_mode_custom_app_name@) == p.custom_app_name
    &&& normalized_line_format(c.discord_details_format@) == p.details_format
    &&& normalized_line_format(c.discord_state_format@) == p.state_format
    &&& normalized_buttons(c.discord_custom_buttons@) == p.buttons
    &&& trim(c.discord_custom_party_id@) == p.party_id
    &&& normalized_party_size(c.discord_custom_party_size_current) == p.party_size_current
    &&& normalized_party_size(c.discord_custom_party_size_max) == p.party_size_max
    &&& trim(c.discord_custom_join_secret@) == p.join_secret
    &&& trim(c.discord_custom_spectate_secret@) == p.spectate_secret
    &&& trim(c.discord_custom_match_secret@) == p.match_secret
}

fn same_buttons(
    a: &Vec<DiscordRichPresenceButtonConfig>,
    b: &Vec<DiscordRichPresenceButtonConfig>,
) -> (r: bool)
    ensures
        r == (button_views(a@) == button_views(b@)),
{
    if a.len() != b.len() {
        assert(button_views(a@).len() != button_views(b@).len());
        return false;
    }
    let mut i: usize = 0;
    while i < a.len()
        invariant
            a@.len() == b@.len(),
            i <= a@.len(),
            forall|k: int| 0 <= k < i ==> button_views(a@)[k] == button_views(b@)[k],
        decreases a@.len() - i,
    {
        if !str_eq(a[i].label.as_str(), b[i].label.as_str()) || !str_eq(
            a[i].url.as_str(),
            b[i].url.as_str(),
        ) {
            assert(button_views(a@)[i as int] != button_views(b@)[i as int]);
            return false;
        }
        i += 1;
    }
    assert(button_views(a@) =~= button_views(b@));
    true
}

/// Whether the configuration's Custom-mode settings are those of the preset.
pub fn config_matches_custom_preset(config: &ClientConfig, preset: &DiscordCustomPreset) -> (r: bool)
    ensures
        r == matches_preset(*config, cleaned_preset(*preset)),
{
    let p = normalized_custom_preset(preset);
    let app_name = trim_string(config.discord_custom_mode_custom_app_name.as_str());
    let details = normalize_discord_line_format(config.discord_details_format.as_str());
    let state = normalize_discord_line_format(config.discord_state_format.as_str());
    let buttons = normalize_discord_buttons(&config.discord_custom_buttons);
    let party_id = trim_string(config.discord_custom_party_id.as_str());
    let join = trim_string(config.discord_custom_join_secret.as_str());
    let spectate = trim_string(config.discord_custom_spectate_secret.as_str());
    let match_secret = trim_string(config.discord_custom_match_secret.as_str());
    config.discord_activity_type == p.activity_type && config.discord_custom_mode_status_display
        == p.status_display && config.discord_custom_mode_app_name_mode == p.app_name_mode
        && str_eq(app_name.as_str(), p.custom_app_name.as_str()) && str_eq(
        details.as_str(),
        p.details_format.as_str(),
    ) && str_eq(state.as_str(), p.state_format.as_str()) && same_buttons(&buttons, &p.buttons)
        && str_eq(party_id.as_str(), p.party_id.as_str()) && normalize_party_size(
        config.discord_custom_party_size_current,
    ) == p.party_size_current && normalize_party_size(config.discord_custom_party_size_max)
        == p.party_size_max && str_eq(join.as_str(), p.join_secret.as_str()) && str_eq(
        spectate.as_str(),
        p.spectate_secret.as_str(),
    ) && str_eq(match_secret.as_str(), p.match_secret.as_str())
}

/// The first preset that the configuration's Custom-mode settings match,
/// while Custom mode is selected.
pub fn active_custom_preset_index(config: &ClientConfig) -> (r: Option<usize>)
    ensures
        match r {
            Some(i) => {
                &&& config.discord_report_mode == DiscordReportMode::Custom
                &&& i < config.discord_custom_presets@.len()
                &&& matches_preset(*config, cleaned_preset(config.discord_custom_presets@[i as int]))
                &&& forall|j: int|
                    0 <= j < i ==> !matches_preset(
                        *config,
                        cleaned_preset(#[trigger] config.discord_custom_presets@[j]),
                    )
            },
            None => config.discord_report_mode != DiscordReportMode::Custom || forall|j: int|
                0 <= j < config.discord_custom_presets@.len() ==> !matches_preset(
                    *config,
                    cleaned_preset(#[trigger] config.discord_custom_presets@[j]),
                ),
        },
{
    if config.discord_report_mode != DiscordReportMode::Custom {
        return None;
    }
    let mut i: usize = 0;
    while i < config.discord_custom_presets.len()
        invariant
            i <= config.discord_custom_presets@.len(),
            config.discord_report_mode == DiscordReportMode::Custom,
            forall|j: int|
                0 <= j < i ==> !matches_preset(
                    *config,
                    cleaned_preset(#[trigger] config.discord_custom_presets@[j]),
                ),
        decreases config.discord_custom_presets@.len() - i,
    {
        if config_matches_custom_preset(config, &config.discord_custom_presets[i]) {
            return Some(i);
        }
        i += 1;
    }
    None
}

/// Custom mode with the cleaned preset's settings; nothing else changes.
pub open spec fn preset_applied(o: ClientConfig, n: ClientConfig, p: PresetV) -> bool {
    &&& n == (ClientConfig {
        discord_report_mode: n.discord_report_mode,
        discord_activity_type: n.discord_activity_type,
        discord_custom_mode_status_display: n.discord_custom_mode_status_display,
        discord_custom_mode_app_name_mode: n.discord_custom_mode_app_name_mode,
        discord_custom_mode_custom_app_name: n.discord_custom_mode_custom_app_name,
        discord_details_format: n.discord_details_format,
        discord_state_format: n.discord_state_format,
        discord_custom_buttons: n.discord_custom_buttons,
        discord_custom_party_id: n.discord_custom_party_id,
        discord_custom_party_size_current: n.discord_custom_party_size_current,
        discord_custom_party_size_max: n.discord_custom_party_size_max,
        discord_custom_join_secret: n.discord_custom_join_secret,
        discord_custom_spectate_secret: n.discord_custom_spectate_secret,
        discord_custom_match_secret: n.discord_custom_match_secret,
        ..o
    })
    &&& n.discord_report_mode == DiscordReportMode::Custom
    &&& n.discord_activity_type == p.activity_type
    &&& n.discord_custom_mode_status_display == p.status_display
    &&& n.discord_custom_mode_app_name_mode == p.app_name_mode
    &&& n.discord_custom_mode_custom_app_name@ == p.custom_app_name
    &&& n.discord_details_format@ == p.details_format
    &&& n.discord_state_format@ == p.state_format
    &&& button_views(n.discord_custom_buttons@) == p.buttons
    &&& n.discord_custom_party_id@ == p.party_id
    &&& n.discord_custom_party_size_current == p.party_size_current
    &&& n.discord_custom_party_size_max == p.party_size_max
    &&& n.discord_custom_join_secret@ == p.join_secret
    &&& n.discord_custom_spectate_secret@ == p.spectate_secret
    &&& n.discord_custom_match_secret@ == p.match_secret
}

/// Switches to Custom mode with the preset's settings.
pub fn apply_custom_preset_to_config(config: &mut ClientConfig, preset: &DiscordCustomPreset)
    ensures
        preset_applied(*old(config), *final(config), cleaned_preset(*preset)),
{
    let p = normalized_custom_preset(preset);
    let mut c = ClientConfig::default();
    std::mem::swap(&mut c, config);
    *config = ClientConfig {
        discord_report_mode: DiscordReportMode::Custom,
        discord_activity_type: p.activity_type,
        discord_custom_mode_status_display: p.status_display,
        discord_custom_mode_app_name_mode: p.app_name_mode,
        discord_custom_mode_custom_app_name: p.custom_app_name,
        discord_details_format: p.details_format,
        discord_state_format: p.state_format,
        discord_custom_buttons: p.buttons,
        discord_custom_party_id: p.party_id,
        discord_custom_party_size_current: p.party_size_current,
        discord_custom_party_size_max: p.party_size_max,
        discord_custom_join_secret: p.join_secret,
        discord_custom_spectate_secret: p.spectate_secret,
        discord_custom_match_secret: p.match_secret,
        ..c
    };
}

pub open spec fn missing_preset_message(en: bool, index: nat) -> Seq<char> {
    if en {
        "Custom preset "@ + decimal(index + 1) + " was not found."@
    } else {
        "找不到自定义预设 "@ + decimal(index + 1)
    }
}

/// Applies a quick-switch target: a mode, Custom mode as it stands, or a
/// saved preset (an error when there is no preset at that index).
pub fn apply_switch_target(
    config: &mut ClientConfig,
    target: &TraySwitchTarget,
    locale: BackendLocale,
) -> (r: Result<AppliedSelection, String>)
    requires
        *target matches TraySwitchTarget::CustomPreset(i) ==> i < usize::MAX,
    ensures
        *target matches TraySwitchTarget::Mode(mode) ==> r matches Ok(AppliedSelection::Mode(m))
            && m == mode,
        *target matches TraySwitchTarget::Mode(mode) ==> *final(config) == (ClientConfig {
            discord_report_mode: mode,
            ..*old(config)
        }),
        *target is CustomCurrent ==> r matches Ok(AppliedSelection::CustomCurrent),
        *target is CustomCurrent ==> *final(config) == (ClientConfig {
            discord_report_mode: DiscordReportMode::Custom,
            ..*old(config)
        }),
        *target matches TraySwitchTarget::CustomPreset(i) ==> (if i
            < old(config).discord_custom_presets@.len() {
            r matches Ok(AppliedSelection::CustomPreset(label)) && label@ == preset_label_spec(
                locale == BackendLocale::En,
                old(config).discord_custom_presets@[i as int].name@,
                i as nat,
            ) && preset_applied(
                *old(config),
                *final(config),
                cleaned_preset(old(config).discord_custom_presets@[i as int]),
            )
        } else {
            r matches Err(e) && e@ == missing_preset_message(locale == BackendLocale::En, i as nat)
                && *final(config) == *old(config)
        }),
{
    match *target {
        TraySwitchTarget::Mode(mode) => {
            config.discord_report_mode = mode;
            Ok(AppliedSelection::Mode(mode))
        },
        TraySwitchTarget::CustomCurrent => {
            config.discord_report_mode = DiscordReportMode::Custom;
            Ok(AppliedSelection::CustomCurrent)
        },
        TraySwitchTarget::CustomPreset(index) => {
            if index >= config.discord_custom_presets.len() {
                Err(missing_preset(locale, index))
            } else {
                Ok(AppliedSelection::CustomPreset(apply_preset_at(config, index, locale)))
            }
        },
    }
}

proof fn lemma_kept_buttons_by_views(
    a: Seq<DiscordRichPresenceButtonConfig>,
    b: Seq<DiscordRichPresenceButtonConfig>,
)
    requires
        button_views(a) == button_views(b),
    ensures
        kept_buttons(a) == kept_buttons(b),
    decreases a.len(),
{
    assert(a.len() == button_views(a).len());
    assert(b.len() == button_views(b).len());
    if a.len() > 0 {
        assert(button_views(a.drop_last()) =~= button_views(a).drop_last());
        assert(button_views(b.drop_last()) =~= button_views(b).drop_last());
        assert(button_views(a)[a.len() - 1] == button_views(b)[b.len() - 1]);
        lemma_kept_buttons_by_views(a.drop_last(), b.drop_last());
    }
}

/// A copy of a preset, equal in every value.
fn clone_preset(p: &DiscordCustomPreset) -> (r: DiscordCustomPreset)
    ensures
        preset_view(r) == preset_view(*p),
        cleaned_preset(r) == cleaned_preset(*p),
{
    let mut buttons: Vec<DiscordRichPresenceButtonConfig> = Vec::new();
    let mut i: usize = 0;
    while i < p.buttons.len()
        invariant
            i <= p.buttons@.len(),
            buttons@.len() == i,
            forall|k: int|
                0 <= k < i ==> (#[trigger] buttons@[k]).label@ == p.buttons@[k].label@
                    && buttons@[k].url@ == p.buttons@[k].url@,
        decreases p.buttons@.len() - i,
    {
        buttons.push(copy_button(&p.buttons[i]));
        i += 1;
    }
    assert(button_views(buttons@) =~= button_views(p.buttons@));
    let r = DiscordCustomPreset {
        name: p.name.clone(),
        activity_type: p.activity_type,
        status_display: p.status_display,
        app_name_mode: p.app_name_mode,
        custom_app_name: p.custom_app_name.clone(),
        details_format: p.details_format.clone(),
        state_format: p.state_format.clone(),
        custom_artwork_source: p.custom_artwork_source,
        custom_artwork_text_mode: p.custom_artwork_text_mode,
        custom_artwork_text: p.custom_artwork_text.clone(),
        custom_artwork_asset_id: p.custom_artwork_asset_id.clone(),
        custom_app_icon_source: p.custom_app_icon_source,
        custom_app_icon_text_mode: p.custom_app_icon_text_mode,
        custom_app_icon_text: p.custom_app_icon_text.clone(),
        custom_app_icon_asset_id: p.custom_app_icon_asset_id.clone(),
        buttons,
        party_id: p.party_id.clone(),
        party_size_current: p.party_size_current,
        party_size_max: p.party_size_max,
        join_secret: p.join_secret.clone(),
        spectate_secret: p.spectate_secret.clone(),
        match_secret: p.match_secret.clone(),
    };
    proof {
        lemma_kept_buttons_by_views(r.buttons@, p.buttons@);
    }
    r
}

fn missing_preset(locale: BackendLocale, index: usize) -> (r: String)
    requires
        index < usize::MAX,
    ensures
        r@ == missing_preset_message(locale == BackendLocale::En, index as nat),
{
    let number = decimal_string((index + 1) as u64);
    let mut message = if locale.is_en() {
        owned("Custom preset ")
    } else {
        owned("找不到自定义预设 ")
    };
    push_str(&mut message, number.as_str());
    if locale.is_en() {
        push_str(&mut message, " was not found.");
    }
    message
}

/// Applies the preset at `index` and returns its label.
fn apply_preset_at(config: &mut ClientConfig, index: usize, locale: BackendLocale) -> (r: String)
    requires
        index < old(config).discord_custom_presets@.len(),
        index < usize::MAX,
    ensures
        r@ == preset_label_spec(
            locale == BackendLocale::En,
            old(config).discord_custom_presets@[index as int].name@,
            index as nat,
        ),
        preset_applied(
            *old(config),
            *final(config),
            cleaned_preset(old(config).discord_custom_presets@[index as int]),
        ),
{
    let preset = clone_preset(&config.discord_custom_presets[index]);
    let label = preset_label(locale, &preset, index);
    apply_custom_preset_to_config(config, &preset);
    label
}

/// How a runtime start from the tray ended.
pub enum RuntimeStartOutcome {
    AlreadyOnline,
    Started,
    Failed(String),
}

/// Which services a tray start has to start.
pub struct RuntimeStartPlan {
    pub already_online: bool,
    pub start_discord: bool,
    pub start_reporter: bool,
}

/// Start what is not running; nothing when both already run.
pub fn runtime_start_plan(reporter_running: bool, discord_running: bool) -> (r: RuntimeStartPlan)
    ensures
        r.already_online == (reporter_running && discord_running),
        r.start_discord == (!r.already_online && !discord_running),
        r.start_reporter == (!r.already_online && !reporter_running),
{
    let already_online = reporter_running && discord_running;
    RuntimeStartPlan {
        already_online,
        start_discord: !already_online && !discord_running,
        start_reporter: !already_online && !reporter_running,
    }
}

pub open spec fn runtime_start_title(en: bool, outcome: RuntimeStartOutcome) -> Seq<char> {
    match outcome {
        RuntimeStartOutcome::AlreadyOnline => if en {
            "Runtime already online"@
        } else {
            "运行时已启动"@
        },
        RuntimeStartOutcome::Started => if en {
            "Runtime online"@
        } else {
            "运行时已启动"@
        },
        RuntimeStartOutcome::Failed(_) => if en {
            "Runtime start failed"@
        } else {
            "启动运行时失败"@
        },
    }
}

pub open spec fn runtime_start_detail(en: bool, outcome: RuntimeStartOutcome) -> Seq<char> {
    match outcome {
        RuntimeStartOutcome::AlreadyOnline => if en {
            "Local capture and Discord RPC are already running."@
        } else {
            "本地监控和 Discord RPC 已经在运行。"@
        },
        RuntimeStartOutcome::Started => if en {
            "Local capture and Discord RPC are now running."@
        } else {
            "本地监控和 Discord RPC 已开始运行。"@
        },
        RuntimeStartOutcome::Failed(error) => error@,
    }
}

/// The notice after "Start" in the tray.
pub fn runtime_start_notice(locale: BackendLocale, outcome: RuntimeStartOutcome) -> (r:
    TrayQuickSwitchNotice)
    ensures
        r.tone@ == (match outcome {
            RuntimeStartOutcome::AlreadyOnline => "info"@,
            RuntimeStartOutcome::Started => "success"@,
            RuntimeStartOutcome::Failed(_) => "error"@,
        }),
        r.title@ == runtime_start_title(locale == BackendLocale::En, outcome),
        r.detail@ == runtime_start_detail(locale == BackendLocale::En, outcome),
        !r.reload_state,
        r.refresh_runtime,
{
    let en = locale.is_en();
    match outcome {
        RuntimeStartOutcome::AlreadyOnline => runtime_notice(
            "info",
            owned(
                if en {
                    "Runtime already online"
                } else {
                    "运行时已启动"
                },
            ),
            owned(
                if en {
                    "Local capture and Discord RPC are already running."
                } else {
                    "本地监控和 Discord RPC 已经在运行。"
                },
            ),
        ),
        RuntimeStartOutcome::Started => runtime_notice(
            "success",
            owned(
                if en {
                    "Runtime online"
                } else {
                    "运行时已启动"
                },
            ),
            owned(
                if en {
                    "Local capture and Discord RPC are now running."
                } else {
                    "本地监控和 Discord RPC 已开始运行。"
                },
            ),
        ),
        RuntimeStartOutcome::Failed(error) => runtime_notice(
            "error",
            owned(
                if en {
                    "Runtime start failed"
                } else {
                    "启动运行时失败"
                },
            ),
            error,
        ),
    }
}

pub open spec fn runtime_stop_title(en: bool, already_stopped: bool) -> Seq<char> {
    if already_stopped {
        if en {
            "Runtime already stopped"@
        } else {
            "运行时已关闭"@
        }
    } else if en {
        "Runtime stopped"@
    } else {
        "运行时已关闭"@
    }
}

pub open spec fn runtime_stop_detail(en: bool, already_stopped: bool) -> Seq<char> {
    if already_stopped {
        if en {
            "Local capture and Discord RPC are already stopped."@
        } else {
            "本地监控和 Discord RPC 已经停止。"@
        }
    } else if en {
        "Local capture and Discord RPC have been stopped."@
    } else {
        "本地监控和 Discord RPC 已停止。"@
    }
}

/// The notice after "Stop" in the tray.
pub fn runtime_stop_notice(locale: BackendLocale, already_stopped: bool) -> (r: TrayQuickSwitchNotice)
    ensures
        r.tone@ == "info"@,
        r.title@ == runtime_stop_title(locale == BackendLocale::En, already_stopped),
        r.detail@ == runtime_stop_detail(locale == BackendLocale::En, already_stopped),
        !r.reload_state,
        r.refresh_runtime,
{
    let en = locale.is_en();
    let title = if already_stopped {
        if en {
            "Runtime already stopped"
        } else {
            "运行时已关闭"
        }
    } else if en {
        "Runtime stopped"
    } else {
        "运行时已关闭"
    };
    let detail = if already_stopped {
        if en {
            "Local capture and Discord RPC are already stopped."
        } else {
            "本地监控和 Discord RPC 已经停止。"
        }
    } else if en {
        "Local capture and Discord RPC have been stopped."
    } else {
        "本地监控和 Discord RPC 已停止。"
    };
    runtime_notice("info", owned(title), owned(detail))
}

pub open spec fn restart_failed_detail(en: bool, error: Seq<char>) -> Seq<char> {
    if en {
        "The new mode was saved, but the running services could not be updated: "@ + error
    } else {
        "新模式已保存，但运行中的服务更新失败："@ + error
    }
}

/// The notice that ends a quick switch: unchanged, saved (and the running
/// services restarted or not), or saved but the restart failed.
pub fn quick_switch_notice(
    locale: BackendLocale,
    selection: &AppliedSelection,
    changed: bool,
    restart: Result<bool, String>,
) -> (r: TrayQuickSwitchNotice)
    ensures
        !changed ==> r.tone@ == "info"@ && r.title@ == selection_title_spec(
            locale == BackendLocale::En,
            *selection,
            false,
        ) && r.detail@ == success_detail_spec(locale == BackendLocale::En, false, false)
            && !r.reload_state,
        changed && restart is Ok ==> r.tone@ == "success"@ && r.title@ == selection_title_spec(
            locale == BackendLocale::En,
            *selection,
            true,
        ) && r.detail@ == success_detail_spec(locale == BackendLocale::En, true, restart->Ok_0)
            && r.reload_state,
        changed && restart is Err ==> r.tone@ == "error"@ && r.title@ == tray_text_spec(
            locale == BackendLocale::En,
            TrayText::SwitchFailed,
        ) && r.detail@ == restart_failed_detail(locale == BackendLocale::En, restart->Err_0@)
            && r.reload_state,
        !r.refresh_runtime,
{
    if !changed {
        return success_notice(locale, selection, false, false);
    }
    match restart {
        Ok(restarted) => success_notice(locale, selection, true, restarted),
        Err(error) => {
            let mut detail = if locale.is_en() {
                owned("The new mode was saved, but the running services could not be updated: ")
            } else {
                owned("新模式已保存，但运行中的服务更新失败：")
            };
            push_str(&mut detail, error.as_str());
            failure_notice(locale, detail, true)
        },
    }
}

pub open spec fn unsupported_switch_detail(en: bool) -> Seq<char> {
    if en {
        "Unsupported tray quick switch."@
    } else {
        "不支持的托盘快速切换操作。"@
    }
}

/// The notice for a menu id that is no quick-switch target.
pub fn unsupported_switch_notice(locale: BackendLocale) -> (r: TrayQuickSwitchNotice)
    ensures
        r.tone@ == "error"@,
        r.title@ == tray_text_spec(locale == BackendLocale::En, TrayText::SwitchFailed),
        r.detail@ == unsupported_switch_detail(locale == BackendLocale::En),
        !r.reload_state,
        !r.refresh_runtime,
{
    failure_notice(
        locale,
        owned(
            if locale.is_en() {
                "Unsupported tray quick switch."
            } else {
                "不支持的托盘快速切换操作。"
            },
        ),
        false,
    )
}

/// Which services a restart after a quick switch touches: those that ran.
pub struct RestartPlan {
    pub needed: bool,
    pub restart_reporter: bool,
    pub restart_discord: bool,
}

/// Restart what was running; nothing when nothing was.
pub fn restart_plan(reporter_was_running: bool, discord_was_running: bool) -> (r: RestartPlan)
    ensures
        r.needed == (reporter_was_running || discord_was_running),
        r.restart_reporter == reporter_was_running,
        r.restart_discord == discord_was_running,
{
    RestartPlan {
        needed: reporter_was_running || discord_was_running,
        restart_reporter: reporter_was_running,
        restart_discord: discord_was_running,
    }
}

// ---------------------------------------------------------------------------
// Menu layout
// ---------------------------------------------------------------------------

/// One entry of a tray menu, as the menu builder places it.
#[derive(Debug, PartialEq, Eq)]
pub enum TrayMenuEntry {
    /// A plain item, clickable when enabled.
    Item { id: String, label: String, enabled: bool },
    /// A check item.
    Check { id: String, label: String, checked: bool },
    /// A separator line.
    Separator,
    /// A submenu, filled from its own entries.
    Submenu { id: String, label: String },
}

/// A menu entry by its values.
pub enum MenuEntryV {
    Item(Seq<char>, Seq<char>, bool),
    Check(Seq<char>, Seq<char>, bool),
    Separator,
    Submenu(Seq<char>, Seq<char>),
}

pub open spec fn menu_entry_view(e: TrayMenuEntry) -> MenuEntryV {
    match e {
        TrayMenuEntry::Item { id, label, enabled } => MenuEntryV::Item(id@, label@, enabled),
        TrayMenuEntry::Check { id, label, checked } => MenuEntryV::Check(id@, label@, checked),
        TrayMenuEntry::Separator => MenuEntryV::Separator,
        TrayMenuEntry::Submenu { id, label } => MenuEntryV::Submenu(id@, label@),
    }
}

pub open spec fn menu_views(v: Seq<TrayMenuEntry>) -> Seq<MenuEntryV> {
    v.map_values(|e: TrayMenuEntry| menu_entry_view(e))
}

fn item(id: &str, label: &str, enabled: bool) -> (r: TrayMenuEntry)
    ensures
        menu_entry_view(r) == MenuEntryV::Item(id@, label@, enabled),
{
    TrayMenuEntry::Item { id: owned(id), label: owned(label), enabled }
}

fn check(id: &str, label: &str, checked: bool) -> (r: TrayMenuEntry)
    ensures
        menu_entry_view(r) == MenuEntryV::Check(id@, label@, checked),
{
    TrayMenuEntry::Check { id: owned(id), label: owned(label), checked }
}

fn submenu(id: &str, label: &str) -> (r: TrayMenuEntry)
    ensures
        menu_entry_view(r) == MenuEntryV::Submenu(id@, label@),
{
    TrayMenuEntry::Submenu { id: owned(id), label: owned(label) }
}

/// The top-level tray menu: show, hide, the runtime and quick-switch
/// submenus, and quit, with separators between the groups.
pub fn tray_menu_entries(locale: BackendLocale) -> (r: Vec<TrayMenuEntry>)
    ensures
        ({
            let en = locale == BackendLocale::En;
            menu_views(r@) == seq![
                MenuEntryV::Item(MENU_ID_SHOW@, tray_text_spec(en, TrayText::Show), true),
                MenuEntryV::Item(MENU_ID_HIDE@, tray_text_spec(en, TrayText::Hide), true),
                MenuEntryV::Separator,
                MenuEntryV::Submenu(MENU_ID_RUNTIME@, tray_text_spec(en, TrayText::Runtime)),
                MenuEntryV::Separator,
                MenuEntryV::Submenu(MENU_ID_QUICK_SWITCH@, tray_text_spec(en, TrayText::QuickSwitch)),
                MenuEntryV::Separator,
                MenuEntryV::Item(MENU_ID_QUIT@, tray_text_spec(en, TrayText::Quit), true),
            ]
        }),
{
    let mut v: Vec<TrayMenuEntry> = Vec::new();
    v.push(item(MENU_ID_SHOW, tray_text(locale, TrayText::Show), true));
    v.push(item(MENU_ID_HIDE, tray_text(locale, TrayText::Hide), true));
    v.push(TrayMenuEntry::Separator);
    v.push(submenu(MENU_ID_RUNTIME, tray_text(locale, TrayText::Runtime)));
    v.push(TrayMenuEntry::Separator);
    v.push(submenu(MENU_ID_QUICK_SWITCH, tray_text(locale, TrayText::QuickSwitch)));
    v.push(TrayMenuEntry::Separator);
    v.push(item(MENU_ID_QUIT, tray_text(locale, TrayText::Quit), true));
    let ghost en = locale == BackendLocale::En;
    assert(menu_views(v@) =~= seq![
        MenuEntryV::Item(MENU_ID_SHOW@, tray_text_spec(en, TrayText::Show), true),
        MenuEntryV::Item(MENU_ID_HIDE@, tray_text_spec(en, TrayText::Hide), true),
        MenuEntryV::Separator,
        MenuEntryV::Submenu(MENU_ID_RUNTIME@, tray_text_spec(en, TrayText::Runtime)),
        MenuEntryV::Separator,
        MenuEntryV::Submenu(MENU_ID_QUICK_SWITCH@, tray_text_spec(en, TrayText::QuickSwitch)),
        MenuEntryV::Separator,
        MenuEntryV::Item(MENU_ID_QUIT@, tray_text_spec(en, TrayText::Quit), true),
    ]);
    v
}

/// The runtime submenu: Start while nothing runs, Stop while anything does.
pub fn runtime_menu_entries(locale: BackendLocale, reporter_running: bool, discord_running: bool) -> (r:
    Vec<TrayMenuEntry>)
    ensures
        ({
            let en = locale == BackendLocale::En;
            let running = reporter_running || discord_running;
            menu_views(r@) == seq![
                MenuEntryV::Item(MENU_ID_RUNTIME_START@, tray_text_spec(en, TrayText::Start), !running),
                MenuEntryV::Item(MENU_ID_RUNTIME_STOP@, tray_text_spec(en, TrayText::Stop), running),
            ]
        }),
{
    let running = reporter_running || discord_running;
    let mut v: Vec<TrayMenuEntry> = Vec::new();
    v.push(item(MENU_ID_RUNTIME_START, tray_text(locale, TrayText::Start), !running));
    v.push(item(MENU_ID_RUNTIME_STOP, tray_text(locale, TrayText::Stop), running));
    let ghost en = locale == BackendLocale::En;
    assert(menu_views(v@) =~= seq![
        MenuEntryV::Item(MENU_ID_RUNTIME_START@, tray_text_spec(en, TrayText::Start), !running),
        MenuEntryV::Item(MENU_ID_RUNTIME_STOP@, tray_text_spec(en, TrayText::Stop), running),
    ]);
    v
}

/// The quick-switch submenu by its values (see `quick_switch_menu_entries`).
pub open spec fn quick_switch_menu_spec(en: bool, mode: DiscordReportMode) -> Seq<MenuEntryV> {
    seq![
        MenuEntryV::Check(
            MENU_ID_SWITCH_MIXED@,
            mode_label_spec(en, DiscordReportMode::Mixed),
            mode == DiscordReportMode::Mixed,
        ),
        MenuEntryV::Check(
            MENU_ID_SWITCH_MUSIC@,
            mode_label_spec(en, DiscordReportMode::Music),
            mode == DiscordReportMode::Music,
        ),
        MenuEntryV::Check(
            MENU_ID_SWITCH_APP@,
            mode_label_spec(en, DiscordReportMode::App),
            mode == DiscordReportMode::App,
        ),
        MenuEntryV::Separator,
        MenuEntryV::Submenu(MENU_ID_SWITCH_CUSTOM@, tray_text_spec(en, TrayText::Custom)),
    ]
}

/// The quick-switch submenu: the three modes, checked by the current mode,
/// then the Custom submenu.
pub fn quick_switch_menu_entries(locale: BackendLocale, config: &ClientConfig) -> (r: Vec<
    TrayMenuEntry,
>)
    ensures
        menu_views(r@) == quick_switch_menu_spec(
            locale == BackendLocale::En,
            config.discord_report_mode,
        ),
{
    let mode = config.discord_report_mode;
    let mut v: Vec<TrayMenuEntry> = Vec::new();
    v.push(
        check(
            MENU_ID_SWITCH_MIXED,
            mode_label(locale, &DiscordReportMode::Mixed),
            mode == DiscordReportMode::Mixed,
        ),
    );
    v.push(
        check(
            MENU_ID_SWITCH_MUSIC,
            mode_label(locale, &DiscordReportMode::Music),
            mode == DiscordReportMode::Music,
        ),
    );
    v.push(
        check(
            MENU_ID_SWITCH_APP,
            mode_label(locale, &DiscordReportMode::App),
            mode == DiscordReportMode::App,
        ),
    );
    v.push(TrayMenuEntry::Separator);
    v.push(submenu(MENU_ID_SWITCH_CUSTOM, tray_text(locale, TrayText::Custom)));
    assert(menu_views(v@) =~= quick_switch_menu_spec(locale == BackendLocale::En, mode));
    v
}

/// Preset `i` is the active one: Custom mode, its settings match, and no
/// earlier preset matches.
pub open spec fn preset_is_active(c: ClientConfig, i: int) -> bool {
    &&& c.discord_report_mode == DiscordReportMode::Custom
    &&& matches_preset(c, cleaned_preset(c.discord_custom_presets@[i]))
    &&& forall|j: int|
        0 <= j < i ==> !matches_preset(c, cleaned_preset(#[trigger] c.discord_custom_presets@[j]))
}

/// The Custom submenu by its values (see `custom_menu_entries`).
pub open spec fn custom_menu_spec(en: bool, c: ClientConfig) -> Seq<MenuEntryV> {
    let presets = c.discord_custom_presets@;
    let current = MenuEntryV::Check(
        MENU_ID_SWITCH_CUSTOM_CURRENT@,
        tray_text_spec(en, TrayText::CurrentCustomSettings),
        c.discord_report_mode == DiscordReportMode::Custom && forall|j: int|
            0 <= j < presets.len() ==> !matches_preset(c, cleaned_preset(#[trigger] presets[j])),
    );
    if presets.len() == 0 {
        seq![current]
    } else {
        Seq::new(
            (presets.len() + 2) as nat,
            |k: int|
                if k == 0 {
                    current
                } else if k == 1 {
                    MenuEntryV::Separator
                } else {
                    MenuEntryV::Check(
                        MENU_ID_SWITCH_CUSTOM_PRESET_PREFIX@ + decimal((k - 2) as nat),
                        preset_label_spec(en, presets[k - 2].name@, (k - 2) as nat),
                        preset_is_active(c, k - 2),
                    )
                },
        )
    }
}

/// The Custom submenu: "current custom settings", checked in Custom mode
/// when no preset is active, then, when there are presets, a separator and
/// one check item per preset, checked when it is the active one.
pub fn custom_menu_entries(locale: BackendLocale, config: &ClientConfig) -> (r: Vec<TrayMenuEntry>)
    ensures
        menu_views(r@) == custom_menu_spec(locale == BackendLocale::En, *config),
{
    let active = active_custom_preset_index(config);
    let mut v: Vec<TrayMenuEntry> = Vec::new();
    v.push(
        check(
            MENU_ID_SWITCH_CUSTOM_CURRENT,
            tray_text(locale, TrayText::CurrentCustomSettings),
            config.discord_report_mode == DiscordReportMode::Custom && active.is_none(),
        ),
    );
    let n = config.discord_custom_presets.len();
    if n > 0 {
        v.push(TrayMenuEntry::Separator);
        let mut i: usize = 0;
        while i < n
            invariant
                n == config.discord_custom_presets@.len(),
                i <= n,
                v@.len() == i + 2,
                menu_views(v@)[0] == MenuEntryV::Check(
                    MENU_ID_SWITCH_CUSTOM_CURRENT@,
                    tray_text_spec(locale == BackendLocale::En, TrayText::CurrentCustomSettings),
                    config.discord_report_mode == DiscordReportMode::Custom && forall|j: int|
                        0 <= j < n ==> !matches_preset(
                            *config,
                            cleaned_preset(#[trigger] config.discord_custom_presets@[j]),
                        ),
                ),
                menu_views(v@)[1] == MenuEntryV::Separator,
                forall|k: int|
                    0 <= k < i ==> #[trigger] menu_views(v@)[k + 2] == MenuEntryV::Check(
                        MENU_ID_SWITCH_CUSTOM_PRESET_PREFIX@ + decimal(k as nat),
                        preset_label_spec(
                            locale == BackendLocale::En,
                            config.discord_custom_presets@[k].name@,
                            k as nat,
                        ),
                        preset_is_active(*config, k),
                    ),
                match active {
                    Some(a) => preset_is_active(*config, a as int) && a < n,
                    None => config.discord_report_mode != DiscordReportMode::Custom || forall|j: int|
                        0 <= j < n ==> !matches_preset(
                            *config,
                            cleaned_preset(#[trigger] config.discord_custom_presets@[j]),
                        ),
                },
            decreases n - i,
        {
            let id = custom_preset_menu_id(i);
            let label = preset_label(locale, &config.discord_custom_presets[i], i);
            let checked = match active {
                Some(a) => a == i,
                None => false,
            };
            proof {
                if let Some(a) = active {
                    if (i as int) < (a as int) {
                        assert(!matches_preset(*config, cleaned_preset(config.discord_custom_presets@[i as int])));
                    }
                    if (a as int) < (i as int) {
                        assert(matches_preset(*config, cleaned_preset(config.discord_custom_presets@[a as int])));
                    }
                } else {
                    if config.discord_report_mode == DiscordReportMode::Custom {
                        assert(!matches_preset(*config, cleaned_preset(config.discord_custom_presets@[i as int])));
                    }
                }
                assert(checked == preset_is_active(*config, i as int));
            }
            let ghost before = v@;
            v.push(TrayMenuEntry::Check { id, label, checked });
            proof {
                assert forall|k: int| 0 <= k < i + 1 implies #[trigger] menu_views(v@)[k + 2]
                    == MenuEntryV::Check(
                    MENU_ID_SWITCH_CUSTOM_PRESET_PREFIX@ + decimal(k as nat),
                    preset_label_spec(
                        locale == BackendLocale::En,
                        config.discord_custom_presets@[k].name@,
                        k as nat,
                    ),
                    preset_is_active(*config, k),
                ) by {
                    if k < i {
                        assert(menu_views(v@)[k + 2] == menu_views(before)[k + 2]);
                    }
                }
                assert(menu_views(v@)[0] == menu_views(before)[0]);
                assert(menu_views(v@)[1] == menu_views(before)[1]);
            }
            i += 1;
        }
        assert(menu_views(v@) =~= custom_menu_spec(locale == BackendLocale::En, *config)) by {
            assert forall|k: int| 2 <= k < n + 2 implies #[trigger] menu_views(v@)[k]
                == custom_menu_spec(locale == BackendLocale::En, *config)[k] by {
                assert(menu_views(v@)[(k - 2) + 2] == menu_views(v@)[k]);
            }
        }
    } else {
        assert(menu_views(v@) =~= custom_menu_spec(locale == BackendLocale::En, *config));
    }
    v
}


// ---------------------------------------------------------------------------
// Whether a quick switch changed the configuration
// ---------------------------------------------------------------------------

/// Two configurations with every setting equal by value, the media source
/// blocklist included: what it means for both to serialize to the same JSON.
pub open spec fn same_config(a: ClientConfig, b: ClientConfig) -> bool {
    same_settings_but_blocklist(a, b) && views(a.media_play_source_blocklist@) == views(
        b.media_play_source_blocklist@,
    )
}

fn opt_text_eq(a: &Option<String>, b: &Option<String>) -> (r: bool)
    ensures
        r == (a.deep_view() == b.deep_view()),
{
    match (a, b) {
        (Some(x), Some(y)) => str_eq(x.as_str(), y.as_str()),
        (None, None) => true,
        _ => false,
    }
}

fn opt_u32_eq(a: Option<u32>, b: Option<u32>) -> (r: bool)
    ensures
        r == (a == b),
{
    match (a, b) {
        (Some(x), Some(y)) => x == y,
        (None, None) => true,
        _ => false,
    }
}

fn texts_eq(a: &Vec<String>, b: &Vec<String>) -> (r: bool)
    ensures
        r == (views(a@) == views(b@)),
{
    if a.len() != b.len() {
        assert(views(a@).len() != views(b@).len());
        return false;
    }
    let mut i: usize = 0;
    while i < a.len()
        invariant
            a.len() == b.len(),
            i <= a.len(),
            forall|j: int| 0 <= j < i ==> (#[trigger] a@[j])@ == b@[j]@,
        decreases a.len() - i,
    {
        if !str_eq(a[i].as_str(), b[i].as_str()) {
            assert(views(a@)[i as int] != views(b@)[i as int]);
            return false;
        }
        i += 1;
    }
    assert(views(a@) =~= views(b@));
    true
}

fn buttons_eq(
    a: &Vec<DiscordRichPresenceButtonConfig>,
    b: &Vec<DiscordRichPresenceButtonConfig>,
) -> (r: bool)
    ensures
        r == (button_views(a@) == button_views(b@)),
{
    if a.len() != b.len() {
        assert(button_views(a@).len() != button_views(b@).len());
        return false;
    }
    let mut i: usize = 0;
    while i < a.len()
        invariant
            a.len() == b.len(),
            i <= a.len(),
            forall|j: int|
                0 <= j < i ==> (#[trigger] button_views(a@)[j]) == button_views(b@)[j],
        decreases a.len() - i,
    {
        let same = str_eq(a[i].label.as_str(), b[i].label.as_str()) && str_eq(
            a[i].url.as_str(),
            b[i].url.as_str(),
        );
        if !same {
            assert(button_views(a@)[i as int] != button_views(b@)[i as int]);
            return false;
        }
        i += 1;
    }
    assert(button_views(a@) =~= button_views(b@));
    true
}

fn assets_eq(a: &Vec<DiscordCustomAsset>, b: &Vec<DiscordCustomAsset>) -> (r: bool)
    ensures
        r == (asset_views(a@) == asset_views(b@)),
{
    if a.len() != b.len() {
        assert(asset_views(a@).len() != asset_views(b@).len());
        return false;
    }
    let mut i: usize = 0;
    while i < a.len()
        invariant
            a.len() == b.len(),
            i <= a.len(),
            forall|j: int| 0 <= j < i ==> (#[trigger] asset_views(a@)[j]) == asset_views(b@)[j],
        decreases a.len() - i,
    {
        let x = &a[i];
        let y = &b[i];
        let same = str_eq(x.id.as_str(), y.id.as_str()) && str_eq(x.name.as_str(), y.name.as_str())
            && str_eq(x.file_name.as_str(), y.file_name.as_str()) && str_eq(
            x.stored_path.as_str(),
            y.stored_path.as_str(),
        ) && str_eq(x.content_type.as_str(), y.content_type.as_str()) && x.byte_size
            == y.byte_size && str_eq(x.created_at.as_str(), y.created_at.as_str());
        assert(asset_views(a@)[i as int] == asset_view(*x));
        assert(asset_views(b@)[i as int] == asset_view(*y));
        if !same {
            return false;
        }
        i += 1;
    }
    assert(asset_views(a@) =~= asset_views(b@));
    true
}

fn preset_eq(x: &DiscordCustomPreset, y: &DiscordCustomPreset) -> (r: bool)
    ensures
        r == (preset_view(*x) == preset_view(*y)),
{
    str_eq(x.name.as_str(), y.name.as_str()) && x.activity_type == y.activity_type
        && x.status_display == y.status_display && x.app_name_mode == y.app_name_mode && str_eq(
        x.custom_app_name.as_str(),
        y.custom_app_name.as_str(),
    ) && str_eq(x.details_format.as_str(), y.details_format.as_str()) && str_eq(
        x.state_format.as_str(),
        y.state_format.as_str(),
    ) && x.custom_artwork_source == y.custom_artwork_source && x.custom_artwork_text_mode
        == y.custom_artwork_text_mode && str_eq(
        x.custom_artwork_text.as_str(),
        y.custom_artwork_text.as_str(),
    ) && str_eq(x.custom_artwork_asset_id.as_str(), y.custom_artwork_asset_id.as_str())
        && x.custom_app_icon_source == y.custom_app_icon_source && x.custom_app_icon_text_mode
        == y.custom_app_icon_text_mode && str_eq(
        x.custom_app_icon_text.as_str(),
        y.custom_app_icon_text.as_str(),
    ) && str_eq(x.custom_app_icon_asset_id.as_str(), y.custom_app_icon_asset_id.as_str())
        && buttons_eq(&x.buttons, &y.buttons) && str_eq(x.party_id.as_str(), y.party_id.as_str())
        && opt_u32_eq(x.party_size_current, y.party_size_current) && opt_u32_eq(
        x.party_size_max,
        y.party_size_max,
    ) && str_eq(x.join_secret.as_str(), y.join_secret.as_str()) && str_eq(
        x.spectate_secret.as_str(),
        y.spectate_secret.as_str(),
    ) && str_eq(x.match_secret.as_str(), y.match_secret.as_str())
}

/// The presets agree one by one.
pub open spec fn same_presets(a: Seq<DiscordCustomPreset>, b: Seq<DiscordCustomPreset>) -> bool {
    a.len() == b.len() && forall|i: int|
        0 <= i < a.len() ==> preset_view(#[trigger] a[i]) == preset_view(b[i])
}

fn presets_eq(a: &Vec<DiscordCustomPreset>, b: &Vec<DiscordCustomPreset>) -> (r: bool)
    ensures
        r == same_presets(a@, b@),
{
    if a.len() != b.len() {
        return false;
    }
    let mut i: usize = 0;
    while i < a.len()
        invariant
            a.len() == b.len(),
            i <= a.len(),
            forall|j: int| 0 <= j < i ==> preset_view(#[trigger] a@[j]) == preset_view(b@[j]),
        decreases a.len() - i,
    {
        if !preset_eq(&a[i], &b[i]) {
            return false;
        }
        i += 1;
    }
    true
}

fn title_rules_eq(a: &Vec<AppMessageTitleRule>, b: &Vec<AppMessageTitleRule>) -> (r: bool)
    ensures
        r == (title_rule_views(a@) == title_rule_views(b@)),
{
    if a.len() != b.len() {
        assert(title_rule_views(a@).len() != title_rule_views(b@).len());
        return false;
    }
    let mut i: usize = 0;
    while i < a.len()
        invariant
            a.len() == b.len(),
            i <= a.len(),
            forall|j: int|
                0 <= j < i ==> (#[trigger] title_rule_views(a@)[j]) == title_rule_views(b@)[j],
        decreases a.len() - i,
    {
        let x = &a[i];
        let y = &b[i];
        let same = x.mode == y.mode && str_eq(x.pattern.as_str(), y.pattern.as_str()) && str_eq(
            x.text.as_str(),
            y.text.as_str(),
        ) && buttons_eq(&x.buttons, &y.buttons);
        assert(title_rule_views(a@)[i as int] == title_rule_view(*x));
        assert(title_rule_views(b@)[i as int] == title_rule_view(*y));
        if !same {
            return false;
        }
        i += 1;
    }
    assert(title_rule_views(a@) =~= title_rule_views(b@));
    true
}

fn rule_group_eq(x: &AppMessageRuleGroup, y: &AppMessageRuleGroup) -> (r: bool)
    ensures
        r == (rule_group_view(*x) == rule_group_view(*y)),
{
    str_eq(x.process_match.as_str(), y.process_match.as_str()) && str_eq(
        x.default_text.as_str(),
        y.default_text.as_str(),
    ) && title_rules_eq(&x.title_rules, &y.title_rules) && buttons_eq(&x.buttons, &y.buttons)
        && str_eq(x.party_id.as_str(), y.party_id.as_str()) && opt_u32_eq(
        x.party_size_current,
        y.party_size_current,
    ) && opt_u32_eq(x.party_size_max, y.party_size_max) && str_eq(
        x.join_secret.as_str(),
        y.join_secret.as_str(),
    ) && str_eq(x.spectate_secret.as_str(), y.spectate_secret.as_str()) && str_eq(
        x.match_secret.as_str(),
        y.match_secret.as_str(),
    )
}

fn rule_groups_eq(a: &Vec<AppMessageRuleGroup>, b: &Vec<AppMessageRuleGroup>) -> (r: bool)
    ensures
        r == (rule_group_views(a@) == rule_group_views(b@)),
{
    if a.len() != b.len() {
        assert(rule_group_views(a@).len() != rule_group_views(b@).len());
        return false;
    }
    let mut i: usize = 0;
    while i < a.len()
        invariant
            a.len() == b.len(),
            i <= a.len(),
            forall|j: int|
                0 <= j < i ==> (#[trigger] rule_group_views(a@)[j]) == rule_group_views(b@)[j],
        decreases a.len() - i,
    {
        let same = rule_group_eq(&a[i], &b[i]);
        assert(rule_group_views(a@)[i as int] == rule_group_view(a@[i as int]));
        assert(rule_group_views(b@)[i as int] == rule_group_view(b@[i as int]));
        if !same {
            return false;
        }
        i += 1;
    }
    assert(rule_group_views(a@) =~= rule_group_views(b@));
    true
}

/// Whether two configurations have the same settings, each compared by
/// value; a quick switch that gives back an equal configuration changed
/// nothing.
pub fn configs_equal(left: &ClientConfig, right: &ClientConfig) -> (r: bool)
    ensures
        r == same_config(*left, *right),
{
    let a = left;
    let b = right;
    a.poll_interval_ms == b.poll_interval_ms && a.heartbeat_interval_ms == b.heartbeat_interval_ms
        && a.capture_history_record_limit == b.capture_history_record_limit
        && a.capture_history_title_limit == b.capture_history_title_limit
        && a.runtime_autostart_enabled == b.runtime_autostart_enabled
        && a.legacy_reporter_enabled == b.legacy_reporter_enabled && a.legacy_discord_enabled
        == b.legacy_discord_enabled && a.report_foreground_app == b.report_foreground_app
        && a.report_window_title == b.report_window_title && a.report_media == b.report_media
        && a.report_play_source == b.report_play_source && a.report_stopped_media
        == b.report_stopped_media && a.discord_report_mode == b.discord_report_mode
        && a.discord_activity_type == b.discord_activity_type && str_eq(
        a.discord_application_id.as_str(),
        b.discord_application_id.as_str(),
    ) && str_eq(
        a.discord_artwork_worker_upload_url.as_str(),
        b.discord_artwork_worker_upload_url.as_str(),
    ) && str_eq(
        a.discord_artwork_worker_token.as_str(),
        b.discord_artwork_worker_token.as_str(),
    ) && a.discord_use_app_artwork == b.discord_use_app_artwork && a.discord_use_music_artwork
        == b.discord_use_music_artwork && a.legacy_discord_use_media_artwork
        == b.legacy_discord_use_media_artwork && a.discord_smart_show_app_name
        == b.discord_smart_show_app_name && a.discord_smart_status_display
        == b.discord_smart_status_display && a.discord_app_status_display
        == b.discord_app_status_display && a.discord_custom_mode_status_display
        == b.discord_custom_mode_status_display && a.discord_music_status_display
        == b.discord_music_status_display && a.discord_smart_app_name_mode
        == b.discord_smart_app_name_mode && a.discord_app_app_name_mode
        == b.discord_app_app_name_mode && a.discord_custom_mode_app_name_mode
        == b.discord_custom_mode_app_name_mode && a.discord_music_app_name_mode
        == b.discord_music_app_name_mode && str_eq(
        a.discord_smart_custom_app_name.as_str(),
        b.discord_smart_custom_app_name.as_str(),
    ) && str_eq(a.discord_app_custom_app_name.as_str(), b.discord_app_custom_app_name.as_str())
        && str_eq(
        a.discord_custom_mode_custom_app_name.as_str(),
        b.discord_custom_mode_custom_app_name.as_str(),
    ) && str_eq(
        a.discord_music_custom_app_name.as_str(),
        b.discord_music_custom_app_name.as_str(),
    ) && a.legacy_discord_status_display == b.legacy_discord_status_display
        && a.legacy_discord_app_name_mode == b.legacy_discord_app_name_mode && opt_text_eq(
        &a.legacy_discord_custom_app_name,
        &b.legacy_discord_custom_app_name,
    ) && str_eq(a.discord_details_format.as_str(), b.discord_details_format.as_str()) && str_eq(
        a.discord_state_format.as_str(),
        b.discord_state_format.as_str(),
    ) && a.discord_custom_artwork_source == b.discord_custom_artwork_source && str_eq(
        a.discord_custom_artwork_text.as_str(),
        b.discord_custom_artwork_text.as_str(),
    ) && str_eq(
        a.discord_custom_artwork_asset_id.as_str(),
        b.discord_custom_artwork_asset_id.as_str(),
    ) && a.discord_custom_app_icon_source == b.discord_custom_app_icon_source && str_eq(
        a.discord_custom_app_icon_text.as_str(),
        b.discord_custom_app_icon_text.as_str(),
    ) && str_eq(
        a.discord_custom_app_icon_asset_id.as_str(),
        b.discord_custom_app_icon_asset_id.as_str(),
    ) && assets_eq(&a.discord_custom_assets, &b.discord_custom_assets) && buttons_eq(
        &a.discord_custom_buttons,
        &b.discord_custom_buttons,
    ) && str_eq(a.discord_custom_party_id.as_str(), b.discord_custom_party_id.as_str())
        && opt_u32_eq(a.discord_custom_party_size_current, b.discord_custom_party_size_current)
        && opt_u32_eq(a.discord_custom_party_size_max, b.discord_custom_party_size_max) && str_eq(
        a.discord_custom_join_secret.as_str(),
        b.discord_custom_join_secret.as_str(),
    ) && str_eq(
        a.discord_custom_spectate_secret.as_str(),
        b.discord_custom_spectate_secret.as_str(),
    ) && str_eq(a.discord_custom_match_secret.as_str(), b.discord_custom_match_secret.as_str())
        && presets_eq(&a.discord_custom_presets, &b.discord_custom_presets) && a.app_filter_mode
        == b.app_filter_mode && texts_eq(&a.app_blacklist, &b.app_blacklist) && texts_eq(
        &a.app_whitelist,
        &b.app_whitelist,
    ) && texts_eq(&a.app_name_only_list, &b.app_name_only_list) && texts_eq(
        &a.media_play_source_blocklist,
        &b.media_play_source_blocklist,
    ) && rule_groups_eq(&a.app_message_rules, &b.app_message_rules)
        && a.app_message_rules_show_process_name == b.app_message_rules_show_process_name
}

} // verus!
