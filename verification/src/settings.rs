use vstd::prelude::*;

use crate::content::ContentFlags;
use crate::models::{
    AppSettings, AppSettingsView, PanelId, PanelPosition, PanelSettings, PanelSettingsView,
    PanelVisual, PanelVisualView, PanelsSettings, PanelsSettingsView, PositionPreset, ThemePreset,
};
use crate::text::{
    has_no_edge_space, is_white_space, lemma_trim_edges, lemma_trim_fixed, take_chars, trim,
    trim_and_truncate,
};

verus! {

/// The settings format written by this version.
pub const SETTINGS_VERSION: u32 = 2;

/// Bounds of the metric sampling interval, in milliseconds.
pub const MIN_SAMPLE_INTERVAL_MS: u64 = 350;
pub const MAX_SAMPLE_INTERVAL_MS: u64 = 2500;

/// Longest hotkey kept, in characters.
pub const MAX_HOTKEY_CHARS: usize = 64;

/// Upper bounds of the blur and of the corner radius.
pub const MAX_BLUR: u32 = 60;
pub const MAX_RADIUS: u32 = 40;

/// Bounds of a panel's logical size.
pub const MIN_PANEL_WIDTH: u32 = 260;
pub const MIN_PANEL_HEIGHT: u32 = 180;
pub const MAX_PANEL_EXTENT: u32 = 1200;

/// Bit pattern of the default opacity, 0.86.
pub const DEFAULT_OPACITY_BITS: u64 = 0x3FEB_851E_B851_EB85;

/// Bit pattern of the default scale, 1.0.
pub const DEFAULT_SCALE_BITS: u64 = 0x3FF0_0000_0000_0000;

/// `v` brought into `[lo, hi]`, as `Ord::clamp` does.
pub open spec fn clamp(v: int, lo: int, hi: int) -> int {
    if v < lo {
        lo
    } else if v > hi {
        hi
    } else {
        v
    }
}

/// The smaller of `a` and `b`.
pub open spec fn at_most(a: int, b: int) -> int {
    if a < b {
        a
    } else {
        b
    }
}

/// A hotkey as kept: trimmed of white space and cut to its first 64 characters.
pub open spec fn normalized_hotkey(hotkey: Seq<char>) -> Seq<char> {
    take_chars(trim(hotkey), MAX_HOTKEY_CHARS as nat)
}

/// A panel's settings with every value brought into its bounds.
pub open spec fn normalized_panel(p: PanelSettingsView) -> PanelSettingsView {
    PanelSettingsView {
        hotkey: normalized_hotkey(p.hotkey),
        visual: PanelVisualView {
            blur: at_most(p.visual.blur as int, MAX_BLUR as int) as u32,
            radius: at_most(p.visual.radius as int, MAX_RADIUS as int) as u32,
            ..p.visual
        },
        position: PanelPosition {
            width: clamp(p.position.width as int, MIN_PANEL_WIDTH as int, MAX_PANEL_EXTENT as int) as u32,
            height: clamp(p.position.height as int, MIN_PANEL_HEIGHT as int, MAX_PANEL_EXTENT as int) as u32,
            ..p.position
        },
        ..p
    }
}

/// Settings with the current version and every value brought into its bounds.
pub open spec fn normalized_settings(s: AppSettingsView) -> AppSettingsView {
    AppSettingsView {
        version: SETTINGS_VERSION,
        launch_at_startup: s.launch_at_startup,
        sample_interval_ms: clamp(
            s.sample_interval_ms as int,
            MIN_SAMPLE_INTERVAL_MS as int,
            MAX_SAMPLE_INTERVAL_MS as int,
        ) as u64,
        panels: PanelsSettingsView {
            performance: normalized_panel(s.panels.performance),
            mixer: normalized_panel(s.panels.mixer),
            notifications: normalized_panel(s.panels.notifications),
        },
    }
}

/// Every value of a panel lies within its bounds.
pub open spec fn panel_in_bounds(p: PanelSettingsView) -> bool {
    &&& p.hotkey.len() <= MAX_HOTKEY_CHARS
    &&& p.visual.blur <= MAX_BLUR
    &&& p.visual.radius <= MAX_RADIUS
    &&& MIN_PANEL_WIDTH <= p.position.width <= MAX_PANEL_EXTENT
    &&& MIN_PANEL_HEIGHT <= p.position.height <= MAX_PANEL_EXTENT
}

/// Every value of the settings lies within its bounds.
pub open spec fn settings_in_bounds(s: AppSettingsView) -> bool {
    &&& s.version == SETTINGS_VERSION
    &&& MIN_SAMPLE_INTERVAL_MS <= s.sample_interval_ms <= MAX_SAMPLE_INTERVAL_MS
    &&& panel_in_bounds(s.panels.performance)
    &&& panel_in_bounds(s.panels.mixer)
    &&& panel_in_bounds(s.panels.notifications)
}

/// The map that a list of (name, flag) pairs denotes; a later pair for a name
/// replaces an earlier one.
pub open spec fn pairs_map(pairs: Seq<(&str, bool)>) -> Map<Seq<char>, bool>
    decreases pairs.len(),
{
    if pairs.len() == 0 {
        Map::empty()
    } else {
        pairs_map(pairs.drop_last()).insert(pairs.last().0@, pairs.last().1)
    }
}

/// The content switches named by `entries`.
pub fn content(entries: &[(&str, bool)]) -> (flags: ContentFlags)
    ensures
        flags@ == pairs_map(entries@),
{
    let mut flags = ContentFlags::new();
    let mut i: usize = 0;
    while i < entries.len()
        invariant
            0 <= i <= entries@.len(),
            flags@ == pairs_map(entries@.subrange(0, i as int)),
        decreases entries@.len() - i,
    {
        let (name, enabled) = entries[i];
        flags.insert(String::from_str(name), enabled);
        proof {
            assert(entries@.subrange(0, i + 1).drop_last() =~= entries@.subrange(0, i as int));
        }
        i = i + 1;
    }
    proof {
        assert(entries@.subrange(0, entries@.len() as int) =~= entries@);
    }
    flags
}

/// The default look of a panel with the given accent colour.
pub fn visual(accent: &str) -> (v: PanelVisual)
    ensures
        v@ == default_visual(accent@),
{
    PanelVisual {
        theme: ThemePreset::Obsidian,
        accent: String::from_str(accent),
        opacity_bits: DEFAULT_OPACITY_BITS,
        blur: 26,
        radius: 24,
        scale_bits: DEFAULT_SCALE_BITS,
        compact: false,
    }
}

/// The default look of a panel with the given accent colour.
pub open spec fn default_visual(accent: Seq<char>) -> PanelVisualView {
    PanelVisualView {
        theme: ThemePreset::Obsidian,
        accent,
        opacity_bits: DEFAULT_OPACITY_BITS,
        blur: 26,
        radius: 24,
        scale_bits: DEFAULT_SCALE_BITS,
        compact: false,
    }
}

/// The default settings of one panel.
pub open spec fn default_panel(
    show_on_launch: bool,
    hotkey: Seq<char>,
    accent: Seq<char>,
    preset: PositionPreset,
    width: u32,
    height: u32,
    content: Map<Seq<char>, bool>,
) -> PanelSettingsView {
    PanelSettingsView {
        enabled: true,
        show_on_launch,
        hotkey,
        click_through: false,
        visual: default_visual(accent),
        position: PanelPosition { preset, x: 0, y: 0, width, height },
        content,
    }
}

/// The settings a fresh installation starts with.
pub open spec fn default_settings() -> AppSettingsView {
    AppSettingsView {
        version: SETTINGS_VERSION,
        launch_at_startup: false,
        sample_interval_ms: 750,
        panels: PanelsSettingsView {
            performance: default_panel(
                true,
                "Alt+1"@,
                "#8b5cf6"@,
                PositionPreset::TopRight,
                430,
                520,
                map![
                    "cpu"@ => true,
                    "gpu"@ => true,
                    "ram"@ => true,
                    "disk"@ => true,
                    "network"@ => true,
                    "processes"@ => true,
                ],
            ),
            mixer: default_panel(
                false,
                "Alt+2"@,
                "#22c55e"@,
                PositionPreset::BottomRight,
                480,
                520,
                map!["master"@ => true, "sessions"@ => true, "peaks"@ => true],
            ),
            notifications: default_panel(
                false,
                "Alt+3"@,
                "#38bdf8"@,
                PositionPreset::TopRight,
                410,
                540,
                map![
                    "app"@ => true,
                    "timestamp"@ => true,
                    "icon"@ => true,
                    "body"@ => true,
                ],
            ),
        },
    }
}

impl Default for AppSettings {
    /// The settings a fresh installation starts with.
    fn default() -> (settings: Self)
        ensures
            settings@ == default_settings(),
    {
        let performance = PanelSettings {
            enabled: true,
            show_on_launch: true,
            hotkey: String::from_str("Alt+1"),
            click_through: false,
            visual: visual("#8b5cf6"),
            position: PanelPosition {
                preset: PositionPreset::TopRight,
                x: 0,
                y: 0,
                width: 430,
                height: 520,
            },
            content: content(
                &[
                    ("cpu", true),
                    ("gpu", true),
                    ("ram", true),
                    ("disk", true),
                    ("network", true),
                    ("processes", true),
                ],
            ),
        };
        let mixer = PanelSettings {
            enabled: true,
            show_on_launch: false,
            hotkey: String::from_str("Alt+2"),
            click_through: false,
            visual: visual("#22c55e"),
            position: PanelPosition {
                preset: PositionPreset::BottomRight,
                x: 0,
                y: 0,
                width: 480,
                height: 520,
            },
            content: content(&[("master", true), ("sessions", true), ("peaks", true)]),
        };
        let notifications = PanelSettings {
            enabled: true,
            show_on_launch: false,
            hotkey: String::from_str("Alt+3"),
            click_through: false,
            visual: visual("#38bdf8"),
            position: PanelPosition {
                preset: PositionPreset::TopRight,
                x: 0,
                y: 0,
                width: 410,
                height: 540,
            },
            content: content(&[("app", true), ("timestamp", true), ("icon", true), ("body", true)]),
        };
        let settings = AppSettings {
            version: SETTINGS_VERSION,
            launch_at_startup: false,
            sample_interval_ms: 750,
            panels: PanelsSettings { performance, mixer, notifications },
        };
        proof {
            reveal_with_fuel(pairs_map, 7);
            assert(settings@.panels.performance.content =~= default_settings().panels.performance.content);
            assert(settings@.panels.mixer.content =~= default_settings().panels.mixer.content);
            assert(settings@.panels.notifications.content =~= default_settings().panels.notifications.content);
        }
        settings
    }
}

/// Brings a panel's hotkey, blur, radius and size into their bounds.
pub fn normalize_panel(panel: &mut PanelSettings)
    ensures
        final(panel)@ == normalized_panel(old(panel)@),
{
    panel.hotkey = trim_and_truncate(panel.hotkey.as_str(), MAX_HOTKEY_CHARS);
    if panel.visual.blur > MAX_BLUR {
        panel.visual.blur = MAX_BLUR;
    }
    if panel.visual.radius > MAX_RADIUS {
        panel.visual.radius = MAX_RADIUS;
    }
    if panel.position.width < MIN_PANEL_WIDTH {
        panel.position.width = MIN_PANEL_WIDTH;
    } else if panel.position.width > MAX_PANEL_EXTENT {
        panel.position.width = MAX_PANEL_EXTENT;
    }
    if panel.position.height < MIN_PANEL_HEIGHT {
        panel.position.height = MIN_PANEL_HEIGHT;
    } else if panel.position.height > MAX_PANEL_EXTENT {
        panel.position.height = MAX_PANEL_EXTENT;
    }
}

/// Settings with the current version and every integer value and hotkey
/// brought into its bounds; the opacity and scale bit patterns pass through.
pub fn normalize(settings: AppSettings) -> (normalized: AppSettings)
    ensures
        normalized@ == normalized_settings(settings@),
{
    let AppSettings { version: _, launch_at_startup, sample_interval_ms, panels } = settings;
    let PanelsSettings { mut performance, mut mixer, mut notifications } = panels;
    let sample_interval_ms = if sample_interval_ms < MIN_SAMPLE_INTERVAL_MS {
        MIN_SAMPLE_INTERVAL_MS
    } else if sample_interval_ms > MAX_SAMPLE_INTERVAL_MS {
        MAX_SAMPLE_INTERVAL_MS
    } else {
        sample_interval_ms
    };
    normalize_panel(&mut performance);
    normalize_panel(&mut mixer);
    normalize_panel(&mut notifications);
    AppSettings {
        version: SETTINGS_VERSION,
        launch_at_startup,
        sample_interval_ms,
        panels: PanelsSettings { performance, mixer, notifications },
    }
}

/// What loading the settings file gives: the parsed settings normalised, or
/// the defaults when the file could not be parsed.
pub fn settings_or_default(parsed: Option<AppSettings>) -> (settings: AppSettings)
    ensures
        settings@ == match parsed {
            Some(s) => normalized_settings(s@),
            None => default_settings(),
        },
{
    match parsed {
        Some(s) => normalize(s),
        None => {
            proof {
                lemma_default_normalized();
            }
            normalize(AppSettings::default())
        },
    }
}

impl AppSettings {
    /// Pins panel `id` at the physical position (`x`, `y`): its preset becomes
    /// `Custom` and everything else stays.
    pub fn pin_panel(&mut self, id: PanelId, x: i32, y: i32)
        ensures
            final(self)@ == pinned_settings(old(self)@, id, x, y),
    {
        let panel = self.panels.get_mut(id);
        panel.position.preset = PositionPreset::Custom;
        panel.position.x = x;
        panel.position.y = y;
    }
}

/// `s` with panel `id` pinned at (`x`, `y`).
pub open spec fn pinned_settings(s: AppSettingsView, id: PanelId, x: i32, y: i32) -> AppSettingsView {
    let p = s.panels.panel(id);
    AppSettingsView {
        panels: s.panels.with_panel(
            id,
            PanelSettingsView {
                position: PanelPosition { preset: PositionPreset::Custom, x, y, ..p.position },
                ..p
            },
        ),
        ..s
    }
}

/// Normalisation puts every value within its bounds.
pub proof fn lemma_normalized_in_bounds(s: AppSettingsView)
    ensures
        settings_in_bounds(normalized_settings(s)),
{
}

/// A hotkey whose trimmed form is not cut just after white space: on such a
/// hotkey a second normalisation changes nothing.
pub open spec fn hotkey_cut_cleanly(hotkey: Seq<char>) -> bool {
    let t = trim(hotkey);
    t.len() <= MAX_HOTKEY_CHARS || !is_white_space(t[MAX_HOTKEY_CHARS - 1])
}

/// Normalising a hotkey twice gives what normalising it once gives, unless
/// the cut at 64 characters leaves white space at the end.
pub proof fn lemma_normalized_hotkey_stable(hotkey: Seq<char>)
    requires
        hotkey_cut_cleanly(hotkey),
    ensures
        normalized_hotkey(normalized_hotkey(hotkey)) == normalized_hotkey(hotkey),
{
    let t = trim(hotkey);
    lemma_trim_edges(hotkey);
    let once = normalized_hotkey(hotkey);
    assert(has_no_edge_space(once)) by {
        if t.len() > MAX_HOTKEY_CHARS {
            assert(once[0] == t[0]);
            assert(once.last() == t[MAX_HOTKEY_CHARS - 1]);
        }
    }
    lemma_trim_fixed(once);
}

/// Normalisation is idempotent on settings whose hotkeys are cut cleanly.
pub proof fn lemma_normalize_idempotent(s: AppSettingsView)
    requires
        hotkey_cut_cleanly(s.panels.performance.hotkey),
        hotkey_cut_cleanly(s.panels.mixer.hotkey),
        hotkey_cut_cleanly(s.panels.notifications.hotkey),
    ensures
        normalized_settings(normalized_settings(s)) == normalized_settings(s),
{
    lemma_normalized_hotkey_stable(s.panels.performance.hotkey);
    lemma_normalized_hotkey_stable(s.panels.mixer.hotkey);
    lemma_normalized_hotkey_stable(s.panels.notifications.hotkey);
}

/// The defaults are already normalised: loading them back changes nothing.
pub proof fn lemma_default_normalized()
    ensures
        normalized_settings(default_settings()) == default_settings(),
        settings_in_bounds(default_settings()),
{
    reveal_strlit("Alt+1");
    reveal_strlit("Alt+2");
    reveal_strlit("Alt+3");
    let d = default_settings();
    assert(has_no_edge_space(d.panels.performance.hotkey));
    assert(has_no_edge_space(d.panels.mixer.hotkey));
    assert(has_no_edge_space(d.panels.notifications.hotkey));
    lemma_trim_fixed(d.panels.performance.hotkey);
    lemma_trim_fixed(d.panels.mixer.hotkey);
    lemma_trim_fixed(d.panels.notifications.hotkey);
}

/// Normalisation changes only what it bounds in a panel: the hotkey, the
/// blur, the radius and the size. Everything else comes back as it was.
pub open spec fn same_unbounded_panel_fields(before: PanelSettingsView, after: PanelSettingsView) -> bool {
    &&& after.enabled == before.enabled
    &&& after.show_on_launch == before.show_on_launch
    &&& after.click_through == before.click_through
    &&& after.content == before.content
    &&& after.visual.theme == before.visual.theme
    &&& after.visual.accent == before.visual.accent
    &&& after.visual.opacity_bits == before.visual.opacity_bits
    &&& after.visual.scale_bits == before.visual.scale_bits
    &&& after.visual.compact == before.visual.compact
    &&& after.position.preset == before.position.preset
    &&& after.position.x == before.position.x
    &&& after.position.y == before.position.y
}

/// A panel's bounded values that already lie within their bounds come back
/// unchanged.
pub open spec fn in_bound_panel_values_kept(before: PanelSettingsView, after: PanelSettingsView) -> bool {
    &&& before.visual.blur <= MAX_BLUR ==> after.visual.blur == before.visual.blur
    &&& before.visual.radius <= MAX_RADIUS ==> after.visual.radius == before.visual.radius
    &&& MIN_PANEL_WIDTH <= before.position.width <= MAX_PANEL_EXTENT ==> after.position.width
        == before.position.width
    &&& MIN_PANEL_HEIGHT <= before.position.height <= MAX_PANEL_EXTENT ==> after.position.height
        == before.position.height
    &&& has_no_edge_space(before.hotkey) && before.hotkey.len() <= MAX_HOTKEY_CHARS ==> after.hotkey
        == before.hotkey
}

/// Normalisation keeps the autostart choice and every panel field it does not
/// bound, and keeps every bounded value that is already within its bounds.
pub proof fn lemma_normalize_keeps_choices(s: AppSettingsView)
    ensures
        normalized_settings(s).launch_at_startup == s.launch_at_startup,
        MIN_SAMPLE_INTERVAL_MS <= s.sample_interval_ms <= MAX_SAMPLE_INTERVAL_MS
            ==> normalized_settings(s).sample_interval_ms == s.sample_interval_ms,
        same_unbounded_panel_fields(s.panels.performance, normalized_settings(s).panels.performance),
        same_unbounded_panel_fields(s.panels.mixer, normalized_settings(s).panels.mixer),
        same_unbounded_panel_fields(s.panels.notifications, normalized_settings(s).panels.notifications),
        in_bound_panel_values_kept(s.panels.performance, normalized_settings(s).panels.performance),
        in_bound_panel_values_kept(s.panels.mixer, normalized_settings(s).panels.mixer),
        in_bound_panel_values_kept(s.panels.notifications, normalized_settings(s).panels.notifications),
{
    if has_no_edge_space(s.panels.performance.hotkey) {
        lemma_trim_fixed(s.panels.performance.hotkey);
    }
    if has_no_edge_space(s.panels.mixer.hotkey) {
        lemma_trim_fixed(s.panels.mixer.hotkey);
    }
    if has_no_edge_space(s.panels.notifications.hotkey) {
        lemma_trim_fixed(s.panels.notifications.hotkey);
    }
}

/// Every content switch of every panel is on in the defaults, each panel has
/// exactly its items, and each panel starts enabled.
pub proof fn lemma_default_switches_on()
    ensures
        forall|k: Seq<char>| #[trigger]
            default_settings().panels.performance.content.dom().contains(k)
                ==> default_settings().panels.performance.content[k],
        forall|k: Seq<char>| #[trigger]
            default_settings().panels.mixer.content.dom().contains(k)
                ==> default_settings().panels.mixer.content[k],
        forall|k: Seq<char>| #[trigger]
            default_settings().panels.notifications.content.dom().contains(k)
                ==> default_settings().panels.notifications.content[k],
        default_settings().panels.performance.content.dom() == set![
            "cpu"@,
            "gpu"@,
            "ram"@,
            "disk"@,
            "network"@,
            "processes"@,
        ],
        default_settings().panels.mixer.content.dom() == set!["master"@, "sessions"@, "peaks"@],
        default_settings().panels.notifications.content.dom() == set![
            "app"@,
            "timestamp"@,
            "icon"@,
            "body"@,
        ],
        default_settings().panels.performance.enabled,
        default_settings().panels.mixer.enabled,
        default_settings().panels.notifications.enabled,
{
    let d = default_settings();
    assert(d.panels.performance.content.dom() =~= set![
        "cpu"@,
        "gpu"@,
        "ram"@,
        "disk"@,
        "network"@,
        "processes"@,
    ]);
    assert(d.panels.mixer.content.dom() =~= set!["master"@, "sessions"@, "peaks"@]);
    assert(d.panels.notifications.content.dom() =~= set!["app"@, "timestamp"@, "icon"@, "body"@]);
}

} // verus!
