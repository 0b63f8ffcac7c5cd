use moustache_control_center::settings::{
    settings_or_default, DEFAULT_OPACITY_BITS, DEFAULT_SCALE_BITS, MAX_HOTKEY_CHARS,
};
use moustache_control_center::{
    content, normalize, visual, AppSettings, ContentFlags, PanelId, PositionPreset, ThemePreset,
};

fn flag(flags: &ContentFlags, key: &str) -> Option<bool> {
    flags.get(&key.to_string())
}

#[test]
fn default_settings_match_the_shipped_defaults() {
    let s = AppSettings::default();
    assert_eq!(s.version, 2);
    assert!(!s.launch_at_startup);
    assert_eq!(s.sample_interval_ms, 750);
    let p = &s.panels.performance;
    assert!(p.enabled && p.show_on_launch && !p.click_through);
    assert_eq!(p.hotkey, "Alt+1");
    assert_eq!(p.visual.accent, "#8b5cf6");
    assert!(matches!(p.position.preset, PositionPreset::TopRight));
    assert_eq!((p.position.width, p.position.height), (430, 520));
    assert_eq!(p.content.entries().len(), 6);
    assert_eq!(flag(&p.content, "processes"), Some(true));
    let m = &s.panels.mixer;
    assert!(m.enabled && !m.show_on_launch);
    assert_eq!(m.hotkey, "Alt+2");
    assert!(matches!(m.position.preset, PositionPreset::BottomRight));
    assert_eq!((m.position.width, m.position.height), (480, 520));
    assert_eq!(m.content.entries().len(), 3);
    let n = &s.panels.notifications;
    assert_eq!(n.hotkey, "Alt+3");
    assert_eq!(n.visual.accent, "#38bdf8");
    assert_eq!((n.position.width, n.position.height), (410, 540));
    assert_eq!(flag(&n.content, "icon"), Some(true));
    assert_eq!(flag(&n.content, "cpu"), None);
}

#[test]
fn default_visual_carries_exact_float_bits() {
    let v = visual("#22c55e");
    assert!(matches!(v.theme, ThemePreset::Obsidian));
    assert_eq!(f64::from_bits(v.opacity_bits), 0.86);
    assert_eq!(f64::from_bits(v.scale_bits), 1.0);
    assert_eq!(v.opacity_bits, DEFAULT_OPACITY_BITS);
    assert_eq!(v.scale_bits, DEFAULT_SCALE_BITS);
    assert_eq!((v.blur, v.radius, v.compact), (26, 24, false));
}

#[test]
fn content_later_entry_wins() {
    let flags = content(&[("cpu", true), ("gpu", false), ("cpu", false)]);
    assert_eq!(flags.entries().len(), 2);
    assert_eq!(flag(&flags, "cpu"), Some(false));
    assert_eq!(flag(&flags, "gpu"), Some(false));
    assert_eq!(flag(&flags, "ram"), None);
}

#[test]
fn content_flags_read_after_write() {
    let mut flags = ContentFlags::new();
    flags.insert("a".to_string(), true);
    flags.insert("b".to_string(), false);
    flags.insert("a".to_string(), false);
    assert_eq!(flag(&flags, "a"), Some(false));
    assert_eq!(flag(&flags, "b"), Some(false));
    assert_eq!(flags.entries().len(), 2);
}

#[test]
fn normalize_keeps_defaults() {
    let s = normalize(AppSettings::default());
    let d = AppSettings::default();
    assert_eq!(s.version, d.version);
    assert_eq!(s.sample_interval_ms, d.sample_interval_ms);
    for id in [PanelId::Performance, PanelId::Mixer, PanelId::Notifications] {
        let a = s.panels.get(id);
        let b = d.panels.get(id);
        assert_eq!(a.hotkey, b.hotkey);
        assert_eq!(a.position, b.position);
        assert_eq!(a.visual.blur, b.visual.blur);
        assert_eq!(a.visual.radius, b.visual.radius);
    }
}

#[test]
fn normalize_clamps_out_of_range_values() {
    let mut s = AppSettings::default();
    s.version = 1;
    s.sample_interval_ms = 10;
    s.panels.performance.visual.blur = 200;
    s.panels.performance.visual.radius = 41;
    s.panels.performance.position.width = 5;
    s.panels.performance.position.height = 5000;
    s.panels.mixer.position.width = 9999;
    s.panels.mixer.position.height = 0;
    s.panels.notifications.visual.opacity_bits = 7;
    let n = normalize(s);
    assert_eq!(n.version, 2);
    assert_eq!(n.sample_interval_ms, 350);
    assert_eq!(n.panels.performance.visual.blur, 60);
    assert_eq!(n.panels.performance.visual.radius, 40);
    assert_eq!(n.panels.performance.position.width, 260);
    assert_eq!(n.panels.performance.position.height, 1200);
    assert_eq!(n.panels.mixer.position.width, 1200);
    assert_eq!(n.panels.mixer.position.height, 180);
    assert_eq!(n.panels.notifications.visual.opacity_bits, 7);

    let mut s = AppSettings::default();
    s.sample_interval_ms = 100_000;
    assert_eq!(normalize(s).sample_interval_ms, 2500);
}

#[test]
fn normalize_trims_and_cuts_hotkeys() {
    let mut s = AppSettings::default();
    s.panels.performance.hotkey = "  Ctrl+Shift+P \t\n".to_string();
    s.panels.mixer.hotkey = "\u{3000}\u{a0}Alt+M\u{2003}".to_string();
    s.panels.notifications.hotkey = "x".repeat(100);
    let n = normalize(s);
    assert_eq!(n.panels.performance.hotkey, "Ctrl+Shift+P");
    assert_eq!(n.panels.mixer.hotkey, "Alt+M");
    assert_eq!(n.panels.notifications.hotkey.chars().count(), MAX_HOTKEY_CHARS);

    let mut s = AppSettings::default();
    s.panels.performance.hotkey = " \t ".to_string();
    s.panels.mixer.hotkey = "ąę".repeat(40);
    let n = normalize(s);
    assert_eq!(n.panels.performance.hotkey, "");
    assert_eq!(n.panels.mixer.hotkey, "ąę".repeat(32));
}

#[test]
fn normalize_twice_can_differ_when_cut_at_space() {
    let hotkey = format!("a{} c", "b".repeat(62));
    let mut s = AppSettings::default();
    s.panels.performance.hotkey = hotkey;
    let once = normalize(s);
    assert_eq!(once.panels.performance.hotkey, format!("a{} ", "b".repeat(62)));
    let twice = normalize(once);
    assert_eq!(twice.panels.performance.hotkey, format!("a{}", "b".repeat(62)));
}

#[test]
fn pin_panel_sets_custom_position_only_there() {
    let mut s = AppSettings::default();
    s.pin_panel(PanelId::Mixer, -40, 77);
    let m = &s.panels.mixer.position;
    assert!(matches!(m.preset, PositionPreset::Custom));
    assert_eq!((m.x, m.y, m.width, m.height), (-40, 77, 480, 520));
    assert!(matches!(s.panels.performance.position.preset, PositionPreset::TopRight));
    assert!(matches!(s.panels.notifications.position.preset, PositionPreset::TopRight));
}

#[test]
fn get_mut_writes_through() {
    let mut s = AppSettings::default();
    s.panels.get_mut(PanelId::Notifications).hotkey = "F9".to_string();
    assert_eq!(s.panels.get(PanelId::Notifications).hotkey, "F9");
    assert_eq!(s.panels.get(PanelId::Performance).hotkey, "Alt+1");
}

#[test]
fn unparsable_settings_fall_back_to_defaults() {
    let d = settings_or_default(None);
    assert_eq!(d.version, 2);
    assert_eq!(d.sample_interval_ms, 750);
    assert_eq!(d.panels.performance.hotkey, "Alt+1");
    let mut s = AppSettings::default();
    s.version = 1;
    s.sample_interval_ms = 9_000;
    s.panels.mixer.hotkey = "  Alt+9 ".to_string();
    let n = settings_or_default(Some(s));
    assert_eq!(n.version, 2);
    assert_eq!(n.sample_interval_ms, 2500);
    assert_eq!(n.panels.mixer.hotkey, "Alt+9");
}
