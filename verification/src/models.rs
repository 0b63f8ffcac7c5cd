use vstd::prelude::*;

use crate::content::ContentFlags;

verus! {

/// The three overlay panels; each one is a window whose label is `label()`.
#[derive(Debug, Clone, Copy, PartialEq, Eq, Hash, Structural)]
pub enum PanelId {
    Performance,
    Mixer,
    Notifications,
}

/// The window label of each panel.
pub open spec fn panel_label(id: PanelId) -> Seq<char> {
    match id {
        PanelId::Performance => "performance"@,
        PanelId::Mixer => "mixer"@,
        PanelId::Notifications => "notifications"@,
    }
}

/// Each panel has a window label of its own.
pub proof fn lemma_labels_distinct(a: PanelId, b: PanelId)
    requires
        a != b,
    ensures
        panel_label(a) != panel_label(b),
{
    reveal_strlit("performance");
    reveal_strlit("mixer");
    reveal_strlit("notifications");
    if panel_label(a).len() == panel_label(b).len() {
        assert(panel_label(a)[0] != panel_label(b)[0]);
    }
}

impl PanelId {
    /// The label of the window that shows this panel.
    pub fn label(self) -> (label: &'static str)
        ensures
            label@ == panel_label(self),
    {
        match self {
            PanelId::Performance => "performance",
            PanelId::Mixer => "mixer",
            PanelId::Notifications => "notifications",
        }
    }
}


/// The look of a panel.
#[derive(Debug, Clone, Copy, PartialEq, Eq, Structural)]
pub enum ThemePreset {
    Obsidian,
    Frost,
    Neon,
    Minimal,
}

/// Where a panel is anchored on its monitor; `Custom` uses the stored x and y.
#[derive(Debug, Clone, Copy, PartialEq, Eq, Structural)]
pub enum PositionPreset {
    TopLeft,
    TopCenter,
    TopRight,
    Center,
    BottomLeft,
    BottomRight,
    Custom,
}

/// Placement and logical size of a panel window.
#[derive(Debug, Clone, Copy, PartialEq, Eq, Structural)]
pub struct PanelPosition {
    pub preset: PositionPreset,
    pub x: i32,
    pub y: i32,
    pub width: u32,
    pub height: u32,
}

/// Visual settings of a panel. The opacity and the scale are IEEE-754 double
/// values; the library carries them as their bit patterns and never reads them.
pub struct PanelVisual {
    pub theme: ThemePreset,
    pub accent: String,
    pub opacity_bits: u64,
    pub blur: u32,
    pub radius: u32,
    pub scale_bits: u64,
    pub compact: bool,
}

/// The mathematical value of a `PanelVisual`.
pub struct PanelVisualView {
    pub theme: ThemePreset,
    pub accent: Seq<char>,
    pub opacity_bits: u64,
    pub blur: u32,
    pub radius: u32,
    pub scale_bits: u64,
    pub compact: bool,
}

impl View for PanelVisual {
    type V = PanelVisualView;

    open spec fn view(&self) -> PanelVisualView {
        PanelVisualView {
            theme: self.theme,
            accent: self.accent@,
            opacity_bits: self.opacity_bits,
            blur: self.blur,
            radius: self.radius,
            scale_bits: self.scale_bits,
            compact: self.compact,
        }
    }
}

/// Settings of one overlay panel.
pub struct PanelSettings {
    pub enabled: bool,
    pub show_on_launch: bool,
    pub hotkey: String,
    pub click_through: bool,
    pub visual: PanelVisual,
    pub position: PanelPosition,
    pub content: ContentFlags,
}

/// The mathematical value of a `PanelSettings`.
pub struct PanelSettingsView {
    pub enabled: bool,
    pub show_on_launch: bool,
    pub hotkey: Seq<char>,
    pub click_through: bool,
    pub visual: PanelVisualView,
    pub position: PanelPosition,
    pub content: Map<Seq<char>, bool>,
}

impl View for PanelSettings {
    type V = PanelSettingsView;

    open spec fn view(&self) -> PanelSettingsView {
        PanelSettingsView {
            enabled: self.enabled,
            show_on_launch: self.show_on_launch,
            hotkey: self.hotkey@,
            click_through: self.click_through,
            visual: self.visual@,
            position: self.position,
            content: self.content@,
        }
    }
}

/// The settings of the three panels.
pub struct PanelsSettings {
    pub performance: PanelSettings,
    pub mixer: PanelSettings,
    pub notifications: PanelSettings,
}

/// The mathematical value of a `PanelsSettings`.
pub struct PanelsSettingsView {
    pub performance: PanelSettingsView,
    pub mixer: PanelSettingsView,
    pub notifications: PanelSettingsView,
}

impl View for PanelsSettings {
    type V = PanelsSettingsView;

    open spec fn view(&self) -> PanelsSettingsView {
        PanelsSettingsView {
            performance: self.performance@,
            mixer: self.mixer@,
            notifications: self.notifications@,
        }
    }
}

impl PanelsSettingsView {
    /// The settings of panel `id`.
    pub open spec fn panel(self, id: PanelId) -> PanelSettingsView {
        match id {
            PanelId::Performance => self.performance,
            PanelId::Mixer => self.mixer,
            PanelId::Notifications => self.notifications,
        }
    }

    /// These settings with those of panel `id` replaced by `panel`.
    pub open spec fn with_panel(self, id: PanelId, panel: PanelSettingsView) -> PanelsSettingsView {
        match id {
            PanelId::Performance => PanelsSettingsView { performance: panel, ..self },
            PanelId::Mixer => PanelsSettingsView { mixer: panel, ..self },
            PanelId::Notifications => PanelsSettingsView { notifications: panel, ..self },
        }
    }
}

impl PanelsSettings {
    /// The settings of panel `id`.
    pub fn get(&self, id: PanelId) -> (panel: &PanelSettings)
        ensures
            panel@ == self@.panel(id),
            *panel == match id {
                PanelId::Performance => self.performance,
                PanelId::Mixer => self.mixer,
                PanelId::Notifications => self.notifications,
            },
    {
        match id {
            PanelId::Performance => &self.performance,
            PanelId::Mixer => &self.mixer,
            PanelId::Notifications => &self.notifications,
        }
    }

    /// Mutable access to the settings of panel `id`; whatever is written
    /// through it becomes the settings of that panel, the others stay.
    pub fn get_mut(&mut self, id: PanelId) -> (panel: &mut PanelSettings)
        ensures
            *panel == match id {
                PanelId::Performance => old(self).performance,
                PanelId::Mixer => old(self).mixer,
                PanelId::Notifications => old(self).notifications,
            },
            *final(self) == match id {
                PanelId::Performance => PanelsSettings {
                    performance: *final(panel),
                    mixer: old(self).mixer,
                    notifications: old(self).notifications,
                },
                PanelId::Mixer => PanelsSettings {
                    performance: old(self).performance,
                    mixer: *final(panel),
                    notifications: old(self).notifications,
                },
                PanelId::Notifications => PanelsSettings {
                    performance: old(self).performance,
                    mixer: old(self).mixer,
                    notifications: *final(panel),
                },
            },
    {
        match id {
            PanelId::Performance => &mut self.performance,
            PanelId::Mixer => &mut self.mixer,
            PanelId::Notifications => &mut self.notifications,
        }
    }
}

/// All persisted settings of the application.
pub struct AppSettings {
    pub version: u32,
    pub launch_at_startup: bool,
    pub sample_interval_ms: u64,
    pub panels: PanelsSettings,
}

/// The mathematical value of an `AppSettings`.
pub struct AppSettingsView {
    pub version: u32,
    pub launch_at_startup: bool,
    pub sample_interval_ms: u64,
    pub panels: PanelsSettingsView,
}

impl View for AppSettings {
    type V = AppSettingsView;

    open spec fn view(&self) -> AppSettingsView {
        AppSettingsView {
            version: self.version,
            launch_at_startup: self.launch_at_startup,
            sample_interval_ms: self.sample_interval_ms,
            panels: self.panels@,
        }
    }
}

/// Which collector produced a system snapshot.
#[derive(Debug, Clone, Copy, PartialEq, Eq, Structural)]
pub enum SnapshotSource {
    Native,
    RustFallback,
}

/// Network throughput in bytes per second.
#[derive(Debug, Clone, Copy, PartialEq, Eq, Structural)]
pub struct NetworkMetric {
    pub rx_bytes_per_sec: u64,
    pub tx_bytes_per_sec: u64,
}

/// One entry of the notification feed.
pub struct NotificationItem {
    pub id: String,
    pub app: String,
    pub title: String,
    pub body: String,
    pub timestamp: u64,
    pub accent: Option<String>,
    pub icon_text: Option<String>,
    pub read: bool,
}

/// What the running instance can do.
pub struct RuntimeCapabilities {
    pub native_engine_loaded: bool,
    pub audio_mixer_available: bool,
    pub system_notification_listener_available: bool,
    pub system_notification_listener_reason: String,
    pub packaged: bool,
}

} // verus!
