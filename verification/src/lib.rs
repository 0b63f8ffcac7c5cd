//! Core logic of the Moustache Control Center overlay: the settings model and
//! its normalisation, panel placement, the notification feed, the runtime
//! capability report and the pure parts of metric collection.
//!
//! Each module states its behaviour in Verus contracts; the specification
//! functions and lemmas live beside the code they describe.

pub mod capabilities;
pub mod clock;
pub mod content;
pub mod ids;
pub mod layout;
pub mod metrics;
pub mod models;
pub mod native_abi;
pub mod notifications;
pub mod panels;
pub mod ranking;
pub mod settings;
pub mod text;

pub use capabilities::get_runtime_capabilities;
pub use clock::now_millis;
pub use content::ContentFlags;
pub use layout::{panel_placement, panel_size, MonitorArea};
pub use metrics::{storage_totals, traffic_totals, DiskSpace, InterfaceTraffic};
pub use models::{
    AppSettings, NetworkMetric, NotificationItem, PanelId, PanelPosition, PanelSettings,
    PanelVisual, PanelsSettings, PositionPreset, RuntimeCapabilities, SnapshotSource, ThemePreset,
};
pub use native_abi::{check_session_id, mute_argument, mute_outcome, volume_outcome};
pub use notifications::{
    clear_notifications, dismiss_notification, initial_notifications, push_demo_notification,
};
pub use panels::{panels_to_show, toggle_action, WindowAction};
pub use ranking::{top_processes, ProcessKey};
pub use settings::{content, normalize, visual};
