use moustache_control_center::{
    panel_placement, panel_size, AppSettings, MonitorArea, PanelId, PanelPosition, PositionPreset,
};

fn position(preset: PositionPreset) -> PanelPosition {
    PanelPosition { preset, x: 5, y: 6, width: 430, height: 520 }
}

const MONITOR: MonitorArea = MonitorArea { x: 0, y: 0, width: 1920, height: 1080 };

#[test]
fn panel_size_clamps() {
    assert_eq!(panel_size(&PanelPosition { width: 100, height: 5000, ..position(PositionPreset::Center) }), (260, 1200));
    assert_eq!(panel_size(&position(PositionPreset::Center)), (430, 520));
}

#[test]
fn placement_of_each_preset() {
    let place = |preset| panel_placement(&position(preset), MONITOR, 430, 520, 18);
    assert_eq!(place(PositionPreset::TopLeft), (18, 18));
    assert_eq!(place(PositionPreset::TopCenter), (745, 18));
    assert_eq!(place(PositionPreset::TopRight), (1920 - 430 - 18, 18));
    assert_eq!(place(PositionPreset::Center), (745, 280));
    assert_eq!(place(PositionPreset::BottomLeft), (18, 1080 - 520 - 18));
    assert_eq!(place(PositionPreset::BottomRight), (1472, 542));
    assert_eq!(place(PositionPreset::Custom), (5, 6));
}

#[test]
fn placement_on_offset_monitor_with_oversized_panel() {
    let monitor = MonitorArea { x: -1280, y: 100, width: 1280, height: 1024 };
    // The panel is wider than the monitor: the centring offset rounds toward zero.
    assert_eq!(
        panel_placement(&position(PositionPreset::Center), monitor, 1301, 1024, 27),
        (-1280 - 10, 100)
    );
    assert_eq!(
        panel_placement(&position(PositionPreset::TopRight), monitor, 400, 300, 27),
        (-1280 + 1280 - 400 - 27, 127)
    );
}

#[test]
fn pinned_panel_is_placed_at_its_pin() {
    let mut s = AppSettings::default();
    s.pin_panel(PanelId::Performance, 1234, -56);
    let placed = panel_placement(&s.panels.performance.position, MONITOR, 645, 780, 27);
    assert_eq!(placed, (1234, -56));
}
