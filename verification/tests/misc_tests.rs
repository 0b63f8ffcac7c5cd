use moustache_control_center::clock::epoch_millis_or_zero;
use moustache_control_center::ranking::MAX_LISTED_PROCESSES;
use moustache_control_center::{
    check_session_id, get_runtime_capabilities, mute_argument, mute_outcome, now_millis,
    panels_to_show, storage_totals, toggle_action, top_processes, traffic_totals, volume_outcome,
    AppSettings, DiskSpace, InterfaceTraffic, PanelId, ProcessKey, WindowAction,
};

#[test]
fn labels_are_window_names() {
    assert_eq!(PanelId::Performance.label(), "performance");
    assert_eq!(PanelId::Mixer.label(), "mixer");
    assert_eq!(PanelId::Notifications.label(), "notifications");
}

#[test]
fn capabilities_follow_engine_and_packaging() {
    let c = get_runtime_capabilities(true, false);
    assert!(c.native_engine_loaded && c.audio_mixer_available && !c.packaged);
    assert!(!c.system_notification_listener_available);
    assert_eq!(
        c.system_notification_listener_reason,
        "Listener powiadomień innych aplikacji wymaga adaptera MSIX oraz jawnej zgody użytkownika."
    );
    let c = get_runtime_capabilities(false, true);
    assert!(!c.native_engine_loaded && !c.audio_mixer_available && c.packaged);
    assert!(c.system_notification_listener_reason.starts_with("Pakiet ma tożsamość MSIX"));
}

#[test]
fn session_ids_without_nul_pass() {
    assert!(check_session_id("{0.0.1.00000000}|#%b1234").is_ok());
    assert_eq!(
        check_session_id("ab\0cd"),
        Err("Niepoprawny identyfikator sesji".to_string())
    );
}

#[test]
fn native_status_codes() {
    assert_eq!(mute_argument(true), 1);
    assert_eq!(mute_argument(false), 0);
    assert!(volume_outcome(1).is_ok());
    assert!(volume_outcome(-3).is_ok());
    assert_eq!(volume_outcome(0), Err("Nie udało się zmienić głośności sesji".to_string()));
    assert_eq!(mute_outcome(0), Err("Nie udało się zmienić wyciszenia sesji".to_string()));
    assert!(mute_outcome(7).is_ok());
}

#[test]
fn toggle_hides_visible_and_shows_hidden() {
    assert_eq!(toggle_action(true), WindowAction::Hide);
    assert_eq!(toggle_action(false), WindowAction::ShowAndFocus);
}

#[test]
fn launch_shows_enabled_panels_that_ask() {
    let mut s = AppSettings::default();
    assert_eq!(panels_to_show(&s.panels), vec![PanelId::Performance]);
    s.panels.notifications.show_on_launch = true;
    s.panels.mixer.show_on_launch = true;
    s.panels.mixer.enabled = false;
    assert_eq!(panels_to_show(&s.panels), vec![PanelId::Performance, PanelId::Notifications]);
}

#[test]
fn storage_totals_saturate() {
    let disks = vec![
        DiskSpace { total_bytes: 1000, available_bytes: 400 },
        DiskSpace { total_bytes: 500, available_bytes: 100 },
    ];
    assert_eq!(storage_totals(&disks), (1500, 1000));
    let huge = vec![
        DiskSpace { total_bytes: u64::MAX - 1, available_bytes: 10 },
        DiskSpace { total_bytes: 50, available_bytes: 5 },
    ];
    assert_eq!(storage_totals(&huge), (u64::MAX, u64::MAX - 15));
    let odd = vec![DiskSpace { total_bytes: 10, available_bytes: 20 }];
    assert_eq!(storage_totals(&odd), (10, 0));
    assert_eq!(storage_totals(&Vec::new()), (0, 0));
}

#[test]
fn traffic_totals_saturate() {
    let t = vec![
        InterfaceTraffic { received_bytes: 3, transmitted_bytes: u64::MAX },
        InterfaceTraffic { received_bytes: 4, transmitted_bytes: 9 },
    ];
    assert_eq!(traffic_totals(&t), (7, u64::MAX));
}

#[test]
fn top_processes_ranks_by_cpu_then_memory_then_index() {
    let keys = vec![
        ProcessKey { cpu_order: 5, memory_bytes: 10 },
        ProcessKey { cpu_order: 9, memory_bytes: 1 },
        ProcessKey { cpu_order: 5, memory_bytes: 30 },
        ProcessKey { cpu_order: 5, memory_bytes: 10 },
        ProcessKey { cpu_order: -2, memory_bytes: 99 },
    ];
    assert_eq!(top_processes(&keys), vec![1, 2, 0, 3, 4]);
}

#[test]
fn top_processes_keeps_eight_best() {
    let keys: Vec<ProcessKey> = (0..20)
        .map(|i| ProcessKey { cpu_order: (i * 7) % 11, memory_bytes: i as u64 })
        .collect();
    let top = top_processes(&keys);
    assert_eq!(top.len(), MAX_LISTED_PROCESSES);
    let mut expected: Vec<usize> = (0..20).collect();
    expected.sort_by(|&a, &b| {
        keys[b]
            .cpu_order
            .cmp(&keys[a].cpu_order)
            .then_with(|| keys[b].memory_bytes.cmp(&keys[a].memory_bytes))
    });
    expected.truncate(8);
    assert_eq!(top, expected);
    assert_eq!(top_processes(&Vec::new()), Vec::<usize>::new());
}

#[test]
fn clock_reads_after_2020() {
    assert!(now_millis() > 1_577_836_800_000);
    assert_eq!(epoch_millis_or_zero(None), 0);
    assert_eq!(epoch_millis_or_zero(Some(42)), 42);
    assert_eq!(epoch_millis_or_zero(Some((1u128 << 64) + 5)), 5);
}
