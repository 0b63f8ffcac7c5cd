use moustache_control_center::notifications::{
    demo_notification, push_demo_sample, push_notification, welcome_notification,
    MAX_NOTIFICATIONS,
};
use moustache_control_center::{
    clear_notifications, dismiss_notification, initial_notifications, push_demo_notification,
    NotificationItem,
};

fn item(id: &str) -> NotificationItem {
    welcome_notification(id.to_string(), 1)
}

#[test]
fn demo_samples_rotate_with_feed_length() {
    let mut feed = Vec::new();
    push_demo_sample(&mut feed, "a".to_string(), 10);
    assert_eq!(feed[0].app, "Discord");
    assert_eq!(feed[0].title, "3godziny");
    assert_eq!(feed[0].accent.as_deref(), Some("#5865f2"));
    assert_eq!(feed[0].icon_text.as_deref(), Some("D"));
    push_demo_sample(&mut feed, "b".to_string(), 20);
    assert_eq!(feed[0].app, "Moustache");
    assert_eq!(feed[0].title, "Panel wydajności");
    push_demo_sample(&mut feed, "c".to_string(), 30);
    assert_eq!(feed[0].app, "System");
    assert_eq!(feed[0].body, "Ten feed można w pełni dostosować kolorystycznie.");
    push_demo_sample(&mut feed, "d".to_string(), 40);
    assert_eq!(feed[0].app, "Discord");
    let ids: Vec<&str> = feed.iter().map(|n| n.id.as_str()).collect();
    assert_eq!(ids, vec!["d", "c", "b", "a"]);
    assert_eq!(feed[0].timestamp, 40);
    assert!(!feed[0].read);
}

#[test]
fn demo_notification_picks_slot_by_remainder() {
    assert_eq!(demo_notification(5, "x".to_string(), 0).app, "System");
    assert_eq!(demo_notification(7, "x".to_string(), 0).app, "Moustache");
}

#[test]
fn feed_is_cut_to_twenty_four() {
    let mut feed = Vec::new();
    for i in 0..30 {
        push_notification(&mut feed, item(&i.to_string()));
        assert!(feed.len() <= MAX_NOTIFICATIONS);
    }
    assert_eq!(feed.len(), 24);
    assert_eq!(feed[0].id, "29");
    assert_eq!(feed[23].id, "6");
}

#[test]
fn push_demo_notification_uses_fresh_ids() {
    let mut feed = Vec::new();
    assert!(push_demo_notification(&mut feed));
    assert!(push_demo_notification(&mut feed));
    assert_eq!(feed.len(), 2);
    assert_eq!(feed[0].id.len(), 36);
    assert_eq!(feed[0].id.as_bytes()[14], b'4');
    assert_ne!(feed[0].id, feed[1].id);
    assert_eq!(feed[0].app, "Moustache");
    assert_eq!(feed[1].app, "Discord");
    assert!(feed[0].timestamp > 1_577_836_800_000);
}

#[test]
fn dismiss_removes_every_match_and_keeps_order() {
    let mut feed = vec![item("a"), item("b"), item("a"), item("c"), item("a")];
    dismiss_notification(&mut feed, &"a".to_string());
    let ids: Vec<&str> = feed.iter().map(|n| n.id.as_str()).collect();
    assert_eq!(ids, vec!["b", "c"]);
    dismiss_notification(&mut feed, &"zzz".to_string());
    assert_eq!(feed.len(), 2);
}

#[test]
fn clear_empties_feed() {
    let mut feed = vec![item("a"), item("b")];
    clear_notifications(&mut feed);
    assert!(feed.is_empty());
}

#[test]
fn initial_feed_holds_welcome() {
    let feed = initial_notifications().expect("random bytes");
    assert_eq!(feed.len(), 1);
    assert_eq!(feed[0].app, "Moustache");
    assert_eq!(feed[0].title, "Centrum sterowania jest gotowe");
    assert_eq!(
        feed[0].body,
        "Alt+1 otwiera wydajność, Alt+2 mikser, a Alt+3 powiadomienia."
    );
    assert_eq!(feed[0].id.len(), 36);
    assert_eq!(feed[0].id.matches('-').count(), 4);
    assert!(!feed[0].read);
}

#[test]
fn random_uuid_has_v4_shape() {
    for _ in 0..20 {
        let id = moustache_control_center::ids::random_uuid().expect("random bytes");
        let chars: Vec<char> = id.chars().collect();
        assert_eq!(chars.len(), 36);
        for (i, c) in chars.iter().enumerate() {
            if [8, 13, 18, 23].contains(&i) {
                assert_eq!(*c, '-');
            } else {
                assert!(c.is_ascii_hexdigit() && !c.is_ascii_uppercase());
            }
        }
        assert_eq!(chars[14], '4');
        assert!(['8', '9', 'a', 'b'].contains(&chars[19]));
    }
}
