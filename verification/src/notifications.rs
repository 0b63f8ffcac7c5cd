use vstd::prelude::*;

use crate::clock::now_millis;
use crate::ids::{is_uuid_v4_text, random_uuid};
use crate::models::NotificationItem;

verus! {

/// The feed keeps at most this many notifications, newest first.
pub const MAX_NOTIFICATIONS: usize = 24;

/// The mathematical value of a `NotificationItem`.
pub struct NotificationView {
    pub id: Seq<char>,
    pub app: Seq<char>,
    pub title: Seq<char>,
    pub body: Seq<char>,
    pub timestamp: u64,
    pub accent: Option<Seq<char>>,
    pub icon_text: Option<Seq<char>>,
    pub read: bool,
}

/// The characters of an optional string.
pub open spec fn optional_text(s: Option<String>) -> Option<Seq<char>> {
    match s {
        Some(t) => Some(t@),
        None => None,
    }
}

impl View for NotificationItem {
    type V = NotificationView;

    open spec fn view(&self) -> NotificationView {
        NotificationView {
            id: self.id@,
            app: self.app@,
            title: self.title@,
            body: self.body@,
            timestamp: self.timestamp,
            accent: optional_text(self.accent),
            icon_text: optional_text(self.icon_text),
            read: self.read,
        }
    }
}

/// An unread notification with the given texts.
pub open spec fn unread_item(
    id: Seq<char>,
    timestamp: u64,
    app: Seq<char>,
    title: Seq<char>,
    body: Seq<char>,
    accent: Seq<char>,
    icon_text: Seq<char>,
) -> NotificationView {
    NotificationView {
        id,
        app,
        title,
        body,
        timestamp,
        accent: Some(accent),
        icon_text: Some(icon_text),
        read: false,
    }
}

/// The demo notification in rotation slot `slot` (0, 1 or 2).
pub open spec fn demo_item(slot: int, id: Seq<char>, timestamp: u64) -> NotificationView {
    if slot == 0 {
        unread_item(
            id,
            timestamp,
            "Discord"@,
            "3godziny"@,
            "Mikser audio działa natywnie przez WASAPI."@,
            "#5865f2"@,
            "D"@,
        )
    } else if slot == 1 {
        unread_item(
            id,
            timestamp,
            "Moustache"@,
            "Panel wydajności"@,
            "CPU i RAM są aktualizowane bez ciężkiego procesu Electron."@,
            "#8b5cf6"@,
            "M"@,
        )
    } else {
        unread_item(
            id,
            timestamp,
            "System"@,
            "Tryb skupienia"@,
            "Ten feed można w pełni dostosować kolorystycznie."@,
            "#38bdf8"@,
            "S"@,
        )
    }
}

/// The notification the feed starts with.
pub open spec fn welcome_item(id: Seq<char>, timestamp: u64) -> NotificationView {
    unread_item(
        id,
        timestamp,
        "Moustache"@,
        "Centrum sterowania jest gotowe"@,
        "Alt+1 otwiera wydajność, Alt+2 mikser, a Alt+3 powiadomienia."@,
        "#8b5cf6"@,
        "M"@,
    )
}

/// The feed after a new item goes on top: at most 24 items, the oldest
/// dropped first.
pub open spec fn after_push(feed: Seq<NotificationItem>, item: NotificationItem) -> Seq<NotificationItem> {
    let grown = feed.insert(0, item);
    if grown.len() <= MAX_NOTIFICATIONS {
        grown
    } else {
        grown.subrange(0, MAX_NOTIFICATIONS as int)
    }
}

/// An unread notification with the given texts.
fn unread(
    id: String,
    timestamp: u64,
    app: &str,
    title: &str,
    body: &str,
    accent: &str,
    icon_text: &str,
) -> (item: NotificationItem)
    ensures
        item@ == unread_item(id@, timestamp, app@, title@, body@, accent@, icon_text@),
{
    NotificationItem {
        id,
        app: String::from_str(app),
        title: String::from_str(title),
        body: String::from_str(body),
        timestamp,
        accent: Some(String::from_str(accent)),
        icon_text: Some(String::from_str(icon_text)),
        read: false,
    }
}

/// The demo notification of rotation slot `feed_len % 3`.
pub fn demo_notification(feed_len: usize, id: String, timestamp: u64) -> (item: NotificationItem)
    ensures
        item@ == demo_item(feed_len as int % 3, id@, timestamp),
{
    let slot = feed_len % 3;
    if slot == 0 {
        unread(
            id,
            timestamp,
            "Discord",
            "3godziny",
            "Mikser audio działa natywnie przez WASAPI.",
            "#5865f2",
            "D",
        )
    } else if slot == 1 {
        unread(
            id,
            timestamp,
            "Moustache",
            "Panel wydajności",
            "CPU i RAM są aktualizowane bez ciężkiego procesu Electron.",
            "#8b5cf6",
            "M",
        )
    } else {
        unread(
            id,
            timestamp,
            "System",
            "Tryb skupienia",
            "Ten feed można w pełni dostosować kolorystycznie.",
            "#38bdf8",
            "S",
        )
    }
}

/// Puts `item` on top of the feed and drops what goes beyond 24 items.
pub fn push_notification(items: &mut Vec<NotificationItem>, item: NotificationItem)
    ensures
        final(items)@ == after_push(old(items)@, item),
{
    items.insert(0, item);
    items.truncate(MAX_NOTIFICATIONS);
}

/// Puts the next demo notification, with the given identifier and time, on
/// top of the feed; the demo texts rotate with the length of the feed.
pub fn push_demo_sample(items: &mut Vec<NotificationItem>, id: String, timestamp: u64)
    ensures
        final(items)@.len() > 0,
        final(items)@[0]@ == demo_item(old(items)@.len() as int % 3, id@, timestamp),
        final(items)@ == after_push(old(items)@, final(items)@[0]),
{
    let item = demo_notification(items.len(), id, timestamp);
    push_notification(items, item);
}

/// Puts the next demo notification on top of the feed, with a fresh random
/// version 4 UUID as its identifier and the current time. Returns `false`, and
/// leaves the feed as it was, only when the operating system gives no random
/// bytes for the identifier.
pub fn push_demo_notification(items: &mut Vec<NotificationItem>) -> (pushed: bool)
    ensures
        !pushed ==> final(items)@ == old(items)@,
        pushed ==> {
            &&& final(items)@.len() > 0
            &&& is_uuid_v4_text(final(items)@[0]@.id)
            &&& final(items)@[0]@ == demo_item(
                old(items)@.len() as int % 3,
                final(items)@[0]@.id,
                final(items)@[0]@.timestamp,
            )
            &&& final(items)@ == after_push(old(items)@, final(items)@[0])
        },
{
    match random_uuid() {
        Some(id) => {
            let timestamp = now_millis();
            push_demo_sample(items, id, timestamp);
            true
        },
        None => false,
    }
}

/// The notification the feed starts with, with the given identifier and time.
pub fn welcome_notification(id: String, timestamp: u64) -> (item: NotificationItem)
    ensures
        item@ == welcome_item(id@, timestamp),
{
    unread(
        id,
        timestamp,
        "Moustache",
        "Centrum sterowania jest gotowe",
        "Alt+1 otwiera wydajność, Alt+2 mikser, a Alt+3 powiadomienia.",
        "#8b5cf6",
        "M",
    )
}

/// The feed at start-up: the welcome notification alone, with a fresh random
/// version 4 UUID as its identifier and the current time; `None` only when
/// the operating system gives no random bytes for the identifier.
pub fn initial_notifications() -> (feed: Option<Vec<NotificationItem>>)
    ensures
        feed matches Some(items) ==> {
            &&& items@.len() == 1
            &&& is_uuid_v4_text(items@[0]@.id)
            &&& items@[0]@ == welcome_item(items@[0]@.id, items@[0]@.timestamp)
        },
{
    match random_uuid() {
        Some(id) => {
            let timestamp = now_millis();
            let mut feed = Vec::new();
            feed.push(welcome_notification(id, timestamp));
            Some(feed)
        },
        None => None,
    }
}

/// The items of `feed` whose identifier differs from `id`, in their order.
pub open spec fn without_id(feed: Seq<NotificationItem>, id: Seq<char>) -> Seq<NotificationItem> {
    feed.filter(other_id(id))
}

/// The item's identifier is not `id`.
pub open spec fn other_id(id: Seq<char>) -> spec_fn(NotificationItem) -> bool {
    |n: NotificationItem| n.id@ != id
}

/// Removes every notification whose identifier is `id`; the others keep
/// their order.
pub fn dismiss_notification(items: &mut Vec<NotificationItem>, id: &String)
    ensures
        final(items)@ == without_id(old(items)@, id@),
{
    proof {
        reveal(Seq::filter);
    }
    let ghost before = items@;
    let ghost keep = other_id(id@);
    let mut i: usize = 0;
    let ghost mut seen: int = 0;
    while i < items.len()
        invariant
            0 <= i <= items@.len(),
            0 <= seen <= before.len(),
            items@.len() - i == before.len() - seen,
            keep == other_id(id@),
            items@.subrange(0, i as int) == before.subrange(0, seen).filter(keep),
            items@.subrange(i as int, items@.len() as int) == before.subrange(seen, before.len() as int),
        decreases items@.len() - i,
    {
        let ghost current = items@;
        assert(current[i as int] == before[seen]) by {
            assert(current.subrange(i as int, current.len() as int)[0] == current[i as int]);
            assert(before.subrange(seen, before.len() as int)[0] == before[seen]);
        }
        assert(before.subrange(0, seen + 1).drop_last() =~= before.subrange(0, seen));
        if items[i].id == *id {
            items.remove(i);
            proof {
                let rest = items@.subrange(i as int, items@.len() as int);
                let tail = current.subrange(i as int, current.len() as int);
                assert(items@.subrange(0, i as int) =~= current.subrange(0, i as int));
                assert forall|j: int| 0 <= j < rest.len() implies #[trigger] rest[j] == tail[j + 1] by {
                    assert(items@[i + j] == current[i + j + 1]);
                }
                assert(rest =~= before.subrange(seen + 1, before.len() as int));
                reveal(Seq::filter);
                let prefix = before.subrange(0, seen + 1);
                assert(prefix.last() == before[seen]);
                assert(!keep(before[seen]));
                assert(prefix.filter(keep) == before.subrange(0, seen).filter(keep));
                seen = seen + 1;
            }
        } else {
            proof {
                let rest = items@.subrange(i + 1, items@.len() as int);
                let tail = current.subrange(i as int, current.len() as int);
                assert(items@.subrange(0, i + 1) =~= current.subrange(0, i as int).push(
                    current[i as int],
                ));
                assert forall|j: int| 0 <= j < rest.len() implies #[trigger] rest[j] == tail[j + 1] by {
                    assert(tail[j + 1] == current[i + 1 + j]);
                }
                assert(rest =~= before.subrange(seen + 1, before.len() as int));
                reveal(Seq::filter);
                let prefix = before.subrange(0, seen + 1);
                assert(prefix.last() == before[seen]);
                assert(keep(before[seen]));
                assert(prefix.filter(keep) == before.subrange(0, seen).filter(keep).push(before[seen]));
                seen = seen + 1;
            }
            i = i + 1;
        }
    }
    proof {
        assert(items@.subrange(0, i as int) =~= items@);
        assert(before.subrange(seen, before.len() as int).len() == 0);
        assert(before.subrange(0, seen) =~= before);
    }
}

/// Empties the feed.
pub fn clear_notifications(items: &mut Vec<NotificationItem>)
    ensures
        final(items)@.len() == 0,
{
    items.clear();
}

/// A push puts the new item on top, keeps the older items in their order
/// behind it, and never lets the feed exceed 24 items.
pub proof fn lemma_push_keeps_feed_bounded(feed: Seq<NotificationItem>, item: NotificationItem)
    ensures
        after_push(feed, item).len() <= MAX_NOTIFICATIONS,
        after_push(feed, item).len() == (if feed.len() + 1 <= MAX_NOTIFICATIONS {
            feed.len() + 1
        } else {
            MAX_NOTIFICATIONS as nat
        }),
        after_push(feed, item)[0] == item,
        forall|j: int|
            0 < j < after_push(feed, item).len() ==> #[trigger] after_push(feed, item)[j] == feed[j
                - 1],
{
}

/// After a dismissal no item carries the dismissed identifier, every item
/// with another identifier is still there, and dismissing again changes
/// nothing.
pub proof fn lemma_dismiss_exact(feed: Seq<NotificationItem>, id: Seq<char>)
    ensures
        forall|j: int|
            0 <= j < without_id(feed, id).len() ==> (#[trigger] without_id(feed, id)[j]).id@ != id,
        forall|j: int|
            0 <= j < feed.len() && (#[trigger] feed[j]).id@ != id ==> without_id(feed, id).contains(
                feed[j],
            ),
        without_id(without_id(feed, id), id) == without_id(feed, id),
    decreases feed.len(),
{
    reveal(Seq::filter);
    let keep = other_id(id);
    assert forall|j: int| 0 <= j < without_id(feed, id).len() implies (#[trigger] without_id(
        feed,
        id,
    )[j]).id@ != id by {
        feed.lemma_filter_pred(keep, j);
    }
    assert forall|j: int| 0 <= j < feed.len() && (#[trigger] feed[j]).id@ != id implies without_id(
        feed,
        id,
    ).contains(feed[j]) by {
        feed.lemma_filter_contains(keep, j);
    }
    if feed.len() > 0 {
        let rest = feed.drop_last();
        lemma_dismiss_exact(rest, id);
        if keep(feed.last()) {
            assert(without_id(rest, id).push(feed.last()).drop_last() =~= without_id(rest, id));
        }
    }
}

} // verus!
