use minions::clipboard::{history_item, ClipboardHistoryAction, CLIPBOARD_GLYPH};
use minions::error::ErrorKind;
use minions::item::{Icon, ItemData};

fn titles(h: &ClipboardHistoryAction) -> Vec<String> {
    h.run().unwrap().into_iter().map(|i| i.title).collect()
}

#[test]
fn capacity_three_dedups_then_evicts() {
    let mut h = ClipboardHistoryAction::new(3);
    for (k, t) in ["a", "a", "b", "c", "d"].iter().enumerate() {
        h.push_text(t.to_string(), k as i64);
    }
    assert_eq!(h.len(), 3);
    assert_eq!(titles(&h), vec!["d", "c", "b"]);
}

#[test]
fn same_text_twice_does_not_grow() {
    let mut h = ClipboardHistoryAction::new(5);
    h.push_text("x".to_string(), 1);
    h.push_text("x".to_string(), 2);
    assert_eq!(h.len(), 1);
}

#[test]
fn older_duplicates_are_kept() {
    let mut h = ClipboardHistoryAction::new(5);
    h.push_text("x".to_string(), 1);
    h.push_text("y".to_string(), 2);
    h.push_text("x".to_string(), 3);
    assert_eq!(titles(&h), vec!["x", "y", "x"]);
}

#[test]
fn distinct_text_grows_until_capacity() {
    let mut h = ClipboardHistoryAction::new(2);
    h.push_text("p".to_string(), 1);
    assert_eq!(h.len(), 1);
    h.push_text("q".to_string(), 2);
    assert_eq!(h.len(), 2);
    h.push_text("r".to_string(), 3);
    assert_eq!(h.len(), 2);
    assert_eq!(titles(&h), vec!["r", "q"]);
}

#[test]
fn zero_capacity_keeps_nothing() {
    let mut h = ClipboardHistoryAction::new(0);
    h.push_text("p".to_string(), 1);
    assert_eq!(h.len(), 0);
}

#[test]
fn empty_history_has_no_data() {
    let h = ClipboardHistoryAction::new(4);
    let e = h.run().unwrap_err();
    assert_eq!(e.kind, ErrorKind::NoData);
    assert_eq!(e.description(), "No clipboard history available");
}

#[test]
fn run_items_carry_text_and_byte_length() {
    let mut h = ClipboardHistoryAction::new(4);
    h.push_text("h\u{e9}llo".to_string(), 1_500_000_000);
    let items = h.run().unwrap();
    assert_eq!(items.len(), 1);
    let it = &items[0];
    assert_eq!(it.title, "h\u{e9}llo");
    assert!(matches!(&it.data, Some(ItemData::Text(t)) if t == "h\u{e9}llo"));
    let sub = it.subtitle.clone().unwrap();
    assert!(sub.ends_with(", 6 bytes"));
    assert!(sub.len() > ", 6 bytes".len());
    assert!(matches!(&it.icon, Some(Icon::Character { ch, font }) if *ch == CLIPBOARD_GLYPH && font == "FontAwesome"));
}

#[test]
fn history_item_subtitle() {
    let it = history_item("abc", "10:00:00 Jan  1");
    assert_eq!(it.subtitle.as_deref(), Some("10:00:00 Jan  1, 3 bytes"));
    assert_eq!(it.title, "abc");
}

#[test]
fn provider_item() {
    let h = ClipboardHistoryAction::new(120);
    let it = h.get_item();
    assert_eq!(it.title, "Clipboard History");
    assert_eq!(it.subtitle.as_deref(), Some("View clipboard history up to 120 entries"));
    assert!(h.accept_nothing());
}
