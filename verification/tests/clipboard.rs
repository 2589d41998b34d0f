use omniclip_core::clipboard::{ClipboardChange, ClipboardManager};
use omniclip_core::protocol::ClipboardContent;

fn text(s: &str) -> ClipboardContent {
    ClipboardContent::Text(s.to_string())
}

#[test]
fn test_change_detection() {
    let mut manager = ClipboardManager::new();

    // First read captures the initial state
    let _ = manager.check_change(Some(text("omniclip test")));

    // Same content should not trigger change
    let second = manager.check_change(Some(text("omniclip test")));
    assert!(second.is_none());
}

#[test]
fn first_content_is_a_change() {
    let mut manager = ClipboardManager::new();
    let first = manager.check_change(Some(text("hello")));
    assert!(matches!(first, Some(ClipboardContent::Text(ref t)) if t == "hello"));
}

#[test]
fn other_content_is_a_change() {
    let mut manager = ClipboardManager::new();
    let _ = manager.check_change(Some(text("hello")));
    let second = manager.check_change(Some(text("world")));
    assert!(matches!(second, Some(ClipboardContent::Text(ref t)) if t == "world"));
}

#[test]
fn empty_clipboard_is_no_change_and_is_forgotten() {
    let mut manager = ClipboardManager::new();
    let _ = manager.check_change(Some(text("hello")));
    assert!(manager.check_change(None).is_none());
    // After the clipboard was empty, the same content counts as new again.
    assert!(manager.check_change(Some(text("hello"))).is_some());
}

#[test]
fn content_written_by_ourselves_is_no_change() {
    let mut manager = ClipboardManager::new();
    manager.update_hash(&text("from a peer"));
    assert!(manager.check_change(Some(text("from a peer"))).is_none());
    assert!(manager.check_change(Some(text("typed here"))).is_some());
}

#[test]
fn rich_text_with_the_same_plain_text_is_a_change() {
    let mut manager = ClipboardManager::new();
    let _ = manager.check_change(Some(text("x")));
    let rich = ClipboardContent::RichText {
        plain: "x".to_string(),
        html: "<b>x</b>".to_string(),
    };
    assert!(manager.check_change(Some(rich)).is_some());
}

#[test]
fn change_carries_content_and_hash() {
    let content = text("hello");
    let change = ClipboardChange {
        hash: content.hash(),
        content,
    };
    assert_eq!(change.hash, text("hello").hash());
}

#[test]
fn default_manager_has_seen_nothing() {
    let mut manager = ClipboardManager::default();
    assert!(manager.check_change(Some(text("hello"))).is_some());
}
