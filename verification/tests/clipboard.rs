use stark_link_core::clipboard::{ClipboardEntry, ClipboardManager};
use stark_link_core::error::StarkLinkError;
use stark_link_core::protocol::ClipboardContentType;

#[test]
fn history_cap() {
    let mut mgr = ClipboardManager::new(1, 3);
    for i in 0..5 {
        mgr.set_local(ClipboardContentType::Text, format!("item {i}").into_bytes())
            .unwrap();
    }
    let h = mgr.history();
    assert_eq!(h.len(), 3);
    assert_eq!(h[0].as_text().unwrap(), "item 4");
}

#[test]
fn history_newest_first_and_latest() {
    let mut mgr = ClipboardManager::new(5, 2);
    assert!(mgr.latest().is_none());
    let a = mgr.set_local(ClipboardContentType::Url, b"https://a".to_vec()).unwrap();
    assert_eq!(a.source_device, 5);
    let remote = ClipboardEntry::new(ClipboardContentType::Image, vec![1, 2, 3], 9);
    mgr.set_remote(remote.clone()).unwrap();
    let h = mgr.history();
    assert_eq!(h[0].id, remote.id);
    assert_eq!(h[1].id, a.id);
    assert_eq!(mgr.latest().unwrap().id, remote.id);
    assert!(h[0].as_text().is_none());
    assert_eq!(h[1].as_text(), Some("https://a"));
    mgr.clear_history();
    assert!(mgr.history().is_empty());
}

#[test]
fn zero_capacity_keeps_nothing() {
    let mut mgr = ClipboardManager::new(1, 0);
    mgr.set_local(ClipboardContentType::Text, b"x".to_vec()).unwrap();
    assert!(mgr.history().is_empty());
}

#[test]
fn invalid_utf8_is_not_text() {
    let e = ClipboardEntry::new(ClipboardContentType::Text, vec![0xff, 0xfe], 1);
    assert!(e.as_text().is_none());
}

#[test]
fn system_clipboard_not_available() {
    let mgr = ClipboardManager::new(1, 3);
    let msg = "system clipboard access not implemented for this platform".to_string();
    assert_eq!(mgr.get_system_clipboard_text(), Err(StarkLinkError::Clipboard(msg.clone())));
    assert_eq!(mgr.set_system_clipboard_text("x"), Err(StarkLinkError::Clipboard(msg.clone())));
    assert_eq!(
        StarkLinkError::Clipboard(msg).message(),
        "clipboard error: system clipboard access not implemented for this platform"
    );
}
