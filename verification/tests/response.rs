use arp_foo_bar::codec::{same_bytes, same_text};
use arp_foo_bar::status::status_reply;
use arp_foo_bar::{about, free, routes, test_get, OwnedResponse};

#[test]
fn response_carries_the_bytes_of_the_text() {
    let response = OwnedResponse::from_text("gr\u{fc}n").unwrap();
    assert_eq!(response.as_bytes(), &[b'g', b'r', 0xc3, 0xbc, b'n']);
    assert_eq!(response.into_bytes(), vec![b'g', b'r', 0xc3, 0xbc, b'n']);
}

#[test]
fn response_of_the_empty_text_is_empty() {
    assert_eq!(OwnedResponse::from_text("").unwrap().as_bytes(), b"");
}

#[test]
fn response_never_holds_a_zero_byte() {
    assert!(OwnedResponse::from_text("\0").is_none());
    assert!(OwnedResponse::from_text("a\0").is_none());
    assert!(OwnedResponse::from_text("a\0b").is_none());
    assert!(OwnedResponse::from_text("\0b").is_none());
    for reply in [routes(), about(None, None)] {
        assert!(!reply.as_bytes().contains(&0));
    }
}

#[test]
fn free_accepts_the_null_handle() {
    free(None);
}

#[test]
fn free_takes_a_response_back() {
    free(OwnedResponse::from_text("text"));
    free(Some(routes()));
    free(Some(about(None, None)));
    let headers = hyper::HeaderMap::new();
    free(test_get(Some(&headers), Some(b"")));
    free(test_get(None, None));
}

#[test]
fn status_reply_has_message_and_status() {
    assert_eq!(status_reply("Success", false), "{\"message\": \"Success\", \"status\": 0}");
    assert_eq!(status_reply("No", true), "{\"message\": \"No\", \"status\": 1}");
    assert_eq!(status_reply("", true), "{\"message\": \"\", \"status\": 1}");
    let parsed: serde_json::Value = serde_json::from_str(&status_reply("Done", false)).unwrap();
    assert_eq!(parsed["message"].as_str(), Some("Done"));
    assert_eq!(parsed["status"].as_u64(), Some(0));
}

#[test]
fn same_bytes_compares_length_and_content() {
    assert!(same_bytes(b"", b""));
    assert!(same_bytes(b"abc", b"abc"));
    assert!(!same_bytes(b"abc", b"abd"));
    assert!(!same_bytes(b"abc", b"ab"));
    assert!(!same_bytes(b"", b"a"));
    assert!(!same_bytes(b"xbc", b"abc"));
}

#[test]
fn same_text_compares_texts() {
    assert!(same_text("fruits", "fruits"));
    assert!(!same_text("fruits", "fruit"));
    assert!(!same_text("fruits", "Fruits"));
    assert!(same_text("", ""));
    assert!(same_text("\u{e9}", "\u{e9}"));
    assert!(!same_text("\u{e9}", "e"));
}
