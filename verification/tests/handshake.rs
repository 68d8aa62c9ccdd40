use coretoolbox::error::ToolboxError;
use coretoolbox::handshake::{decode, statefile_name, HandshakeState};

fn state(username: &str, uid: u32, ostree_based_host: bool) -> HandshakeState {
    HandshakeState { username: username.to_string(), uid, ostree_based_host }
}

#[test]
fn text_form_of_a_record() {
    assert_eq!(
        state("alice", 1000, false).encode(),
        "{\"username\":\"alice\",\"uid\":1000,\"ostree_based_host\":false}"
    );
    assert_eq!(
        state("", 0, true).encode(),
        "{\"username\":\"\",\"uid\":0,\"ostree_based_host\":true}"
    );
}

#[test]
fn escapes_in_the_user_name() {
    assert_eq!(
        state("a\"b\\c\n\r\t\u{8}\u{c}\u{1}\u{1f}\u{7f}\u{e9}", 1, false).encode(),
        "{\"username\":\"a\\\"b\\\\c\\n\\r\\t\\b\\f\\u0001\\u001f\u{7f}\u{e9}\",\"uid\":1,\"ostree_based_host\":false}"
    );
}

#[test]
fn round_trip() {
    let names = [
        "alice",
        "",
        "bob smith",
        "\u{e9}milie",
        "\u{65e5}\u{672c}\u{8a9e}",
        "\u{1f600}",
        "quote\"inside",
        "back\\slash",
        "\\u0041",
        "\u{0}\u{1}\u{7}\u{8}\u{9}\u{a}\u{b}\u{c}\u{d}\u{e}\u{1f}",
        "\",\"uid\":5,\"ostree_based_host\":true}",
        "trailing\\",
        "/",
    ];
    for name in names {
        for uid in [0u32, 1, 9, 10, 1000, 65535, 65536, 4294967295] {
            for flag in [false, true] {
                let s = state(name, uid, flag);
                let text = s.encode();
                assert_eq!(decode(&text), Ok(s), "text {:?}", text);
            }
        }
    }
}

#[test]
fn round_trip_of_every_low_character() {
    for code in 0u32..0x300 {
        let c = char::from_u32(code).unwrap();
        let s = state(&format!("x{}y", c), 7, true);
        assert_eq!(decode(&s.encode()), Ok(s));
    }
}

#[test]
fn the_text_form_is_json() {
    let names = ["alice", "a\"b\\c\n\r\t\u{8}\u{c}\u{1}\u{1f}\u{7f}", "\u{e9}\u{1f600}", ""];
    for name in names {
        for (uid, flag) in [(1000u32, false), (4294967295, true), (0, true)] {
            let text = state(name, uid, flag).encode();
            let value: serde_json::Value = serde_json::from_str(&text).unwrap();
            let object = value.as_object().unwrap();
            assert_eq!(object.len(), 3);
            assert_eq!(object.get("username").unwrap().as_str(), Some(name));
            assert_eq!(object.get("uid").unwrap().as_u64(), Some(uid as u64));
            assert_eq!(object.get("ostree_based_host").unwrap().as_bool(), Some(flag));
        }
    }
}

#[test]
fn names_are_escaped_as_json_strings() {
    for code in 0u32..0x500 {
        let c = char::from_u32(code).unwrap();
        let name = format!("<{}>", c);
        let expected = format!(
            "{{\"username\":{},\"uid\":12,\"ostree_based_host\":false}}",
            serde_json::to_string(&name).unwrap()
        );
        assert_eq!(state(&name, 12, false).encode(), expected);
        assert_eq!(decode(&expected), Ok(state(&name, 12, false)));
    }
}

#[test]
fn other_texts_are_refused() {
    let refused = [
        "",
        "{}",
        "{",
        "alice",
        "{\"username\":\"alice\",\"uid\":1000,\"ostree_based_host\":false",
        "{\"username\":\"alice\",\"uid\":1000,\"ostree_based_host\":false} ",
        " {\"username\":\"alice\",\"uid\":1000,\"ostree_based_host\":false}",
        "{\"username\":\"alice\",\"uid\":1000,\"ostree_based_host\":false}\n",
        "{\"username\": \"alice\",\"uid\":1000,\"ostree_based_host\":false}",
        "{\"username\":\"alice\",\"uid\":01000,\"ostree_based_host\":false}",
        "{\"username\":\"alice\",\"uid\":,\"ostree_based_host\":false}",
        "{\"username\":\"alice\",\"uid\":-1,\"ostree_based_host\":false}",
        "{\"username\":\"alice\",\"uid\":4294967296,\"ostree_based_host\":false}",
        "{\"username\":\"alice\",\"uid\":99999999999999999999,\"ostree_based_host\":false}",
        "{\"username\":\"alice\",\"uid\":1000,\"ostree_based_host\":maybe}",
        "{\"username\":\"alice\",\"uid\":1000,\"ostree_based_host\":True}",
        "{\"username\":\"alice\",\"uid\":1000}",
        "{\"uid\":1000,\"username\":\"alice\",\"ostree_based_host\":false}",
        "{\"username\":\"ali\"ce\",\"uid\":1000,\"ostree_based_host\":false}",
        "{\"username\":\"alice,\"uid\":1000,\"ostree_based_host\":false}",
        "{\"username\":\"al\\ice\",\"uid\":1000,\"ostree_based_host\":false}",
        "{\"username\":\"al\\u0041ice\",\"uid\":1000,\"ostree_based_host\":false}",
        "{\"username\":\"al\\u000Aice\",\"uid\":1000,\"ostree_based_host\":false}",
        "{\"username\":\"al\\u000aice\",\"uid\":1000,\"ostree_based_host\":false}",
        "{\"username\":\"al\\u00\",\"uid\":1000,\"ostree_based_host\":false}",
        "{\"username\":\"al\nice\",\"uid\":1000,\"ostree_based_host\":false}",
        "{\"username\":\"al\\/ice\",\"uid\":1000,\"ostree_based_host\":false}",
        "{\"username\":\"alice\\",
        "{\"username\":\"",
    ];
    for text in refused {
        assert_eq!(decode(text), Err(ToolboxError::HandshakeParseError), "text {:?}", text);
    }
}

#[test]
fn largest_uid_is_read_back() {
    assert_eq!(
        decode("{\"username\":\"root\",\"uid\":4294967295,\"ostree_based_host\":true}"),
        Ok(state("root", 4294967295, true))
    );
    assert_eq!(
        decode("{\"username\":\"tab\\there\",\"uid\":0,\"ostree_based_host\":false}"),
        Ok(state("tab\there", 0, false))
    );
}

#[test]
fn names_of_the_handshake_file() {
    assert_eq!(statefile_name(123, 0xabc), "toolbox-data-123-abc");
    assert_eq!(statefile_name(1, 0), "toolbox-data-1-0");
    assert_eq!(statefile_name(4194304, u32::MAX), "toolbox-data-4194304-ffffffff");
    for (pid, r) in [(17i32, 255u32), (32768, 0x10), (-5, 9)] {
        assert_eq!(statefile_name(pid, r), format!("toolbox-data-{}-{:x}", pid, r));
    }
}
