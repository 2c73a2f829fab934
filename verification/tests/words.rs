use signaling::command::{parse_command, Command};
use signaling::config::{
    parse_options, rtc_config, ArgumentError, Credentials, Options, TransportPolicy,
};
use signaling::text::{decode_text, has_prefix, is_white_space, same_text, trim};
use signaling::timestamp_now;
use signaling::clock::{timestamp_of, whole_millis};

fn args(words: &[&str]) -> Vec<String> {
    words.iter().map(|w| w.to_string()).collect()
}

fn sends(line: &str) -> Option<String> {
    match parse_command(line) {
        Command::Send(data) => Some(data),
        _ => None,
    }
}

#[test]
fn white_space_is_that_of_unicode() {
    for c in '\u{0}'..=char::MAX {
        assert_eq!(is_white_space(c), c.is_whitespace(), "{:?}", c);
    }
}

#[test]
fn trim_agrees_with_std() {
    let lines = [
        "",
        " ",
        "\t \r\n",
        "a",
        " a",
        "a\n",
        "\u{a0}a b\u{3000}",
        "h\u{e9}llo ",
        " \u{200b} ",
        "\u{2003}\u{1f600} x \u{1f600}\u{2028}",
    ];
    for line in lines {
        assert_eq!(trim(line), line.trim());
        assert_eq!(trim(trim(line)), trim(line));
    }
}

#[test]
fn prefixes() {
    assert!(has_prefix("offer", "offer"));
    assert!(has_prefix("offering", "offer"));
    assert!(has_prefix("x", ""));
    assert!(!has_prefix("offe", "offer"));
    assert!(!has_prefix("Offer", "offer"));
    assert!(has_prefix("\u{e9}t\u{e9}", "\u{e9}t"));
    assert!(same_text("relay", "relay"));
    assert!(!same_text("relay", "relays"));
    assert!(!same_text("relays", "relay"));
    assert!(!same_text("relax", "relay"));
}

#[test]
fn bytes_become_text() {
    assert_eq!(decode_text(b"hello".to_vec()), Some("hello".to_string()));
    assert_eq!(decode_text("h\u{e9}\u{1f600}".as_bytes().to_vec()), Some("h\u{e9}\u{1f600}".to_string()));
    assert_eq!(decode_text(Vec::new()), Some(String::new()));
    assert_eq!(decode_text(vec![0xff]), None);
    assert_eq!(decode_text(vec![b'a', 0xc3]), None);
    assert_eq!(decode_text(vec![0xed, 0xa0, 0x80]), None);
    assert_eq!(decode_text(vec![0xc0, 0x80]), None);
}

#[test]
fn send_takes_the_rest_of_the_line() {
    assert_eq!(sends("send hello world\n"), Some("hello world".to_string()));
    assert_eq!(sends("  send  two spaces \r\n"), Some(" two spaces".to_string()));
    assert_eq!(sends("send \u{e9}\u{1f600}\n"), Some("\u{e9}\u{1f600}".to_string()));
    assert_eq!(sends("send exit"), Some("exit".to_string()));
}

#[test]
fn send_needs_a_text() {
    assert!(matches!(parse_command("send\n"), Command::Nothing));
    assert!(matches!(parse_command("send \n"), Command::Nothing));
    assert!(matches!(parse_command("sender x\n"), Command::Nothing));
    assert!(matches!(parse_command("send\tx\n"), Command::Nothing));
}

#[test]
fn offer_and_exit_are_prefixes() {
    assert!(matches!(parse_command("offer\n"), Command::Offer));
    assert!(matches!(parse_command("offer now\n"), Command::Offer));
    assert!(matches!(parse_command("offering\n"), Command::Offer));
    assert!(matches!(parse_command("exit\n"), Command::Exit));
    assert!(matches!(parse_command(" exits"), Command::Exit));
}

#[test]
fn other_lines_are_skipped() {
    for line in ["", "\n", "quit\n", "Offer\n", "SEND x\n", "ex"] {
        assert!(matches!(parse_command(line), Command::Nothing), "{:?}", line);
    }
}

#[test]
fn arguments_that_are_missing() {
    assert!(matches!(parse_options(&args(&[])), Err(ArgumentError::UsernameNotFound)));
    assert!(matches!(parse_options(&args(&["p"])), Err(ArgumentError::UsernameNotFound)));
    assert!(matches!(parse_options(&args(&["p", "u"])), Err(ArgumentError::PasswordNotFound)));
    assert_eq!(ArgumentError::UsernameNotFound.message(), "username not found");
    assert_eq!(ArgumentError::PasswordNotFound.message(), "password not found");
}

#[test]
fn relay_is_asked_for_by_one_word() {
    let relay = |words: &[&str]| parse_options(&args(words)).unwrap().relay;
    assert!(!relay(&["p", "u", "s"]));
    assert!(relay(&["p", "u", "s", "relay"]));
    assert!(relay(&["p", "u", "s", "relay", "no-relay"]));
    assert!(!relay(&["p", "u", "s", "no-relay"]));
    assert!(!relay(&["p", "u", "s", "Relay"]));
    assert!(!relay(&["p", "u", "s", "relay "]));
    assert!(!relay(&["p", "u", "s", "x", "relay"]));
    let o = parse_options(&args(&["p", "ann", "secret"])).unwrap();
    assert_eq!(o.username, "ann");
    assert_eq!(o.password, "secret");
}

#[test]
fn configuration_without_the_relay() {
    let c = rtc_config(&Options {
        username: "ann".to_string(),
        password: "secret".to_string(),
        relay: false,
    });
    assert_eq!(c.policy, TransportPolicy::Unrestricted);
    assert_eq!(c.ice_servers.len(), 1);
    assert_eq!(c.ice_servers[0].url, "stun:stun.l.google.com:19302");
    assert!(matches!(c.ice_servers[0].credentials, Credentials::Anonymous));
}

#[test]
fn configuration_with_the_relay() {
    let c = rtc_config(&Options {
        username: "ann".to_string(),
        password: "secret".to_string(),
        relay: true,
    });
    assert_eq!(c.policy, TransportPolicy::RelayOnly);
    assert_eq!(c.ice_servers.len(), 2);
    assert_eq!(c.ice_servers[0].url, "stun:stun.l.google.com:19302");
    assert!(matches!(c.ice_servers[0].credentials, Credentials::Anonymous));
    assert_eq!(c.ice_servers[1].url, "turn:35.200.208.109:8080");
    match &c.ice_servers[1].credentials {
        Credentials::Password { username, password } => {
            assert_eq!(username, "ann");
            assert_eq!(password, "secret");
        }
        Credentials::Anonymous => panic!("the relay asks for a password"),
    }
}

#[test]
fn milliseconds() {
    assert_eq!(whole_millis(0, 0), 0);
    assert_eq!(whole_millis(0, 999_999), 0);
    assert_eq!(whole_millis(1, 1_000_000), 1_001);
    assert_eq!(whole_millis(1_700_000_000, 123_456_789), 1_700_000_000_123);
    assert_eq!(whole_millis(u64::MAX, 999_999_999), u64::MAX as u128 * 1000 + 999);
    let d = std::time::Duration::new(12_345, 678_901_234);
    assert_eq!(whole_millis(d.as_secs(), d.subsec_nanos()), d.as_millis());
}

#[test]
fn readings_of_the_clock() {
    assert_eq!(timestamp_of(None), None);
    assert_eq!(timestamp_of(Some((0, 0))), Some(0));
    assert_eq!(timestamp_of(Some((1_700_000_000, 123_456_789))), Some(1_700_000_000_123));
    assert_eq!(timestamp_of(Some((u64::MAX, 999_999_999))), Some(u64::MAX as u128 * 1000 + 999));
}

#[test]
fn the_clock_runs() {
    let before = std::time::SystemTime::now()
        .duration_since(std::time::UNIX_EPOCH)
        .unwrap()
        .as_millis();
    let now = timestamp_now().unwrap();
    let after = std::time::SystemTime::now()
        .duration_since(std::time::UNIX_EPOCH)
        .unwrap()
        .as_millis();
    assert!(before <= now && now <= after);
}
