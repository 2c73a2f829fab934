use signaling::signal::{
    framed, IceCandidate, IceCandidateInit, IceCandidateType, IceProtocol, SdpType,
    SessionDescription, Signal,
};
use webrtc::ice_transport::ice_candidate::RTCIceCandidateInit;
use webrtc::peer_connection::sdp::sdp_type::RTCSdpType;
use webrtc::peer_connection::sdp::session_description::RTCSessionDescription;

fn host() -> IceCandidate {
    IceCandidate {
        foundation: "4207374051".to_string(),
        component: 1,
        protocol: IceProtocol::Udp,
        priority: 2130706431,
        address: "192.168.1.2".to_string(),
        port: 54321,
        typ: IceCandidateType::Host,
        related_address: String::new(),
        related_port: 0,
    }
}

fn init(candidate: &str) -> IceCandidateInit {
    IceCandidateInit {
        candidate: candidate.to_string(),
        sdp_mid: Some(String::new()),
        sdp_mline_index: Some(0),
        username_fragment: None,
    }
}

#[test]
fn host_candidate() {
    let i = host().to_json().unwrap();
    assert_eq!(
        i.candidate,
        "candidate:4207374051 1 udp 2130706431 192.168.1.2 54321 typ host"
    );
    assert_eq!(i.sdp_mid, Some(String::new()));
    assert_eq!(i.sdp_mline_index, Some(0));
    assert_eq!(i.username_fragment, None);
}

#[test]
fn relayed_candidate() {
    let mut c = host();
    c.typ = IceCandidateType::Relay;
    c.related_address = "10.0.0.1".to_string();
    c.related_port = 9;
    assert_eq!(
        c.to_json().unwrap().candidate,
        "candidate:4207374051 1 udp 2130706431 192.168.1.2 54321 typ relay raddr 10.0.0.1 rport 9"
    );
}

#[test]
fn reflexive_candidates() {
    for (typ, word) in [(IceCandidateType::Srflx, "srflx"), (IceCandidateType::Prflx, "prflx")] {
        let mut c = host();
        c.typ = typ;
        c.related_address = "0.0.0.0".to_string();
        c.related_port = 50000;
        assert_eq!(
            c.to_json().unwrap().candidate,
            format!(
                "candidate:4207374051 1 udp 2130706431 192.168.1.2 54321 typ {} raddr 0.0.0.0 rport 50000",
                word
            )
        );
    }
}

#[test]
fn tcp_candidate() {
    let mut c = host();
    c.protocol = IceProtocol::Tcp;
    assert_eq!(
        c.to_json().unwrap().candidate,
        "candidate:4207374051 1 tcp 2130706431 192.168.1.2 54321 typ host"
    );
}

#[test]
fn candidates_without_a_form() {
    let mut c = host();
    c.typ = IceCandidateType::Unspecified;
    assert!(c.to_json().is_none());
    let mut c = host();
    c.address = "nowhere".to_string();
    assert!(c.to_json().is_none());
    let mut c = host();
    c.protocol = IceProtocol::Unspecified;
    assert!(c.to_json().is_none());
}

#[test]
fn derived_priority() {
    let mut c = host();
    c.priority = 0;
    c.component = 256;
    let text = c.to_json().unwrap().candidate;
    assert!(text.starts_with("candidate:4207374051 256 udp "), "{}", text);
}

#[test]
fn candidate_text() {
    assert_eq!(
        Signal::Ice(init("candidate:1")).encode(),
        "{\"ice\":{\"candidate\":\"candidate:1\",\"sdpMid\":\"\",\"sdpMLineIndex\":0,\"usernameFragment\":null}}"
    );
    let c = IceCandidateInit {
        candidate: "a\"b\\c\n\u{1}".to_string(),
        sdp_mid: None,
        sdp_mline_index: None,
        username_fragment: Some("u".to_string()),
    };
    assert_eq!(
        Signal::Ice(c).encode(),
        "{\"ice\":{\"candidate\":\"a\\\"b\\\\c\\n\\u0001\",\"sdpMid\":null,\"sdpMLineIndex\":null,\"usernameFragment\":\"u\"}}"
    );
    let mut c = init("x");
    c.sdp_mline_index = Some(65535);
    assert!(Signal::Ice(c).encode().contains("\"sdpMLineIndex\":65535,"));
}

#[test]
fn description_texts() {
    let d = |sdp_type| SessionDescription { sdp_type, sdp: "v=0\r\n".to_string() };
    assert_eq!(
        Signal::Answer(d(SdpType::Answer)).encode(),
        "{\"answer\":{\"type\":\"answer\",\"sdp\":\"v=0\\r\\n\"}}"
    );
    assert_eq!(
        Signal::Offer(d(SdpType::Offer)).encode(),
        "{\"offer\":{\"type\":\"offer\",\"sdp\":\"v=0\\r\\n\"}}"
    );
    assert_eq!(
        Signal::Offer(d(SdpType::Pranswer)).encode(),
        "{\"offer\":{\"type\":\"pranswer\",\"sdp\":\"v=0\\r\\n\"}}"
    );
    assert_eq!(
        Signal::Offer(d(SdpType::Rollback)).encode(),
        "{\"offer\":{\"type\":\"rollback\",\"sdp\":\"v=0\\r\\n\"}}"
    );
    assert_eq!(
        Signal::Offer(d(SdpType::Unspecified)).encode(),
        "{\"offer\":{\"type\":\"Unspecified\",\"sdp\":\"v=0\\r\\n\"}}"
    );
}

#[test]
fn candidate_text_is_read_back() {
    let mut c = init("candidate:7 \"quoted\" \u{1f600}\t");
    c.username_fragment = Some("frag".to_string());
    let text = Signal::Ice(c.clone()).encode();
    let value: serde_json::Value = serde_json::from_str(&text).unwrap();
    assert_eq!(value.as_object().unwrap().len(), 1);
    let read: RTCIceCandidateInit = serde_json::from_value(value["ice"].clone()).unwrap();
    assert_eq!(read.candidate, c.candidate);
    assert_eq!(read.sdp_mid, c.sdp_mid);
    assert_eq!(read.sdp_mline_index, c.sdp_mline_index);
    assert_eq!(read.username_fragment, c.username_fragment);
}

#[test]
fn description_text_is_read_back() {
    let d = SessionDescription {
        sdp_type: SdpType::Answer,
        sdp: "v=0\r\no=- 1 2 IN IP4 0.0.0.0\r\n".to_string(),
    };
    let text = Signal::Answer(d.clone()).encode();
    let value: serde_json::Value = serde_json::from_str(&text).unwrap();
    assert_eq!(value.as_object().unwrap().len(), 1);
    let read: RTCSessionDescription = serde_json::from_value(value["answer"].clone()).unwrap();
    assert_eq!(read.sdp, d.sdp);
    assert_eq!(read.sdp_type, RTCSdpType::Answer);
}

#[test]
fn kinds_differ() {
    let d = SessionDescription { sdp_type: SdpType::Offer, sdp: "s".to_string() };
    let a = Signal::Answer(d.clone()).encode();
    let o = Signal::Offer(d).encode();
    let i = Signal::Ice(init("s")).encode();
    assert_ne!(a, o);
    assert_ne!(a, i);
    assert_ne!(o, i);
}

#[test]
fn framed_values() {
    assert_eq!(framed("ice", "{}"), "{\"ice\":{}}");
    assert_eq!(framed("", ""), "{\"\":}");
}

#[test]
fn escapes() {
    let offer = |sdp: String| {
        Signal::Offer(SessionDescription { sdp_type: SdpType::Offer, sdp }).encode()
    };
    let framed_offer = |inner: &str| format!("{{\"offer\":{{\"type\":\"offer\",\"sdp\":{}}}}}", inner);
    assert_eq!(
        offer("\u{8}\t\n\u{c}\r\"\\/".to_string()),
        framed_offer("\"\\b\\t\\n\\f\\r\\\"\\\\/\"")
    );
    assert_eq!(
        offer("\u{0}\u{b}\u{1f} \u{7f}\u{e9}\u{2028}\u{1f600}".to_string()),
        framed_offer("\"\\u0000\\u000b\\u001f \u{7f}\u{e9}\u{2028}\u{1f600}\"")
    );
    for code in 0u32..0x20 {
        let c = char::from_u32(code).unwrap();
        let expected = match c {
            '\u{8}' => "\\b".to_string(),
            '\t' => "\\t".to_string(),
            '\n' => "\\n".to_string(),
            '\u{c}' => "\\f".to_string(),
            '\r' => "\\r".to_string(),
            _ => format!("\\u00{:02x}", code),
        };
        assert_eq!(offer(c.to_string()), framed_offer(&format!("\"{}\"", expected)));
    }
}

#[test]
fn different_signals_have_different_texts() {
    let mut signals = Vec::new();
    for sdp in ["", "\\", "\\\\", "n", "\n", "\\n", "\"", "\",\"sdp\":\"", "a", "aa"] {
        for sdp_type in [SdpType::Offer, SdpType::Answer, SdpType::Pranswer] {
            let d = SessionDescription { sdp_type, sdp: sdp.to_string() };
            signals.push(Signal::Offer(d.clone()));
            signals.push(Signal::Answer(d));
        }
        for sdp_mid in [None, Some("".to_string()), Some("null".to_string())] {
            for sdp_mline_index in [None, Some(1), Some(10)] {
                let mut c = init(sdp);
                c.sdp_mid = sdp_mid.clone();
                c.sdp_mline_index = sdp_mline_index;
                signals.push(Signal::Ice(c));
            }
        }
    }
    let texts: Vec<String> = signals.iter().map(|s| s.encode()).collect();
    for i in 0..texts.len() {
        for j in 0..i {
            assert_ne!(texts[i], texts[j]);
        }
    }
}
