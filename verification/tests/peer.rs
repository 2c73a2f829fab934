use signaling::config::{ArgumentError, TransportPolicy};
use signaling::protocol::{Action, Finish, Reply, Step};
use signaling::receiving::Incoming;
use signaling::signal::{
    IceCandidate, IceCandidateInit, IceCandidateType, IceProtocol, SdpType, SessionDescription,
    Signal,
};
use signaling::SignalingServer;
use std::sync::Arc;

type Server = SignalingServer<u32>;
type PeerAction = Action<u32>;
type PeerReply = Reply<u32, &'static str>;
type PeerStep = Step<u32, &'static str>;
type PeerFinish = Finish<&'static str>;

fn start(url: &str) -> (Server, PeerStep) {
    Server::new(url)
}

fn server() -> Server {
    start("ws://example").0
}

fn desc(sdp_type: SdpType, sdp: &str) -> SessionDescription {
    SessionDescription { sdp_type, sdp: sdp.to_string() }
}

fn init(candidate: &str) -> IceCandidateInit {
    IceCandidateInit {
        candidate: candidate.to_string(),
        sdp_mid: Some(String::new()),
        sdp_mline_index: Some(0),
        username_fragment: None,
    }
}

fn gathered(foundation: &str) -> IceCandidate {
    IceCandidate {
        foundation: foundation.to_string(),
        component: 1,
        protocol: IceProtocol::Udp,
        priority: 5,
        address: "10.0.0.2".to_string(),
        port: 1000,
        typ: IceCandidateType::Host,
        related_address: String::new(),
        related_port: 0,
    }
}

fn gathered_text(foundation: &str) -> String {
    Signal::Ice(init(&format!("candidate:{} 1 udp 5 10.0.0.2 1000 typ host", foundation))).encode()
}

fn show(a: &PeerAction) -> String {
    format!("{:?}", a)
}

/// Drives a procedure with the replies and returns what it asked for and how it ended.
fn drive(
    s: &mut Server,
    step: PeerStep,
    replies: Vec<PeerReply>,
) -> (Vec<String>, Option<PeerFinish>) {
    let mut step = step;
    let mut asked = Vec::new();
    let mut replies = replies.into_iter();
    loop {
        match step {
            Step::Finished(f) => {
                assert!(replies.next().is_none(), "replies left after {:?}", asked);
                return (asked, Some(f));
            }
            Step::Perform(p, a) => {
                asked.push(show(&a));
                match replies.next() {
                    Some(r) => step = s.resume(p, r),
                    None => return (asked, None),
                }
            }
        }
    }
}

fn gather_early(s: &mut Server, foundation: &str) {
    let step = s.on_ice_candidate(Some(gathered(foundation)));
    let (asked, end) = drive(s, step, vec![Reply::Present(false)]);
    assert_eq!(asked, vec![show(&Action::HasRemoteDescription)]);
    assert!(matches!(end, Some(Finish::Done)));
}

fn words(w: &[&str]) -> PeerReply {
    Reply::Arguments(w.iter().map(|x| x.to_string()).collect())
}

fn text(t: &str) -> Incoming {
    Incoming::Text(t.to_string())
}

#[test]
fn start_up_in_order() {
    let (mut s, step) = start("ws://host:1");
    let mut step = step;
    let mut asked = Vec::new();
    for reply in [
        Reply::Done,
        Reply::Done,
        Reply::Done,
        words(&["p", "ann", "secret", "relay"]),
    ] {
        match step {
            Step::Perform(p, a) => {
                asked.push(show(&a));
                step = s.resume(p, reply);
            }
            Step::Finished(f) => panic!("{:?}", f),
        }
    }
    assert_eq!(
        asked,
        vec![
            show(&Action::Connect("ws://host:1".to_string())),
            show(&Action::RegisterCodecs),
            show(&Action::RegisterInterceptors),
            show(&Action::ReadArguments),
        ]
    );
    match step {
        Step::Perform(p, Action::OpenPeerConnection(options, config)) => {
            assert_eq!(options.username, "ann");
            assert!(options.relay);
            assert_eq!(config.policy, TransportPolicy::RelayOnly);
            let step: PeerStep = s.resume(p, Reply::Done);
            assert!(matches!(step, Step::Finished(Finish::Done)));
        }
        other => panic!("{:?}", other),
    }
    assert!(s.channel().is_none());
}

#[test]
fn start_up_stops_at_the_first_failure() {
    for good in 0..3usize {
        let (mut s, step) = start("u");
        let mut replies: Vec<PeerReply> = Vec::new();
        for _ in 0..good {
            replies.push(Reply::Done);
        }
        replies.push(Reply::Failed("broken"));
        let (asked, end) = drive(&mut s, step, replies);
        assert_eq!(asked.len(), good + 1);
        assert!(matches!(end, Some(Finish::Failed("broken"))));
    }
    let (mut s, step) = start("u");
    let (_, end) = drive(
        &mut s,
        step,
        vec![Reply::Done, Reply::Done, Reply::Done, words(&["p", "u", "s"]), Reply::Failed("broken")],
    );
    assert!(matches!(end, Some(Finish::Failed("broken"))));
}

#[test]
fn start_up_needs_a_name_and_a_password() {
    let (mut s, step) = start("u");
    let (_, end) =
        drive(&mut s, step, vec![Reply::Done, Reply::Done, Reply::Done, words(&["p"])]);
    assert!(matches!(end, Some(Finish::Unusable(ArgumentError::UsernameNotFound))));
    let (mut s, step) = start("u");
    let (_, end) =
        drive(&mut s, step, vec![Reply::Done, Reply::Done, Reply::Done, words(&["p", "u"])]);
    assert!(matches!(end, Some(Finish::Unusable(ArgumentError::PasswordNotFound))));
}

fn offer_replies(pending: usize) -> Vec<PeerReply> {
    let mut r: Vec<PeerReply> = vec![
        Reply::Ice(None),
        Reply::Description(None),
        Reply::Description(Some(desc(SdpType::Offer, "o"))),
        Reply::Done,
        Reply::Done,
        Reply::Done,
        Reply::Described(desc(SdpType::Answer, "a")),
        Reply::Done,
        Reply::Done,
    ];
    for _ in 0..pending {
        r.push(Reply::Done);
    }
    r
}

fn offer_actions(kept: &[&str]) -> Vec<String> {
    let answer = desc(SdpType::Answer, "a");
    let mut a = vec![
        show(&Action::DecodeIce("m".to_string())),
        show(&Action::DecodeAnswer("m".to_string())),
        show(&Action::DecodeOffer("m".to_string())),
        show(&Action::HoldSender),
        show(&Action::AcceptDataChannels),
        show(&Action::SetRemoteDescription(desc(SdpType::Offer, "o"))),
        show(&Action::CreateAnswer),
        show(&Action::SendText(Signal::Answer(answer.clone()).encode())),
        show(&Action::SetLocalDescription(answer)),
    ];
    for k in kept {
        a.push(show(&Action::SendText(gathered_text(k))));
    }
    a
}

#[test]
fn an_offer_is_answered() {
    let mut s = server();
    let step = s.receive(text("m"));
    let (asked, end) = drive(&mut s, step, offer_replies(0));
    assert_eq!(asked, offer_actions(&[]));
    assert!(matches!(end, Some(Finish::Done)));
}

#[test]
fn kept_candidates_follow_the_answer_each_time() {
    let mut s = server();
    for f in ["1", "2", "3"] {
        gather_early(&mut s, f);
    }
    for _ in 0..2 {
        let step = s.receive(text("m"));
        let (asked, end) = drive(&mut s, step, offer_replies(3));
        assert_eq!(asked, offer_actions(&["1", "2", "3"]));
        assert!(matches!(end, Some(Finish::Done)));
    }
}

#[test]
fn a_failed_negotiation_aborts() {
    for good in [5usize, 6, 7, 8, 9, 10] {
        let mut s = server();
        gather_early(&mut s, "1");
        gather_early(&mut s, "2");
        let mut replies: Vec<PeerReply> = offer_replies(2).into_iter().take(good).collect();
        replies.push(Reply::Failed("broken"));
        let step = s.receive(text("m"));
        let (asked, end) = drive(&mut s, step, replies);
        assert_eq!(asked[..], offer_actions(&["1", "2"])[..good + 1]);
        assert!(matches!(end, Some(Finish::Aborted("broken"))), "{}", good);
    }
}

#[test]
fn an_answer_is_applied_where_something_was_offered() {
    let mut s = server();
    gather_early(&mut s, "9");
    let answer = desc(SdpType::Answer, "a");
    let step = s.receive(text("m"));
    let (asked, end) = drive(
        &mut s,
        step,
        vec![
            Reply::Ice(None),
            Reply::Description(Some(answer.clone())),
            Reply::Done,
            Reply::Present(true),
            Reply::Done,
            Reply::Done,
        ],
    );
    assert_eq!(
        asked,
        vec![
            show(&Action::DecodeIce("m".to_string())),
            show(&Action::DecodeAnswer("m".to_string())),
            show(&Action::HoldSender),
            show(&Action::HasLocalDescription),
            show(&Action::SetRemoteDescription(answer)),
            show(&Action::SendText(gathered_text("9"))),
        ]
    );
    assert!(matches!(end, Some(Finish::Done)));
}

#[test]
fn an_unasked_answer_is_not_applied() {
    let mut s = server();
    gather_early(&mut s, "9");
    let step = s.receive(text("m"));
    let (asked, end) = drive(
        &mut s,
        step,
        vec![
            Reply::Ice(None),
            Reply::Description(Some(desc(SdpType::Answer, "a"))),
            Reply::Done,
            Reply::Present(false),
            Reply::Done,
        ],
    );
    assert_eq!(asked.len(), 5);
    assert_eq!(asked[4], show(&Action::SendText(gathered_text("9"))));
    assert!(matches!(end, Some(Finish::Done)));
}

#[test]
fn an_answer_that_cannot_be_applied_aborts() {
    let mut s = server();
    let step = s.receive(text("m"));
    let (_, end) = drive(
        &mut s,
        step,
        vec![
            Reply::Ice(None),
            Reply::Description(Some(desc(SdpType::Answer, "a"))),
            Reply::Done,
            Reply::Present(true),
            Reply::Failed("broken"),
        ],
    );
    assert!(matches!(end, Some(Finish::Aborted("broken"))));
}

#[test]
fn candidates_of_the_other_peer() {
    let mut s = server();
    let step = s.receive(text("m"));
    let (asked, end) =
        drive(&mut s, step, vec![Reply::Ice(Some(init("c"))), Reply::Present(true), Reply::Done]);
    assert_eq!(
        asked,
        vec![
            show(&Action::DecodeIce("m".to_string())),
            show(&Action::HasRemoteDescription),
            show(&Action::AddIceCandidate(init("c"))),
        ]
    );
    assert!(matches!(end, Some(Finish::Done)));
    let step = s.receive(text("m"));
    let (_, end) =
        drive(&mut s, step, vec![Reply::Ice(Some(init("c"))), Reply::Present(true), Reply::Failed("broken")]);
    assert!(matches!(end, Some(Finish::Reported("broken"))));
    let step = s.receive(text("m"));
    let (asked, end) =
        drive(&mut s, step, vec![Reply::Ice(Some(init("c"))), Reply::Present(false)]);
    assert_eq!(asked.len(), 2);
    assert!(matches!(end, Some(Finish::Done)));
}

#[test]
fn other_texts_are_skipped() {
    let mut s = server();
    let step = s.receive(text("{}"));
    let (asked, end) = drive(
        &mut s,
        step,
        vec![Reply::Ice(None), Reply::Description(None), Reply::Description(None)],
    );
    assert_eq!(asked.len(), 3);
    assert!(matches!(end, Some(Finish::Done)));
}

#[test]
fn bytes_count_as_text() {
    let s = server();
    let step: PeerStep = s.receive(Incoming::Binary("m\u{e9}".as_bytes().to_vec()));
    match step {
        Step::Perform(_, a) => {
            assert_eq!(show(&a), show(&Action::DecodeIce("m\u{e9}".to_string())))
        }
        other => panic!("{:?}", other),
    }
    let step: PeerStep = s.receive(Incoming::Binary(vec![0xff]));
    assert!(matches!(step, Step::Finished(Finish::Done)));
    let step: PeerStep = s.receive(Incoming::Other);
    assert!(matches!(step, Step::Finished(Finish::Done)));
}

#[test]
fn the_stream_ends() {
    let s = server();
    let step: PeerStep = s.receive(Incoming::Ended);
    assert!(matches!(step, Step::Finished(Finish::Closed)));
    let step: PeerStep = s.receive(Incoming::Failed);
    assert!(matches!(step, Step::Finished(Finish::Closed)));
}

#[test]
fn late_candidates_are_sent_and_not_kept() {
    let mut s = server();
    for (reply, failed) in [(Reply::Done, false), (Reply::Failed("broken"), true)] {
        let step = s.on_ice_candidate(Some(gathered("4")));
        let (asked, end) = drive(&mut s, step, vec![Reply::Present(true), reply]);
        assert_eq!(
            asked,
            vec![
                show(&Action::HasRemoteDescription),
                show(&Action::SendText(gathered_text("4"))),
            ]
        );
        if failed {
            assert!(matches!(end, Some(Finish::Reported("broken"))));
        } else {
            assert!(matches!(end, Some(Finish::Done)));
        }
    }
    let step = s.receive(text("m"));
    let (asked, _) = drive(&mut s, step, offer_replies(0));
    assert_eq!(asked, offer_actions(&[]));
}

#[test]
fn the_end_of_gathering_and_bad_candidates() {
    let s = server();
    let step: PeerStep = s.on_ice_candidate(None);
    assert!(matches!(step, Step::Finished(Finish::Done)));
    let mut c = gathered("1");
    c.typ = IceCandidateType::Unspecified;
    let step: PeerStep = s.on_ice_candidate(Some(c));
    assert!(matches!(step, Step::Finished(Finish::Unsendable)));
}

#[test]
fn an_offer_is_sent() {
    let mut s = server();
    let offer = desc(SdpType::Offer, "o");
    let step = s.send_offer();
    let (asked, end) = drive(
        &mut s,
        step,
        vec![Reply::Channel(Arc::new(7)), Reply::Described(offer.clone()), Reply::Done, Reply::Done],
    );
    assert_eq!(
        asked,
        vec![
            show(&Action::CreateDataChannel("data".to_string())),
            show(&Action::CreateOffer),
            show(&Action::SetLocalDescription(offer.clone())),
            show(&Action::SendText(Signal::Offer(offer).encode())),
        ]
    );
    assert!(matches!(end, Some(Finish::Done)));
    assert_eq!(s.channel(), Some(&Arc::new(7)));
}

#[test]
fn an_offer_that_cannot_be_sent() {
    let offer = || Reply::Described(desc(SdpType::Offer, "o"));
    let mut s = server();
    let step = s.send_offer();
    assert!(matches!(drive(&mut s, step, vec![Reply::Failed("broken")]).1, Some(Finish::Failed("broken"))));
    assert!(s.channel().is_none());
    let step = s.send_offer();
    let (_, end) = drive(&mut s, step, vec![Reply::Channel(Arc::new(1)), Reply::Failed("broken")]);
    assert!(matches!(end, Some(Finish::Failed("broken"))));
    assert_eq!(s.channel(), Some(&Arc::new(1)));
    let step = s.send_offer();
    let (_, end) = drive(&mut s, step, vec![Reply::Channel(Arc::new(2)), offer(), Reply::Failed("broken")]);
    assert!(matches!(end, Some(Finish::Aborted("broken"))));
    let step = s.send_offer();
    let (_, end) = drive(&mut s, step, vec![Reply::Channel(Arc::new(3)), offer(), Reply::Done, Reply::Failed("broken")]);
    assert!(matches!(end, Some(Finish::Failed("broken"))));
}

#[test]
fn an_offer_for_the_caller() {
    let mut s = server();
    let offer = desc(SdpType::Offer, "o");
    let step = s.create_offer();
    let (asked, end) =
        drive(&mut s, step, vec![Reply::Described(offer.clone()), Reply::Done]);
    assert_eq!(
        asked,
        vec![show(&Action::CreateOffer), show(&Action::SetLocalDescription(offer))]
    );
    match end {
        Some(Finish::Described(d)) => {
            assert_eq!(d.sdp, "o");
            assert_eq!(d.sdp_type, SdpType::Offer);
        }
        other => panic!("{:?}", other),
    }
    let step = s.create_offer();
    let (_, end) = drive(
        &mut s,
        step,
        vec![Reply::Described(desc(SdpType::Offer, "o")), Reply::Failed("broken")],
    );
    assert!(matches!(end, Some(Finish::Failed("broken"))));
}

#[test]
fn an_answer_for_the_caller() {
    let mut s = server();
    let step = s.create_answer(desc(SdpType::Offer, "o"));
    let (asked, end) = drive(
        &mut s,
        step,
        vec![Reply::Done, Reply::Described(desc(SdpType::Answer, "a")), Reply::Done],
    );
    assert_eq!(
        asked,
        vec![
            show(&Action::SetRemoteDescription(desc(SdpType::Offer, "o"))),
            show(&Action::CreateAnswer),
            show(&Action::SetLocalDescription(desc(SdpType::Answer, "a"))),
        ]
    );
    match end {
        Some(Finish::Described(d)) => assert_eq!(d.sdp, "a"),
        other => panic!("{:?}", other),
    }
    let step = s.create_answer(desc(SdpType::Offer, "o"));
    assert!(matches!(drive(&mut s, step, vec![Reply::Failed("broken")]).1, Some(Finish::Failed("broken"))));
}

#[test]
fn an_answer_from_the_caller() {
    let mut s = server();
    let step = s.accept_answer(desc(SdpType::Answer, "a"));
    let (asked, end) = drive(&mut s, step, vec![Reply::Done]);
    assert_eq!(asked, vec![show(&Action::SetRemoteDescription(desc(SdpType::Answer, "a")))]);
    assert!(matches!(end, Some(Finish::Done)));
    let step = s.accept_answer(desc(SdpType::Answer, "a"));
    assert!(matches!(drive(&mut s, step, vec![Reply::Failed("broken")]).1, Some(Finish::Failed("broken"))));
}

#[test]
fn messages_need_a_channel() {
    let mut s = server();
    let step: PeerStep = s.send_message("hi");
    assert!(matches!(step, Step::Finished(Finish::Done)));
    s.on_data_channel(Arc::new(3));
    assert_eq!(s.channel(), Some(&Arc::new(3)));
    let step = s.send_message("hi");
    let (asked, end) = drive(&mut s, step, vec![Reply::Done]);
    assert_eq!(asked, vec![show(&Action::SendOnChannel(Arc::new(3), "hi".to_string()))]);
    assert!(matches!(end, Some(Finish::Done)));
    let step = s.send_message("hi");
    assert!(matches!(drive(&mut s, step, vec![Reply::Failed("broken")]).1, Some(Finish::Failed("broken"))));
    s.on_data_channel(Arc::new(4));
    assert_eq!(s.channel(), Some(&Arc::new(4)));
    s.on_close();
    assert!(s.channel().is_none());
    let step: PeerStep = s.send_message("hi");
    assert!(matches!(step, Step::Finished(Finish::Done)));
}

#[test]
fn closing_never_fails() {
    for reply in [Reply::Done, Reply::Failed("broken")] {
        let mut other = server();
        let step = server().stop_stream();
        let (asked, end) = drive(&mut other, step, vec![reply]);
        assert_eq!(asked, vec![show(&Action::Close)]);
        assert!(matches!(end, Some(Finish::Done)));
    }
}

#[test]
fn replies_that_do_not_fit() {
    let mut s = server();
    let step = s.receive(text("m"));
    assert!(matches!(drive(&mut s, step, vec![Reply::Done]).1, Some(Finish::Mismatched)));
    let step = s.create_offer();
    assert!(matches!(drive(&mut s, step, vec![Reply::Channel(Arc::new(1))]).1, Some(Finish::Mismatched)));
    let step = s.on_ice_candidate(Some(gathered("1")));
    assert!(matches!(drive(&mut s, step, vec![Reply::Done]).1, Some(Finish::Mismatched)));
    let (mut s, step) = start("u");
    assert!(matches!(drive(&mut s, step, vec![Reply::Present(true)]).1, Some(Finish::Mismatched)));
}

#[test]
fn every_procedure_ends() {
    let mut s = server();
    gather_early(&mut s, "1");
    gather_early(&mut s, "2");
    let step = s.receive(text("m"));
    let (asked, end) = drive(&mut s, step, offer_replies(2));
    assert_eq!(asked.len(), 11);
    assert!(end.is_some());
}

/// Reads the description in a message, if it is in the field of this name.
fn read_description(message: &str, field: &str) -> PeerReply {
    let value: serde_json::Value = serde_json::from_str(message).unwrap();
    Reply::Description(value.get(field).map(|d| SessionDescription {
        sdp_type: match d["type"].as_str().unwrap() {
            "offer" => SdpType::Offer,
            "answer" => SdpType::Answer,
            _ => SdpType::Unspecified,
        },
        sdp: d["sdp"].as_str().unwrap().to_string(),
    }))
}

/// Drives a procedure in which nothing fails; returns the texts that it sent and the
/// descriptions that it set, local ones first.
fn negotiate(s: &mut Server, step: PeerStep, own: &SessionDescription) -> (Vec<String>, Vec<String>, Vec<String>) {
    let mut step = step;
    let (mut texts, mut local, mut remote) = (Vec::new(), Vec::new(), Vec::new());
    loop {
        match step {
            Step::Finished(f) => {
                assert!(matches!(f, Finish::Done));
                return (texts, local, remote);
            }
            Step::Perform(p, a) => {
                let reply = match a {
                    Action::DecodeIce(_) => Reply::Ice(None),
                    Action::DecodeAnswer(t) => read_description(&t, "answer"),
                    Action::DecodeOffer(t) => read_description(&t, "offer"),
                    Action::HasLocalDescription => Reply::Present(true),
                    Action::CreateOffer | Action::CreateAnswer => Reply::Described(own.clone()),
                    Action::CreateDataChannel(_) => Reply::Channel(Arc::new(1)),
                    Action::SendText(t) => {
                        texts.push(t);
                        Reply::Done
                    }
                    Action::SetLocalDescription(d) => {
                        local.push(d.sdp);
                        Reply::Done
                    }
                    Action::SetRemoteDescription(d) => {
                        remote.push(d.sdp);
                        Reply::Done
                    }
                    _ => Reply::Done,
                };
                step = s.resume(p, reply);
            }
        }
    }
}

#[test]
fn two_peers_negotiate() {
    let offer = desc(SdpType::Offer, "v=0\r\n\"offer\"");
    let answer = desc(SdpType::Answer, "v=0\r\n\"answer\"");
    let (mut a, mut b) = (server(), server());
    gather_early(&mut a, "11");
    gather_early(&mut b, "22");

    let step = a.send_offer();
    let (texts, local, remote) = negotiate(&mut a, step, &offer);
    assert_eq!(local, vec![offer.sdp.clone()]);
    assert!(remote.is_empty());
    assert_eq!(texts.len(), 1);

    let step = b.receive(text(&texts[0]));
    let (texts, local, remote) = negotiate(&mut b, step, &answer);
    assert_eq!(local, vec![answer.sdp.clone()]);
    assert_eq!(remote, vec![offer.sdp.clone()]);
    assert_eq!(texts.len(), 2);
    assert_eq!(texts[1], gathered_text("22"));

    let step = a.receive(text(&texts[0]));
    let (texts, local, remote) = negotiate(&mut a, step, &offer);
    assert!(local.is_empty());
    assert_eq!(remote, vec![answer.sdp.clone()]);
    assert_eq!(texts, vec![gathered_text("11")]);
}

#[test]
fn a_message_goes_to_the_channel_of_the_moment() {
    let mut s = server();
    let (first, second) = (Arc::new(1), Arc::new(2));
    s.on_data_channel(first.clone());
    let step: PeerStep = s.send_message("a");
    match step {
        Step::Perform(_, Action::SendOnChannel(c, t)) => {
            assert!(Arc::ptr_eq(&c, &first));
            assert_eq!(t, "a");
        }
        other => panic!("{:?}", other),
    }
    let step = s.send_offer();
    drive(&mut s, step, vec![Reply::Channel(second.clone())]);
    let step: PeerStep = s.send_message("b");
    match step {
        Step::Perform(_, Action::SendOnChannel(c, t)) => {
            assert!(Arc::ptr_eq(&c, &second));
            assert_eq!(t, "b");
        }
        other => panic!("{:?}", other),
    }
}

#[test]
fn the_error_that_ends_a_procedure_is_handed_on() {
    for error in ["first", "second"] {
        let mut s = server();
        let step = s.create_offer();
        match drive(&mut s, step, vec![Reply::Failed(error)]).1 {
            Some(Finish::Failed(e)) => assert_eq!(e, error),
            other => panic!("{:?}", other),
        }
        let (mut s, step) = start("u");
        match drive(&mut s, step, vec![Reply::Done, Reply::Failed(error)]).1 {
            Some(Finish::Failed(e)) => assert_eq!(e, error),
            other => panic!("{:?}", other),
        }
        let step = s.send_offer();
        let replies = vec![
            Reply::Channel(Arc::new(1)),
            Reply::Described(desc(SdpType::Offer, "o")),
            Reply::Failed(error),
        ];
        match drive(&mut s, step, replies).1 {
            Some(Finish::Aborted(e)) => assert_eq!(e, error),
            other => panic!("{:?}", other),
        }
        let step = s.on_ice_candidate(Some(gathered("4")));
        match drive(&mut s, step, vec![Reply::Present(true), Reply::Failed(error)]).1 {
            Some(Finish::Reported(e)) => assert_eq!(e, error),
            other => panic!("{:?}", other),
        }
    }
}

/// Handles the message while candidates are gathered just before the given replies.
fn drive_while_gathering(
    replies: Vec<PeerReply>,
    gathering: &[(usize, &str)],
) -> (Vec<String>, Option<PeerFinish>, Server) {
    let mut s = server();
    gather_early(&mut s, "1");
    let mut step: PeerStep = s.receive(text("m"));
    let mut asked = Vec::new();
    for (i, reply) in replies.into_iter().enumerate() {
        for (at, foundation) in gathering {
            if *at == i {
                gather_early(&mut s, foundation);
            }
        }
        match step {
            Step::Perform(p, a) => {
                asked.push(show(&a));
                step = s.resume(p, reply);
            }
            Step::Finished(f) => panic!("{:?}", f),
        }
    }
    match step {
        Step::Finished(f) => (asked, Some(f), s),
        Step::Perform(..) => (asked, None, s),
    }
}

#[test]
fn what_is_kept_when_the_answer_is_stored_goes_out() {
    // The last one comes too late for this offer, and goes out with the next.
    let gathering = [(0, "2"), (4, "3"), (8, "4"), (10, "5")];
    let (asked, end, mut s) = drive_while_gathering(offer_replies(4), &gathering);
    assert_eq!(asked, offer_actions(&["1", "2", "3", "4"]));
    assert!(matches!(end, Some(Finish::Done)));
    let step = s.receive(text("m"));
    let (asked, end) = drive(&mut s, step, offer_replies(5));
    assert_eq!(asked, offer_actions(&["1", "2", "3", "4", "5"]));
    assert!(matches!(end, Some(Finish::Done)));
}

#[test]
fn what_is_kept_when_the_answer_is_applied_goes_out() {
    let answer = desc(SdpType::Answer, "a");
    let replies = vec![
        Reply::Ice(None),
        Reply::Description(Some(answer)),
        Reply::Done,
        Reply::Present(true),
        Reply::Done,
        Reply::Done,
        Reply::Done,
    ];
    let (asked, end, _) = drive_while_gathering(replies, &[(4, "2"), (5, "3")]);
    assert_eq!(
        asked[5..],
        [
            show(&Action::SendText(gathered_text("1"))),
            show(&Action::SendText(gathered_text("2"))),
        ]
    );
    assert!(matches!(end, Some(Finish::Done)));
}
