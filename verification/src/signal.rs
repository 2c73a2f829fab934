//! What the peers tell each other: session descriptions, ICE candidates, and the texts that
//! carry them.

use crate::json::{
    decimal, json_optional_number, json_optional_string, json_string, lemma_cut,
    lemma_json_optional_number, lemma_json_optional_string, lemma_json_string, lemma_regrouped,
};
use vstd::prelude::*;
use webrtc::ice_transport::ice_candidate::{RTCIceCandidate, RTCIceCandidateInit};
use webrtc::ice_transport::ice_candidate_type::RTCIceCandidateType;
use webrtc::ice_transport::ice_protocol::RTCIceProtocol;
use webrtc::peer_connection::sdp::sdp_type::RTCSdpType;
use webrtc::peer_connection::sdp::session_description::RTCSessionDescription;

verus! {

/// The error of the `webrtc` crate, carried and never looked into.
#[verifier::external_type_specification]
#[verifier::external_body]
pub struct ExError(webrtc::Error);

/// What a session description is for.
#[derive(Debug, Clone, Copy, PartialEq, Eq, Structural)]
pub enum SdpType {
    Unspecified,
    Offer,
    Pranswer,
    Answer,
    Rollback,
}

impl SdpType {
    /// The word for it in a message.
    pub open spec fn word(self) -> Seq<char> {
        match self {
            SdpType::Unspecified => "Unspecified"@,
            SdpType::Offer => "offer"@,
            SdpType::Pranswer => "pranswer"@,
            SdpType::Answer => "answer"@,
            SdpType::Rollback => "rollback"@,
        }
    }
}

/// A session description: one side of a negotiation.
#[derive(Debug)]
pub struct SessionDescription {
    pub sdp_type: SdpType,
    pub sdp: String,
}

/// A [`SessionDescription`] by what it holds.
pub struct SessionDescriptionView {
    pub sdp_type: SdpType,
    pub sdp: Seq<char>,
}

impl View for SessionDescription {
    type V = SessionDescriptionView;

    open spec fn view(&self) -> SessionDescriptionView {
        SessionDescriptionView { sdp_type: self.sdp_type, sdp: self.sdp@ }
    }
}

impl Clone for SessionDescription {
    fn clone(&self) -> (r: Self)
        ensures
            r@ == self@,
            r == *self,
    {
        SessionDescription { sdp_type: self.sdp_type, sdp: self.sdp.clone() }
    }
}

/// The text in an optional string.
pub open spec fn optional_text(o: Option<String>) -> Option<Seq<char>> {
    match o {
        Some(s) => Some(s@),
        None => None,
    }
}

/// An ICE candidate as the peers exchange it.
#[derive(Debug)]
pub struct IceCandidateInit {
    pub candidate: String,
    pub sdp_mid: Option<String>,
    pub sdp_mline_index: Option<u16>,
    pub username_fragment: Option<String>,
}

/// An [`IceCandidateInit`] by what it holds.
pub struct IceCandidateInitView {
    pub candidate: Seq<char>,
    pub sdp_mid: Option<Seq<char>>,
    pub sdp_mline_index: Option<u16>,
    pub username_fragment: Option<Seq<char>>,
}

impl View for IceCandidateInit {
    type V = IceCandidateInitView;

    open spec fn view(&self) -> IceCandidateInitView {
        IceCandidateInitView {
            candidate: self.candidate@,
            sdp_mid: optional_text(self.sdp_mid),
            sdp_mline_index: self.sdp_mline_index,
            username_fragment: optional_text(self.username_fragment),
        }
    }
}

fn clone_optional(o: &Option<String>) -> (r: Option<String>)
    ensures
        r == *o,
{
    match o {
        Some(s) => Some(s.clone()),
        None => None,
    }
}

impl Clone for IceCandidateInit {
    fn clone(&self) -> (r: Self)
        ensures
            r@ == self@,
            r == *self,
    {
        IceCandidateInit {
            candidate: self.candidate.clone(),
            sdp_mid: clone_optional(&self.sdp_mid),
            sdp_mline_index: self.sdp_mline_index,
            username_fragment: clone_optional(&self.username_fragment),
        }
    }
}

/// The transport of an ICE candidate.
#[derive(Debug, Clone, Copy, PartialEq, Eq, Structural)]
pub enum IceProtocol {
    Unspecified,
    Udp,
    Tcp,
}

impl IceProtocol {
    /// The word for it in a candidate.
    pub open spec fn word(self) -> Seq<char> {
        match self {
            IceProtocol::Unspecified => "Unspecified"@,
            IceProtocol::Udp => "udp"@,
            IceProtocol::Tcp => "tcp"@,
        }
    }

    /// The word for it in a candidate.
    pub fn name(self) -> (r: &'static str)
        ensures
            r@ == self.word(),
    {
        match self {
            IceProtocol::Unspecified => "Unspecified",
            IceProtocol::Udp => "udp",
            IceProtocol::Tcp => "tcp",
        }
    }
}

/// Where an ICE candidate comes from.
#[derive(Debug, Clone, Copy, PartialEq, Eq, Structural)]
pub enum IceCandidateType {
    Unspecified,
    Host,
    Srflx,
    Prflx,
    Relay,
}

impl IceCandidateType {
    /// The word for it in a candidate.
    pub open spec fn word(self) -> Seq<char> {
        match self {
            IceCandidateType::Unspecified => "Unspecified"@,
            IceCandidateType::Host => "host"@,
            IceCandidateType::Srflx => "srflx"@,
            IceCandidateType::Prflx => "prflx"@,
            IceCandidateType::Relay => "relay"@,
        }
    }

    /// The word for it in a candidate.
    pub fn name(self) -> (r: &'static str)
        ensures
            r@ == self.word(),
    {
        match self {
            IceCandidateType::Unspecified => "Unspecified",
            IceCandidateType::Host => "host",
            IceCandidateType::Srflx => "srflx",
            IceCandidateType::Prflx => "prflx",
            IceCandidateType::Relay => "relay",
        }
    }
}

/// An ICE candidate as it was gathered: a path to this peer.
#[derive(Debug)]
pub struct IceCandidate {
    pub foundation: String,
    pub component: u16,
    pub protocol: IceProtocol,
    pub priority: u32,
    pub address: String,
    pub port: u16,
    pub typ: IceCandidateType,
    pub related_address: String,
    pub related_port: u16,
}

/// An [`IceCandidate`] by what it holds.
pub struct IceCandidateView {
    pub foundation: Seq<char>,
    pub component: u16,
    pub protocol: IceProtocol,
    pub priority: u32,
    pub address: Seq<char>,
    pub port: u16,
    pub typ: IceCandidateType,
    pub related_address: Seq<char>,
    pub related_port: u16,
}

impl View for IceCandidate {
    type V = IceCandidateView;

    open spec fn view(&self) -> IceCandidateView {
        IceCandidateView {
            foundation: self.foundation@,
            component: self.component,
            protocol: self.protocol,
            priority: self.priority,
            address: self.address@,
            port: self.port,
            typ: self.typ,
            related_address: self.related_address@,
            related_port: self.related_port,
        }
    }
}

impl IceCandidateView {
    /// The candidate has a priority: its own, or, where that is 0, one that can be derived
    /// from its component.
    pub open spec fn has_priority(self) -> bool {
        self.priority != 0 || self.component <= 256
    }
}

impl IceCandidateView {
    /// The address is a name that is known on the local network only.
    pub open spec fn is_named_locally(self) -> bool {
        self.typ is Host && ".local"@.is_suffix_of(self.address)
    }

    /// The transport as it is sent: a local name always goes with UDP.
    pub open spec fn sent_transport(self) -> Seq<char> {
        if self.protocol is Tcp && !self.is_named_locally() {
            "tcp"@
        } else {
            "udp"@
        }
    }

    /// The priority as it is sent: the candidate's own, or else one that is derived from its type,
    /// its transport and its component.
    pub open spec fn sent_priority(self) -> nat {
        if self.priority != 0 {
            self.priority as nat
        } else {
            let by_type: nat = match self.typ {
                IceCandidateType::Host => 126,
                IceCandidateType::Prflx => 110,
                IceCandidateType::Srflx => 100,
                _ => 0,
            };
            let local: nat = if self.sent_transport() == "tcp"@ {
                8191
            } else {
                65535
            };
            (by_type * 0x1000000 + local * 0x100 + 256 - self.component) as nat
        }
    }

    /// The line in which the candidate is sent, from its component on.
    pub open spec fn line_behind_foundation(self) -> Seq<char> {
        let line = " "@ + decimal(self.component as nat) + " "@ + self.sent_transport() + " "@
            + decimal(self.sent_priority()) + " "@ + self.address + " "@ + decimal(
            self.port as nat,
        ) + " typ "@ + self.typ.word();
        if self.typ is Host {
            line
        } else {
            line + " raddr "@ + self.related_address + " rport "@ + decimal(
                self.related_port as nat,
            )
        }
    }
}

/// The line that `RTCIceCandidate::to_json` of the `webrtc` crate writes for a candidate, less
/// its leading `candidate:`; `None` where it fails.
pub uninterp spec fn candidate_attribute(
    foundation: Seq<char>,
    component: u16,
    protocol: Seq<char>,
    priority: u32,
    address: Seq<char>,
    port: u16,
    typ: Seq<char>,
    related_address: Seq<char>,
    related_port: u16,
) -> Option<Seq<char>>;

/// Calls `RTCIceCandidate::to_json` of the `webrtc` crate on the candidate with these values;
/// `protocol` and `typ` are read by the `From<&str>` of their types.
///
/// It fails or succeeds by these values alone, and always fails for a type that it does not
/// know. Where it succeeds, `candidate` is `candidate:` and a line of its own making,
/// `sdp_mid` is the empty text, `sdp_mline_index` is 0, and there is no `username_fragment`.
/// A priority of 0 makes it derive one by a subtraction that overflows for a component
/// above 256.
///
/// Where `protocol` and `typ` are the words for those of the candidate, it writes the line from the
/// candidate's own values: the foundation, the component, the transport, the priority, the
/// address, the port, `typ` and the type, and for all but a host `raddr` and `rport` with the
/// related address and port, one space between any two. An empty foundation is replaced by a
/// checksum, of which nothing is claimed. It never fails for a host whose address ends in
/// `.local`, which is not looked into and counts as UDP; any other candidate needs a transport.
#[verifier::external_body]
fn rtc_candidate_to_json(candidate: IceCandidate, protocol: &str, typ: &str) -> (r: Result<
    IceCandidateInit,
    webrtc::Error,
>)
    requires
        candidate@.has_priority(),
    ensures
        r is Ok <==> candidate_attribute(
            candidate@.foundation,
            candidate@.component,
            protocol@,
            candidate@.priority,
            candidate@.address,
            candidate@.port,
            typ@,
            candidate@.related_address,
            candidate@.related_port,
        ) is Some,
        r matches Ok(init) ==> init@ == (IceCandidateInitView {
            candidate: "candidate:"@ + candidate_attribute(
                candidate@.foundation,
                candidate@.component,
                protocol@,
                candidate@.priority,
                candidate@.address,
                candidate@.port,
                typ@,
                candidate@.related_address,
                candidate@.related_port,
            )->0,
            sdp_mid: Some(""@),
            sdp_mline_index: Some(0u16),
            username_fragment: None,
        }),
        typ@ == "Unspecified"@ ==> r is Err,
        protocol@ == candidate@.protocol.word() && typ@ == candidate@.typ.word()
            && candidate@.is_named_locally() ==> r is Ok,
        protocol@ == candidate@.protocol.word() && typ@ == candidate@.typ.word()
            && candidate@.protocol is Unspecified && !candidate@.is_named_locally() ==> r is Err,
        protocol@ == candidate@.protocol.word() && typ@ == candidate@.typ.word() ==> (
        r matches Ok(init) ==> candidate@.line_behind_foundation().is_suffix_of(
            init@.candidate.skip(10),
        )),
        protocol@ == candidate@.protocol.word() && typ@ == candidate@.typ.word()
            && candidate@.foundation.len() > 0 ==> (r matches Ok(init) ==> init@.candidate.skip(10)
            == candidate@.foundation + candidate@.line_behind_foundation()),
{
    let IceCandidate { foundation, component, priority, address, port, .. } = candidate;
    let IceCandidate { related_address, related_port, .. } = candidate;
    let rtc = RTCIceCandidate {
        foundation, component, priority, address, port, related_address, related_port,
        protocol: RTCIceProtocol::from(protocol),
        typ: RTCIceCandidateType::from(typ),
        ..Default::default()
    };
    rtc.to_json().map(|init| IceCandidateInit {
        candidate: init.candidate,
        sdp_mid: init.sdp_mid,
        sdp_mline_index: init.sdp_mline_index,
        username_fragment: init.username_fragment,
    })
}

/// The form in which a gathered candidate is sent; `None` where it has none. It needs a type and,
/// unless it goes by a local name, a transport and an address that the `webrtc` crate can read.
pub open spec fn candidate_init_of(c: IceCandidateView) -> Option<IceCandidateInitView> {
    let attribute = candidate_attribute(
        c.foundation,
        c.component,
        c.protocol.word(),
        c.priority,
        c.address,
        c.port,
        c.typ.word(),
        c.related_address,
        c.related_port,
    );
    let behind = c.line_behind_foundation();
    let foundation = if c.foundation.len() > 0 {
        c.foundation
    } else {
        attribute->0.take(attribute->0.len() - behind.len())
    };
    if c.typ is Unspecified {
        None
    } else if c.is_named_locally() || (c.protocol !is Unspecified && attribute is Some) {
        Some(
            IceCandidateInitView {
                candidate: "candidate:"@ + foundation + behind,
                sdp_mid: Some(""@),
                sdp_mline_index: Some(0u16),
                username_fragment: None,
            },
        )
    } else {
        None
    }
}

impl IceCandidate {
    /// The form in which this candidate is sent; `None` where it has none, as one of
    /// unspecified type never has.
    pub fn to_json(self) -> (r: Option<IceCandidateInit>)
        requires
            self@.has_priority(),
        ensures
            r is Some <==> candidate_init_of(self@) is Some,
            r matches Some(init) ==> candidate_init_of(self@) == Some(init@),
            self.typ is Unspecified ==> r is None,
    {
        let protocol = self.protocol.name();
        let typ = self.typ.name();
        let ghost c = self@;
        match rtc_candidate_to_json(self, protocol, typ) {
            Ok(init) => {
                proof {
                    reveal_strlit("candidate:");
                    let line = init@.candidate.skip(10);
                    let behind = c.line_behind_foundation();
                    let foundation = line.take(line.len() - behind.len());
                    assert(line =~= foundation + behind);
                    assert(init@.candidate =~= "candidate:"@ + line);
                    assert("candidate:"@ + (foundation + behind) =~= "candidate:"@ + foundation
                        + behind);
                    assert(line =~= candidate_attribute(
                        c.foundation,
                        c.component,
                        c.protocol.word(),
                        c.priority,
                        c.address,
                        c.port,
                        c.typ.word(),
                        c.related_address,
                        c.related_port,
                    )->0);
                    if c.foundation.len() > 0 {
                        assert(foundation =~= c.foundation);
                    }
                }
                Some(init)
            },
            Err(_) => None,
        }
    }
}

/// A candidate in JSON.
pub open spec fn candidate_json(c: IceCandidateInitView) -> Seq<char> {
    "{\"candidate\":"@ + json_string(c.candidate) + ",\"sdpMid\":"@ + json_optional_string(
        c.sdp_mid,
    ) + ",\"sdpMLineIndex\":"@ + json_optional_number(c.sdp_mline_index)
        + ",\"usernameFragment\":"@ + json_optional_string(c.username_fragment) + "}"@
}

/// A session description in JSON.
pub open spec fn description_json(d: SessionDescriptionView) -> Seq<char> {
    "{\"type\":\""@ + d.sdp_type.word() + "\",\"sdp\":"@ + json_string(d.sdp) + "}"@
}

/// Calls `serde_json::to_string` on the `RTCIceCandidateInit` of the `webrtc` crate with these
/// values: the text is an object without spaces, of the four fields in this order, each text
/// written as a JSON string, the number in decimal, and `null` where there is none. Inside a JSON
/// string, `"`, `\` and the control characters up to U+001F are escaped, by a letter where JSON has
/// one and else by two hexadecimal digits, and every other character stands as it is. A struct of
/// texts and a number meets none of the two conditions under which the call can fail.
#[verifier::external_body]
fn rtc_candidate_to_string(c: &IceCandidateInit) -> (r: String)
    ensures
        r@ == candidate_json(c@),
{
    let init = RTCIceCandidateInit {
        candidate: c.candidate.clone(),
        sdp_mid: c.sdp_mid.clone(),
        sdp_mline_index: c.sdp_mline_index,
        username_fragment: c.username_fragment.clone(),
    };
    serde_json::to_string(&init).unwrap()
}

/// Calls `serde_json::to_string` on the `RTCSessionDescription` of the `webrtc` crate with these
/// values: the text is an object without spaces, of the type by its word and the description
/// as a JSON string, with the same escapes as in a candidate. A struct of a word and a text meets
/// none of the two conditions under which the call can fail.
#[verifier::external_body]
fn rtc_description_to_string(d: &SessionDescription) -> (r: String)
    ensures
        r@ == description_json(d@),
{
    let mut description = RTCSessionDescription::default();
    description.sdp = d.sdp.clone();
    description.sdp_type = match d.sdp_type {
        SdpType::Unspecified => RTCSdpType::Unspecified,
        SdpType::Offer => RTCSdpType::Offer,
        SdpType::Pranswer => RTCSdpType::Pranswer,
        SdpType::Answer => RTCSdpType::Answer,
        SdpType::Rollback => RTCSdpType::Rollback,
    };
    serde_json::to_string(&description).unwrap()
}

/// A message between the peers.
#[derive(Debug)]
pub enum Signal {
    /// A path to the sender.
    Ice(IceCandidateInit),
    /// The answer to an offer.
    Answer(SessionDescription),
    /// The start of a negotiation.
    Offer(SessionDescription),
}

/// A [`Signal`] by what it holds.
pub enum SignalView {
    Ice(IceCandidateInitView),
    Answer(SessionDescriptionView),
    Offer(SessionDescriptionView),
}

impl View for Signal {
    type V = SignalView;

    open spec fn view(&self) -> SignalView {
        match self {
            Signal::Ice(c) => SignalView::Ice(c@),
            Signal::Answer(d) => SignalView::Answer(d@),
            Signal::Offer(d) => SignalView::Offer(d@),
        }
    }
}

/// An object with one field, `kind`, which holds `inner`.
pub open spec fn frame(kind: Seq<char>, inner: Seq<char>) -> Seq<char> {
    "{\""@ + kind + "\":"@ + inner + "}"@
}

/// Writes an object with one field, `kind`, which holds `inner`.
pub fn framed(kind: &str, inner: &str) -> (r: String)
    ensures
        r@ == frame(kind@, inner@),
        r@ == "{\""@ + kind@ + "\":"@ + inner@ + "}"@,
{
    "{\"".to_owned().concat(kind).concat("\":").concat(inner).concat("}")
}

/// The text of a message: an object with one field, which says what the message is.
pub open spec fn signal_text(s: SignalView) -> Seq<char> {
    match s {
        SignalView::Ice(c) => frame("ice"@, candidate_json(c)),
        SignalView::Answer(d) => frame("answer"@, description_json(d)),
        SignalView::Offer(d) => frame("offer"@, description_json(d)),
    }
}

impl Signal {
    /// The text that carries this message.
    pub fn encode(&self) -> (r: String)
        ensures
            r@ == signal_text(self@),
            self is Ice ==> "{\"ice\":"@.is_prefix_of(r@),
            self is Answer ==> "{\"answer\":"@.is_prefix_of(r@),
            self is Offer ==> "{\"offer\":"@.is_prefix_of(r@),
    {
        proof {
            match self {
                Signal::Ice(c) => law_candidate_text(c@),
                Signal::Answer(d) => law_description_texts(d@),
                Signal::Offer(d) => law_description_texts(d@),
            }
        }
        match self {
            Signal::Ice(c) => framed("ice", rtc_candidate_to_string(c).as_str()),
            Signal::Answer(d) => framed("answer", rtc_description_to_string(d).as_str()),
            Signal::Offer(d) => framed("offer", rtc_description_to_string(d).as_str()),
        }
    }
}

proof fn lemma_candidate_regrouped(c: IceCandidateInitView)
    ensures
        candidate_json(c) == "{\"candidate\":"@ + (json_string(c.candidate) + (",\"sdpMid\":"@ + (
        json_optional_string(c.sdp_mid) + (",\"sdpMLineIndex\":"@ + (json_optional_number(
            c.sdp_mline_index,
        ) + (",\"usernameFragment\":"@ + (json_optional_string(c.username_fragment) + "}"@))))))),
{
    let s1 = "{\"candidate\":"@;
    let s2 = s1 + json_string(c.candidate);
    let s3 = s2 + ",\"sdpMid\":"@;
    let s4 = s3 + json_optional_string(c.sdp_mid);
    let s5 = s4 + ",\"sdpMLineIndex\":"@;
    let s6 = s5 + json_optional_number(c.sdp_mline_index);
    let s7 = s6 + ",\"usernameFragment\":"@;
    let r8 = json_optional_string(c.username_fragment) + "}"@;
    let r7 = ",\"usernameFragment\":"@ + r8;
    let r6 = json_optional_number(c.sdp_mline_index) + r7;
    let r5 = ",\"sdpMLineIndex\":"@ + r6;
    let r4 = json_optional_string(c.sdp_mid) + r5;
    let r3 = ",\"sdpMid\":"@ + r4;
    lemma_regrouped(s7, json_optional_string(c.username_fragment), "}"@);
    lemma_regrouped(s6, ",\"usernameFragment\":"@, r8);
    lemma_regrouped(s5, json_optional_number(c.sdp_mline_index), r7);
    lemma_regrouped(s4, ",\"sdpMLineIndex\":"@, r6);
    lemma_regrouped(s3, json_optional_string(c.sdp_mid), r5);
    lemma_regrouped(s2, ",\"sdpMid\":"@, r4);
    lemma_regrouped(s1, json_string(c.candidate), r3);
}

proof fn lemma_candidate_json(a: IceCandidateInitView, b: IceCandidateInitView)
    requires
        candidate_json(a) == candidate_json(b),
    ensures
        a == b,
{
    reveal_strlit(",\"usernameFragment\":");
    let (k1, k2, k3, k4) = (
        "{\"candidate\":"@,
        ",\"sdpMid\":"@,
        ",\"sdpMLineIndex\":"@,
        ",\"usernameFragment\":"@,
    );
    let (x7, y7) = (
        json_optional_string(a.username_fragment) + "}"@,
        json_optional_string(b.username_fragment) + "}"@,
    );
    let (x6, y6) = (k4 + x7, k4 + y7);
    let (x5, y5) = (
        json_optional_number(a.sdp_mline_index) + x6,
        json_optional_number(b.sdp_mline_index) + y6,
    );
    let (x4, y4) = (k3 + x5, k3 + y5);
    let (x3, y3) = (json_optional_string(a.sdp_mid) + x4, json_optional_string(b.sdp_mid) + y4);
    let (x2, y2) = (k2 + x3, k2 + y3);
    let (x1, y1) = (json_string(a.candidate) + x2, json_string(b.candidate) + y2);
    lemma_candidate_regrouped(a);
    lemma_candidate_regrouped(b);
    lemma_cut(k1, k1, x1, y1);
    lemma_json_string(a.candidate, b.candidate, x2, y2);
    lemma_cut(k2, k2, x3, y3);
    lemma_json_optional_string(a.sdp_mid, b.sdp_mid, x4, y4);
    lemma_cut(k3, k3, x5, y5);
    lemma_json_optional_number(a.sdp_mline_index, b.sdp_mline_index, x6, y6);
    lemma_cut(k4, k4, x7, y7);
    lemma_json_optional_string(a.username_fragment, b.username_fragment, "}"@, "}"@);
}

proof fn lemma_description_json(a: SessionDescriptionView, b: SessionDescriptionView)
    requires
        description_json(a) == description_json(b),
    ensures
        a == b,
{
    let (k1, k2) = ("{\"type\":\""@, "\",\"sdp\":"@);
    let rest2 = |d: SessionDescriptionView| json_string(d.sdp) + "}"@;
    let rest1 = |d: SessionDescriptionView| d.sdp_type.word() + (k2 + rest2(d));
    assert(description_json(a) =~= k1 + rest1(a));
    assert(description_json(b) =~= k1 + rest1(b));
    lemma_cut(k1, k1, rest1(a), rest1(b));
    reveal_strlit("Unspecified");
    reveal_strlit("offer");
    reveal_strlit("pranswer");
    reveal_strlit("answer");
    reveal_strlit("rollback");
    assert(rest1(a)[0] == a.sdp_type.word()[0]);
    assert(rest1(b)[0] == b.sdp_type.word()[0]);
    assert(a.sdp_type == b.sdp_type);
    lemma_cut(a.sdp_type.word(), b.sdp_type.word(), k2 + rest2(a), k2 + rest2(b));
    lemma_cut(k2, k2, rest2(a), rest2(b));
    lemma_json_string(a.sdp, b.sdp, "}"@, "}"@);
}

proof fn lemma_frame(kind: Seq<char>, x: Seq<char>, y: Seq<char>)
    requires
        frame(kind, x) == frame(kind, y),
    ensures
        x == y,
{
    let head = "{\""@ + kind + "\":"@;
    assert(frame(kind, x) =~= head + (x + "}"@));
    assert(frame(kind, y) =~= head + (y + "}"@));
    lemma_cut(head, head, x + "}"@, y + "}"@);
    lemma_cut(x, y, "}"@, "}"@);
}

proof fn lemma_framed_text(kind: &str, open: &str, key: &str, whole: &str, rest: Seq<char>)
    requires
        "{\""@ + kind@ + "\":"@ == open@,
        open@ + key@ == whole@,
    ensures
        frame(kind@, key@ + rest) == whole@ + (rest + "}"@),
        open@.is_prefix_of(frame(kind@, key@ + rest)),
{
    assert(frame(kind@, key@ + rest) =~= whole@ + (rest + "}"@));
    assert(frame(kind@, key@ + rest).subrange(0, open@.len() as int) =~= open@);
}

/// The text of an answer starts with `{"answer":` and that of an offer with `{"offer":`, whatever
/// they carry. Inside stand the type, by its word, and the description as a JSON string, and
/// nothing else.
pub proof fn law_description_texts(d: SessionDescriptionView)
    ensures
        "{\"answer\":"@.is_prefix_of(signal_text(SignalView::Answer(d))),
        "{\"offer\":"@.is_prefix_of(signal_text(SignalView::Offer(d))),
        ({
            let word = match d.sdp_type {
                SdpType::Offer => "offer"@,
                SdpType::Answer => "answer"@,
                SdpType::Pranswer => "pranswer"@,
                SdpType::Rollback => "rollback"@,
                SdpType::Unspecified => "Unspecified"@,
            };
            let inside = word + "\",\"sdp\":"@ + json_string(d.sdp);
            &&& signal_text(SignalView::Answer(d)) == "{\"answer\":{\"type\":\""@ + inside + "}}"@
            &&& signal_text(SignalView::Offer(d)) == "{\"offer\":{\"type\":\""@ + inside + "}}"@
        }),
{
    reveal_strlit("{\"");
    reveal_strlit("\":");
    reveal_strlit("answer");
    reveal_strlit("offer");
    reveal_strlit("{\"answer\":");
    reveal_strlit("{\"offer\":");
    reveal_strlit("{\"type\":\"");
    reveal_strlit("{\"answer\":{\"type\":\"");
    reveal_strlit("{\"offer\":{\"type\":\"");
    reveal_strlit("}");
    reveal_strlit("}}");
    let inside = d.sdp_type.word() + "\",\"sdp\":"@ + json_string(d.sdp);
    assert(description_json(d) =~= "{\"type\":\""@ + (inside + "}"@));
    assert("{\""@ + "answer"@ + "\":"@ =~= "{\"answer\":"@);
    assert("{\"answer\":"@ + "{\"type\":\""@ =~= "{\"answer\":{\"type\":\""@);
    assert("{\""@ + "offer"@ + "\":"@ =~= "{\"offer\":"@);
    assert("{\"offer\":"@ + "{\"type\":\""@ =~= "{\"offer\":{\"type\":\""@);
    lemma_framed_text(
        "answer",
        "{\"answer\":",
        "{\"type\":\"",
        "{\"answer\":{\"type\":\"",
        inside + "}"@,
    );
    lemma_framed_text(
        "offer",
        "{\"offer\":",
        "{\"type\":\"",
        "{\"offer\":{\"type\":\"",
        inside + "}"@,
    );
    assert("}"@ + "}"@ =~= "}}"@);
    assert(inside + "}"@ + "}"@ =~= inside + "}}"@);
    assert("{\"answer\":{\"type\":\""@ + (inside + "}}"@) =~= "{\"answer\":{\"type\":\""@ + inside
        + "}}"@);
    assert("{\"offer\":{\"type\":\""@ + (inside + "}}"@) =~= "{\"offer\":{\"type\":\""@ + inside
        + "}}"@);
}

/// The text of a candidate starts with `{"ice":`, whatever it carries. Inside stand its four
/// fields, each text as a JSON string, the number in decimal, and `null` for what is not there,
/// and nothing else.
pub proof fn law_candidate_text(c: IceCandidateInitView)
    ensures
        "{\"ice\":"@.is_prefix_of(signal_text(SignalView::Ice(c))),
        ({
            let mid = match c.sdp_mid {
                Some(s) => json_string(s),
                None => "null"@,
            };
            let index = match c.sdp_mline_index {
                Some(n) => decimal(n as nat),
                None => "null"@,
            };
            let fragment = match c.username_fragment {
                Some(s) => json_string(s),
                None => "null"@,
            };
            let inside = json_string(c.candidate) + ",\"sdpMid\":"@ + mid + ",\"sdpMLineIndex\":"@
                + index + ",\"usernameFragment\":"@ + fragment;
            signal_text(SignalView::Ice(c)) == "{\"ice\":{\"candidate\":"@ + inside + "}}"@
        }),
{
    reveal_strlit("{\"");
    reveal_strlit("\":");
    reveal_strlit("ice");
    reveal_strlit("{\"ice\":");
    reveal_strlit("{\"candidate\":");
    reveal_strlit("{\"ice\":{\"candidate\":");
    reveal_strlit("}");
    reveal_strlit("}}");
    let s1 = json_string(c.candidate);
    let s2 = s1 + ",\"sdpMid\":"@;
    let s3 = s2 + json_optional_string(c.sdp_mid);
    let s4 = s3 + ",\"sdpMLineIndex\":"@;
    let s5 = s4 + json_optional_number(c.sdp_mline_index);
    let s6 = s5 + ",\"usernameFragment\":"@;
    let inside = s6 + json_optional_string(c.username_fragment);
    let key = "{\"candidate\":"@;
    lemma_regrouped(key, s1, ",\"sdpMid\":"@);
    lemma_regrouped(key, s2, json_optional_string(c.sdp_mid));
    lemma_regrouped(key, s3, ",\"sdpMLineIndex\":"@);
    lemma_regrouped(key, s4, json_optional_number(c.sdp_mline_index));
    lemma_regrouped(key, s5, ",\"usernameFragment\":"@);
    lemma_regrouped(key, s6, json_optional_string(c.username_fragment));
    lemma_regrouped(key, inside, "}"@);
    assert("{\""@ + "ice"@ + "\":"@ =~= "{\"ice\":"@);
    assert("{\"ice\":"@ + "{\"candidate\":"@ =~= "{\"ice\":{\"candidate\":"@);
    lemma_framed_text(
        "ice",
        "{\"ice\":",
        "{\"candidate\":",
        "{\"ice\":{\"candidate\":",
        inside + "}"@,
    );
    assert("}"@ + "}"@ =~= "}}"@);
    lemma_regrouped(inside, "}"@, "}"@);
    lemma_regrouped("{\"ice\":{\"candidate\":"@, inside, "}}"@);
}

/// The text of a message tells which kind of message it is: texts of different kinds differ,
/// whatever they carry.
pub proof fn law_kinds_differ(a: SignalView, b: SignalView)
    requires
        signal_text(a) == signal_text(b),
    ensures
        a is Ice <==> b is Ice,
        a is Answer <==> b is Answer,
        a is Offer <==> b is Offer,
{
    reveal_strlit("{\"");
    reveal_strlit("ice");
    reveal_strlit("answer");
    reveal_strlit("offer");
    assert(signal_text(a)[2] == (match a {
        SignalView::Ice(_) => 'i',
        SignalView::Answer(_) => 'a',
        SignalView::Offer(_) => 'o',
    }));
    assert(signal_text(b)[2] == (match b {
        SignalView::Ice(_) => 'i',
        SignalView::Answer(_) => 'a',
        SignalView::Offer(_) => 'o',
    }));
}

/// A text determines the message that it carries, its kind and all that is in it: no two messages
/// have the same text.
pub proof fn law_text_determines_signal(a: SignalView, b: SignalView)
    requires
        signal_text(a) == signal_text(b),
    ensures
        a == b,
{
    law_kinds_differ(a, b);
    match (a, b) {
        (SignalView::Ice(c), SignalView::Ice(d)) => {
            lemma_frame("ice"@, candidate_json(c), candidate_json(d));
            lemma_candidate_json(c, d);
        },
        (SignalView::Answer(c), SignalView::Answer(d)) => {
            lemma_frame("answer"@, description_json(c), description_json(d));
            lemma_description_json(c, d);
        },
        (SignalView::Offer(c), SignalView::Offer(d)) => {
            lemma_frame("offer"@, description_json(c), description_json(d));
            lemma_description_json(c, d);
        },
        _ => {},
    }
}

/// The message that was written as `text`, if there is one.
pub open spec fn signal_of(text: Seq<char>) -> Option<SignalView> {
    if exists|s: SignalView| text == #[trigger] signal_text(s) {
        Some(choose|s: SignalView| text == #[trigger] signal_text(s))
    } else {
        None
    }
}

/// The text of a message leads back to this message, and to no other.
pub proof fn law_text_leads_back(s: SignalView)
    ensures
        signal_of(signal_text(s)) == Some(s),
{
    let t = choose|t: SignalView| signal_text(s) == #[trigger] signal_text(t);
    law_text_determines_signal(s, t);
}

} // verus!
