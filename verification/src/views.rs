//! A view shows all that a value holds, and shows it as what it is.

use crate::command::{Command, CommandView};
use crate::config::{
    Credentials, CredentialsView, IceServer, Options, RtcConfig,
};
use crate::protocol::{Action, ActionView, Finish, FinishView, Reply, ReplyView, Step, StepView};
use crate::receiving::{Incoming, IncomingView};
use crate::signal::{
    IceCandidate, IceCandidateInit, SessionDescription, Signal, SignalView,
};
use vstd::prelude::*;

verus! {

/// A description is its type and its text.
pub proof fn law_description_is_shown(d: SessionDescription)
    ensures
        d@.sdp_type == d.sdp_type,
        d@.sdp == d.sdp@,
{
}

/// A candidate as it is sent is its four values; what is not there is shown as such.
pub proof fn law_candidate_init_is_shown(c: IceCandidateInit)
    ensures
        c@.candidate == c.candidate@,
        c.sdp_mid matches Some(s) ==> c@.sdp_mid == Some(s@),
        c.sdp_mid is None ==> c@.sdp_mid is None,
        c@.sdp_mline_index == c.sdp_mline_index,
        c.username_fragment matches Some(s) ==> c@.username_fragment == Some(s@),
        c.username_fragment is None ==> c@.username_fragment is None,
{
}

/// A gathered candidate is its nine values.
pub proof fn law_candidate_is_shown(c: IceCandidate)
    ensures
        c@.foundation == c.foundation@,
        c@.component == c.component,
        c@.protocol == c.protocol,
        c@.priority == c.priority,
        c@.address == c.address@,
        c@.port == c.port,
        c@.typ == c.typ,
        c@.related_address == c.related_address@,
        c@.related_port == c.related_port,
{
}

/// A message is of one kind, and is what it carries.
pub proof fn law_signal_is_shown(s: Signal)
    ensures
        s matches Signal::Ice(c) ==> s@ == SignalView::Ice(c@),
        s matches Signal::Answer(d) ==> s@ == SignalView::Answer(d@),
        s matches Signal::Offer(d) ==> s@ == SignalView::Offer(d@),
{
}

/// A command is of one kind, and a text to be sent is shown as it is.
pub proof fn law_command_is_shown(c: Command)
    ensures
        c matches Command::Send(data) ==> c@ == CommandView::Send(data@),
        c is Offer <==> c@ is Offer,
        c is Exit <==> c@ is Exit,
        c is Nothing <==> c@ is Nothing,
{
}

/// The options are a user name, a password, and whether the relay is asked for.
pub proof fn law_options_are_shown(o: Options)
    ensures
        o@.username == o.username@,
        o@.password == o.password@,
        o@.relay == o.relay,
{
}

/// Credentials are none, or a user name and a password.
pub proof fn law_credentials_are_shown(c: Credentials)
    ensures
        c is Anonymous ==> c@ is Anonymous,
        c matches Credentials::Password { username, password } ==> c@
            == (CredentialsView::Password { username: username@, password: password@ }),
{
}

/// A set-up is its servers, in order, each with its address and its credentials, and its policy.
pub proof fn law_config_is_shown(c: RtcConfig, s: IceServer)
    ensures
        s@.url == s.url@,
        s@.credentials == s.credentials@,
        c@.policy == c.policy,
        c@.ice_servers.len() == c.ice_servers@.len(),
        forall|i: int|
            0 <= i < c.ice_servers@.len() ==> #[trigger] c@.ice_servers[i] == c.ice_servers@[i]@,
{
}

/// What comes in is of one kind, and its text or its bytes are shown as they are.
pub proof fn law_incoming_is_shown(i: Incoming)
    ensures
        i matches Incoming::Text(text) ==> i@ == IncomingView::Text(text@),
        i matches Incoming::Binary(bytes) ==> i@ == IncomingView::Binary(bytes@),
        i is Other <==> i@ is Other,
        i is Failed <==> i@ is Failed,
        i is Ended <==> i@ is Ended,
{
}

/// An action is of one kind, and what it is to be done with is shown as it is.
pub proof fn law_action_is_shown<C>(a: Action<C>)
    ensures
        a matches Action::Connect(url) ==> a@ == ActionView::<C>::Connect(url@),
        a is RegisterCodecs <==> a@ is RegisterCodecs,
        a is RegisterInterceptors <==> a@ is RegisterInterceptors,
        a is ReadArguments <==> a@ is ReadArguments,
        a matches Action::OpenPeerConnection(o, c) ==> a@ == ActionView::<C>::OpenPeerConnection(
            o@,
            c@,
        ),
        a matches Action::DecodeIce(t) ==> a@ == ActionView::<C>::DecodeIce(t@),
        a matches Action::DecodeAnswer(t) ==> a@ == ActionView::<C>::DecodeAnswer(t@),
        a matches Action::DecodeOffer(t) ==> a@ == ActionView::<C>::DecodeOffer(t@),
        a is HasRemoteDescription <==> a@ is HasRemoteDescription,
        a is HasLocalDescription <==> a@ is HasLocalDescription,
        a matches Action::AddIceCandidate(c) ==> a@ == ActionView::<C>::AddIceCandidate(c@),
        a matches Action::SetRemoteDescription(d) ==> a@ == ActionView::<C>::SetRemoteDescription(
            d@,
        ),
        a matches Action::SetLocalDescription(d) ==> a@ == ActionView::<C>::SetLocalDescription(
            d@,
        ),
        a is CreateOffer <==> a@ is CreateOffer,
        a is CreateAnswer <==> a@ is CreateAnswer,
        a matches Action::CreateDataChannel(label) ==> a@ == ActionView::<C>::CreateDataChannel(
            label@,
        ),
        a is AcceptDataChannels <==> a@ is AcceptDataChannels,
        a is HoldSender <==> a@ is HoldSender,
        a matches Action::SendText(t) ==> a@ == ActionView::<C>::SendText(t@),
        a matches Action::SendOnChannel(c, t) ==> a@ == ActionView::<C>::SendOnChannel(c, t@),
        a is Close <==> a@ is Close,
{
}

/// A reply is of one kind, and what came of the action is shown as it is.
pub proof fn law_reply_is_shown<C, E>(r: Reply<C, E>)
    ensures
        r is Done <==> r@ is Done,
        r matches Reply::Failed(e) ==> r@ == ReplyView::<C, E>::Failed(e),
        r matches Reply::Present(b) ==> r@ == ReplyView::<C, E>::Present(b),
        r matches Reply::Described(d) ==> r@ == ReplyView::<C, E>::Described(d@),
        r matches Reply::Ice(Some(c)) ==> r@ == ReplyView::<C, E>::Ice(Some(c@)),
        r matches Reply::Ice(None) ==> r@ == ReplyView::<C, E>::Ice(None),
        r matches Reply::Description(Some(d)) ==> r@ == ReplyView::<C, E>::Description(Some(d@)),
        r matches Reply::Description(None) ==> r@ == ReplyView::<C, E>::Description(None),
        r matches Reply::Arguments(args) ==> (r@ matches ReplyView::Arguments(words) && words.len()
            == args@.len() && forall|i: int|
            0 <= i < args@.len() ==> #[trigger] words[i] == args@[i]@),
        r matches Reply::Channel(c) ==> r@ == ReplyView::<C, E>::Channel(c),
{
}

/// An end is of one kind, and its error or its description is shown as it is.
pub proof fn law_finish_is_shown<C, E>(f: Finish<E>, s: Step<C, E>)
    ensures
        f is Done <==> f@ is Done,
        f matches Finish::Described(d) ==> f@ == FinishView::<E>::Described(d@),
        f matches Finish::Failed(e) ==> f@ == FinishView::<E>::Failed(e),
        f matches Finish::Aborted(e) ==> f@ == FinishView::<E>::Aborted(e),
        f matches Finish::Reported(e) ==> f@ == FinishView::<E>::Reported(e),
        f is Unsendable <==> f@ is Unsendable,
        f matches Finish::Unusable(e) ==> f@ == FinishView::<E>::Unusable(e),
        f is Closed <==> f@ is Closed,
        f is Mismatched <==> f@ is Mismatched,
        s matches Step::Perform(p, a) ==> s@ == StepView::<C, E>::Perform(p@, a@),
        s matches Step::Finished(g) ==> s@ == StepView::<C, E>::Finished(g@),
{
}

} // verus!
