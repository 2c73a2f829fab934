//! The peer: what it remembers, and every decision that it makes.

use crate::protocol::{
    Action, ActionView, Finish, FinishView, Procedure, ProcedureView, Reply, ReplyView, Step,
    StepView,
};
use crate::receiving::{
    candidates, receive, received, receiving_resumed, resume_receiving, Incoming,
};
use crate::requests::{
    request, request_resumed, request_step, resume_request, Requesting, RequestingView,
};
use crate::signal::{
    candidate_init_of, signal_text, IceCandidate, IceCandidateInit, IceCandidateInitView,
    IceCandidateView, SessionDescription, Signal, SignalView,
};
use crate::startup::{resume_start_up, start_up_resumed, started, StartUp};
use std::sync::Arc;
use vstd::prelude::*;

verus! {

/// A peer: the candidates that it keeps back until the other peer can use them, and its data
/// channel, a shared value of type `C`, while it has one.
#[derive(Debug)]
pub struct SignalingServer<C> {
    pending_candidates: Vec<IceCandidateInit>,
    channel: Option<Arc<C>>,
}

/// A [`SignalingServer`] by what it holds.
pub struct ServerView<C> {
    pub pending: Seq<IceCandidateInitView>,
    pub channel: Option<Arc<C>>,
}

impl<C> View for SignalingServer<C> {
    type V = ServerView<C>;

    closed spec fn view(&self) -> ServerView<C> {
        ServerView { pending: candidates(self.pending_candidates@), channel: self.channel }
    }
}

/// A peer that has just started.
pub open spec fn fresh<C>() -> ServerView<C> {
    ServerView { pending: Seq::empty(), channel: None }
}

/// What comes of a gathered candidate, or of the end of gathering: a candidate that has no form
/// to be sent in stops the task that gathers.
pub open spec fn gathered<C, E>(candidate: Option<IceCandidateView>) -> StepView<C, E> {
    match candidate {
        Some(c) => match candidate_init_of(c) {
            Some(init) => StepView::Perform(
                ProcedureView::Gathered(init),
                ActionView::HasRemoteDescription,
            ),
            None => StepView::Finished(FinishView::Unsendable),
        },
        None => StepView::Finished(FinishView::Done),
    }
}

/// What comes of a text for the other peer: it is sent on the data channel that the peer has, and
/// dropped where it has none.
pub open spec fn message_sent<C, E>(s: ServerView<C>, data: Seq<char>) -> StepView<C, E> {
    match s.channel {
        Some(c) => request_step(
            RequestingView::SendingMessage,
            ActionView::SendOnChannel(c, data),
        ),
        None => StepView::Finished(FinishView::Done),
    }
}

/// How a procedure goes on after the reply to its last action, and what the peer remembers then.
///
/// Only two things are ever remembered: a gathered candidate, where the other peer cannot use it
/// yet, and the data channel that was opened for an offer.
pub open spec fn resumed<C, E>(s: ServerView<C>, p: ProcedureView, reply: ReplyView<C, E>) -> (
    ServerView<C>,
    StepView<C, E>,
) {
    match (p, reply) {
        (ProcedureView::StartUp(p), _) => (s, start_up_resumed(p, reply)),
        (ProcedureView::Receiving(p), _) => (s, receiving_resumed(s.pending, p, reply)),
        (ProcedureView::Gathered(c), ReplyView::Present(true)) => (
            s,
            StepView::Perform(
                ProcedureView::SendingCandidate,
                ActionView::SendText(signal_text(SignalView::Ice(c))),
            ),
        ),
        (ProcedureView::Gathered(c), ReplyView::Present(false)) => (
            ServerView { pending: s.pending.push(c), ..s },
            StepView::Finished(FinishView::Done),
        ),
        (ProcedureView::SendingCandidate, ReplyView::Done) => (
            s,
            StepView::Finished(FinishView::Done),
        ),
        (ProcedureView::SendingCandidate, ReplyView::Failed(e)) => (
            s,
            StepView::Finished(FinishView::Reported(e)),
        ),
        (
            ProcedureView::Requesting(RequestingView::OpeningChannel),
            ReplyView::Channel(c),
        ) => (
            ServerView { channel: Some(c), ..s },
            request_step(RequestingView::MakingOffer, ActionView::CreateOffer),
        ),
        (ProcedureView::Requesting(p), _) => (s, request_resumed(p, reply)),
        _ => (s, StepView::Finished(FinishView::Mismatched)),
    }
}

impl<C> SignalingServer<C> {
    /// Starts a peer that talks to the other one through the web socket at `ws_url`.
    pub fn new<E>(ws_url: &str) -> (r: (Self, Step<C, E>))
        ensures
            r.0@ == fresh::<C>(),
            r.1@ == started::<C, E>(ws_url@),
            r.0@.pending.len() == 0,
            r.0@.channel is None,
            r.1 matches Step::Perform(_, Action::Connect(url)) && url@ == ws_url@,
    {
        let server = SignalingServer {
            pending_candidates: Vec::with_capacity(10),
            channel: None,
        };
        assert(server@.pending =~= Seq::empty());
        (
            server,
            Step::Perform(
                Procedure::StartUp(StartUp::Connecting),
                Action::Connect(ws_url.to_owned()),
            ),
        )
    }

    /// The data channel, while there is one.
    pub fn channel(&self) -> (r: Option<&Arc<C>>)
        ensures
            match r {
                Some(c) => self@.channel == Some(*c),
                None => self@.channel is None,
            },
    {
        match &self.channel {
            Some(c) => Some(c),
            None => None,
        }
    }

    /// Takes what comes out of the web socket.
    pub fn receive<E>(&self, incoming: Incoming) -> (r: Step<C, E>)
        ensures
            r@ == received::<C, E>(incoming@),
    {
        receive(incoming)
    }

    /// Takes a candidate that the peer connection gathered; `None` says that it has gathered
    /// all of them.
    pub fn on_ice_candidate<E>(&self, candidate: Option<IceCandidate>) -> (r: Step<C, E>)
        requires
            candidate matches Some(c) ==> c@.has_priority(),
        ensures
            r@ == gathered::<C, E>(
                match candidate {
                    Some(c) => Some(c@),
                    None => None,
                },
            ),
            candidate is None ==> r == Step::<C, E>::Finished(Finish::Done),
    {
        match candidate {
            Some(c) => match c.to_json() {
                Some(init) => Step::Perform(
                    Procedure::Gathered(init),
                    Action::HasRemoteDescription,
                ),
                None => Step::Finished(Finish::Unsendable),
            },
            None => Step::Finished(Finish::Done),
        }
    }

    /// Takes a data channel that the other peer opened: it takes the place of any other.
    pub fn on_data_channel(&mut self, channel: Arc<C>)
        ensures
            final(self)@ == (ServerView { channel: Some(channel), ..old(self)@ }),
    {
        self.channel = Some(channel);
    }

    /// Takes notice that a data channel was closed.
    pub fn on_close(&mut self)
        ensures
            final(self)@ == (ServerView { channel: None, ..old(self)@ }),
    {
        self.channel = None;
    }

    /// Sends a text over the data channel.
    pub fn send_message<E>(&self, data: &str) -> (r: Step<C, E>)
        ensures
            r@ == message_sent::<C, E>(self@, data@),
            self@.channel matches Some(c) ==> (r matches Step::Perform(
                _,
                Action::SendOnChannel(d, text),
            ) && d == c && text@ == data@),
            self@.channel is None ==> r == Step::<C, E>::Finished(Finish::Done),
    {
        match &self.channel {
            Some(c) => request(
                Requesting::SendingMessage,
                Action::SendOnChannel(c.clone(), data.to_owned()),
            ),
            None => Step::Finished(Finish::Done),
        }
    }

    /// Closes the peer connection. The peer is given up.
    pub fn stop_stream<E>(self) -> (r: Step<C, E>)
        ensures
            r@ == request_step::<C, E>(RequestingView::Closing, ActionView::Close),
            r matches Step::Perform(_, Action::Close),
    {
        request(Requesting::Closing, Action::Close)
    }

    /// Makes an offer and keeps it as the local description.
    pub fn create_offer<E>(&self) -> (r: Step<C, E>)
        ensures
            r@ == request_step::<C, E>(RequestingView::CreatingOffer, ActionView::CreateOffer),
            r matches Step::Perform(_, Action::CreateOffer),
    {
        request(Requesting::CreatingOffer, Action::CreateOffer)
    }

    /// Opens a data channel and sends an offer for it.
    pub fn send_offer<E>(&self) -> (r: Step<C, E>)
        ensures
            r@ == request_step::<C, E>(
                RequestingView::OpeningChannel,
                ActionView::CreateDataChannel("data"@),
            ),
            r matches Step::Perform(_, Action::CreateDataChannel(label)) && label@ == "data"@,
    {
        request(Requesting::OpeningChannel, Action::CreateDataChannel("data".to_owned()))
    }

    /// Takes an offer, makes an answer to it, and keeps the answer as the local description.
    pub fn create_answer<E>(&self, offer: SessionDescription) -> (r: Step<C, E>)
        ensures
            r@ == request_step::<C, E>(
                RequestingView::TakingOffer,
                ActionView::SetRemoteDescription(offer@),
            ),
            r matches Step::Perform(_, Action::SetRemoteDescription(d)) && d == offer,
    {
        request(Requesting::TakingOffer, Action::SetRemoteDescription(offer))
    }

    /// Takes the answer to an offer.
    pub fn accept_answer<E>(&self, answer: SessionDescription) -> (r: Step<C, E>)
        ensures
            r@ == request_step::<C, E>(
                RequestingView::TakingAnswer,
                ActionView::SetRemoteDescription(answer@),
            ),
            r matches Step::Perform(_, Action::SetRemoteDescription(d)) && d == answer,
    {
        request(Requesting::TakingAnswer, Action::SetRemoteDescription(answer))
    }

    /// Goes on with a procedure after the reply to its last action.
    pub fn resume<E>(&mut self, procedure: Procedure, reply: Reply<C, E>) -> (r: Step<C, E>)
        ensures
            (final(self)@, r@) == resumed(old(self)@, procedure@, reply@),
    {
        match (procedure, reply) {
            (Procedure::StartUp(p), reply) => resume_start_up(p, reply),
            (Procedure::Receiving(p), reply) => resume_receiving(
                &self.pending_candidates,
                p,
                reply,
            ),
            (Procedure::Gathered(c), Reply::Present(true)) => {
                let text = Signal::Ice(c).encode();
                Step::Perform(Procedure::SendingCandidate, Action::SendText(text))
            },
            (Procedure::Gathered(c), Reply::Present(false)) => {
                let ghost before = self.pending_candidates@;
                let ghost added = c@;
                self.pending_candidates.push(c);
                assert(candidates(self.pending_candidates@) =~= candidates(before).push(added));
                Step::Finished(Finish::Done)
            },
            (Procedure::SendingCandidate, Reply::Done) => Step::Finished(Finish::Done),
            (Procedure::SendingCandidate, Reply::Failed(e)) => Step::Finished(Finish::Reported(e)),
            (Procedure::Requesting(Requesting::OpeningChannel), Reply::Channel(c)) => {
                self.channel = Some(c);
                request(Requesting::MakingOffer, Action::CreateOffer)
            },
            (Procedure::Requesting(p), reply) => resume_request(p, reply),
            _ => Step::Finished(Finish::Mismatched),
        }
    }
}

} // verus!
