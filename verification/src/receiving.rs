//! What a peer does with a message that comes in on the web socket.

use crate::protocol::{
    Action, ActionView, Finish, FinishView, Procedure, ProcedureView, Reply, ReplyView, Step,
    StepView,
};
use crate::signal::{
    signal_text, IceCandidateInit, IceCandidateInitView, SessionDescription,
    SessionDescriptionView, Signal, SignalView,
};
use crate::text::{decode_text, utf8_text};
use vstd::prelude::*;

verus! {

/// What comes out of the web socket.
#[derive(Debug)]
pub enum Incoming {
    /// A message of text.
    Text(String),
    /// A message of bytes.
    Binary(Vec<u8>),
    /// A message of another kind.
    Other,
    /// An error.
    Failed,
    /// The end.
    Ended,
}

/// An [`Incoming`] by what it holds.
pub enum IncomingView {
    Text(Seq<char>),
    Binary(Seq<u8>),
    Other,
    Failed,
    Ended,
}

impl View for Incoming {
    type V = IncomingView;

    open spec fn view(&self) -> IncomingView {
        match self {
            Incoming::Text(text) => IncomingView::Text(text@),
            Incoming::Binary(bytes) => IncomingView::Binary(bytes@),
            Incoming::Other => IncomingView::Other,
            Incoming::Failed => IncomingView::Failed,
            Incoming::Ended => IncomingView::Ended,
        }
    }
}

/// What the handling of a message waits for.
#[derive(Debug)]
pub enum Receiving {
    /// The text, if it is an ICE candidate. The text is kept for the next try.
    DecodingIce(String),
    /// The text, if it is an answer. The text is kept for the next try.
    DecodingAnswer(String),
    /// The text, if it is an offer.
    DecodingOffer,
    /// Whether there is a remote description that this candidate can belong to.
    CheckingRemote(IceCandidateInit),
    /// The candidate to be added.
    AddingCandidate,
    /// The web socket, before this answer is looked at.
    HoldingForAnswer(SessionDescription),
    /// Whether there is a local description that this answer can belong to.
    CheckingLocal(SessionDescription),
    /// The answer to become the remote description.
    ApplyingAnswer,
    /// The web socket, before this offer is looked at.
    HoldingForOffer(SessionDescription),
    /// Data channels to be accepted, before this offer is applied.
    AcceptingChannels(SessionDescription),
    /// The offer to become the remote description.
    ApplyingOffer,
    /// An answer to the offer.
    Answering,
    /// This answer to be sent.
    SendingAnswer(SessionDescription),
    /// The answer to become the local description.
    StoringAnswer,
    /// A candidate that was kept back to be sent; these are to follow.
    Flushing(Vec<IceCandidateInit>),
}

/// A [`Receiving`] by what it holds.
pub enum ReceivingView {
    DecodingIce(Seq<char>),
    DecodingAnswer(Seq<char>),
    DecodingOffer,
    CheckingRemote(IceCandidateInitView),
    AddingCandidate,
    HoldingForAnswer(SessionDescriptionView),
    CheckingLocal(SessionDescriptionView),
    ApplyingAnswer,
    HoldingForOffer(SessionDescriptionView),
    AcceptingChannels(SessionDescriptionView),
    ApplyingOffer,
    Answering,
    SendingAnswer(SessionDescriptionView),
    StoringAnswer,
    Flushing(Seq<IceCandidateInitView>),
}

/// The candidates in a list.
pub open spec fn candidates(v: Seq<IceCandidateInit>) -> Seq<IceCandidateInitView> {
    v.map_values(|c: IceCandidateInit| c@)
}

impl View for Receiving {
    type V = ReceivingView;

    open spec fn view(&self) -> ReceivingView {
        match self {
            Receiving::DecodingIce(text) => ReceivingView::DecodingIce(text@),
            Receiving::DecodingAnswer(text) => ReceivingView::DecodingAnswer(text@),
            Receiving::DecodingOffer => ReceivingView::DecodingOffer,
            Receiving::CheckingRemote(c) => ReceivingView::CheckingRemote(c@),
            Receiving::AddingCandidate => ReceivingView::AddingCandidate,
            Receiving::HoldingForAnswer(d) => ReceivingView::HoldingForAnswer(d@),
            Receiving::CheckingLocal(d) => ReceivingView::CheckingLocal(d@),
            Receiving::ApplyingAnswer => ReceivingView::ApplyingAnswer,
            Receiving::HoldingForOffer(d) => ReceivingView::HoldingForOffer(d@),
            Receiving::AcceptingChannels(d) => ReceivingView::AcceptingChannels(d@),
            Receiving::ApplyingOffer => ReceivingView::ApplyingOffer,
            Receiving::Answering => ReceivingView::Answering,
            Receiving::SendingAnswer(d) => ReceivingView::SendingAnswer(d@),
            Receiving::StoringAnswer => ReceivingView::StoringAnswer,
            Receiving::Flushing(queue) => ReceivingView::Flushing(candidates(queue@)),
        }
    }
}

/// The step of a message handling that goes on as `p` after `a`.
pub open spec fn receiving_step<C, E>(p: ReceivingView, a: ActionView<C>) -> StepView<C, E> {
    StepView::Perform(ProcedureView::Receiving(p), a)
}

/// A text is taken for a candidate first.
pub open spec fn text_received<C, E>(text: Seq<char>) -> StepView<C, E> {
    receiving_step(ReceivingView::DecodingIce(text), ActionView::DecodeIce(text))
}

/// The first step for what comes out of the web socket. Bytes count as the text that they
/// encode; bytes that encode none, and messages of another kind, are skipped.
pub open spec fn received<C, E>(incoming: IncomingView) -> StepView<C, E> {
    match incoming {
        IncomingView::Text(text) => text_received(text),
        IncomingView::Binary(bytes) => match utf8_text(bytes) {
            Some(text) => text_received(text),
            None => StepView::Finished(FinishView::Done),
        },
        IncomingView::Other => StepView::Finished(FinishView::Done),
        IncomingView::Failed => StepView::Finished(FinishView::Closed),
        IncomingView::Ended => StepView::Finished(FinishView::Closed),
    }
}

/// The candidates in `queue` are sent one after the other.
pub open spec fn flushed<C, E>(queue: Seq<IceCandidateInitView>) -> StepView<C, E> {
    if queue.len() == 0 {
        StepView::Finished(FinishView::Done)
    } else {
        receiving_step(
            ReceivingView::Flushing(queue.drop_first()),
            ActionView::SendText(signal_text(SignalView::Ice(queue.first()))),
        )
    }
}

/// How the handling of a message goes on, where `pending` are the candidates that were kept
/// back.
pub open spec fn receiving_resumed<C, E>(
    pending: Seq<IceCandidateInitView>,
    p: ReceivingView,
    reply: ReplyView<C, E>,
) -> StepView<C, E> {
    match (p, reply) {
        // The text is tried as a candidate, then as an answer, then as an offer.
        (ReceivingView::DecodingIce(_), ReplyView::Ice(Some(c))) => receiving_step(
            ReceivingView::CheckingRemote(c),
            ActionView::HasRemoteDescription,
        ),
        (ReceivingView::DecodingIce(text), ReplyView::Ice(None)) => receiving_step(
            ReceivingView::DecodingAnswer(text),
            ActionView::DecodeAnswer(text),
        ),
        (ReceivingView::DecodingAnswer(_), ReplyView::Description(Some(d))) => receiving_step(
            ReceivingView::HoldingForAnswer(d),
            ActionView::HoldSender,
        ),
        (ReceivingView::DecodingAnswer(text), ReplyView::Description(None)) => receiving_step(
            ReceivingView::DecodingOffer,
            ActionView::DecodeOffer(text),
        ),
        (ReceivingView::DecodingOffer, ReplyView::Description(Some(d))) => receiving_step(
            ReceivingView::HoldingForOffer(d),
            ActionView::HoldSender,
        ),
        (ReceivingView::DecodingOffer, ReplyView::Description(None)) => StepView::Finished(
            FinishView::Done,
        ),
        // A candidate is of use only once there is a remote description; that it cannot be
        // added is reported, and does no harm.
        (ReceivingView::CheckingRemote(c), ReplyView::Present(true)) => receiving_step(
            ReceivingView::AddingCandidate,
            ActionView::AddIceCandidate(c),
        ),
        (ReceivingView::CheckingRemote(_), ReplyView::Present(false)) => StepView::Finished(
            FinishView::Done,
        ),
        (ReceivingView::AddingCandidate, ReplyView::Done) => StepView::Finished(FinishView::Done),
        (ReceivingView::AddingCandidate, ReplyView::Failed(e)) => StepView::Finished(
            FinishView::Reported(e),
        ),
        // An answer is applied only where something was offered. The candidates that were kept
        // back follow either way.
        (ReceivingView::HoldingForAnswer(d), ReplyView::Done) => receiving_step(
            ReceivingView::CheckingLocal(d),
            ActionView::HasLocalDescription,
        ),
        (ReceivingView::CheckingLocal(d), ReplyView::Present(true)) => receiving_step(
            ReceivingView::ApplyingAnswer,
            ActionView::SetRemoteDescription(d),
        ),
        (ReceivingView::CheckingLocal(_), ReplyView::Present(false)) => flushed(pending),
        (ReceivingView::ApplyingAnswer, ReplyView::Done) => flushed(pending),
        // An offer is answered, and the candidates that were kept back follow the answer.
        (ReceivingView::HoldingForOffer(d), ReplyView::Done) => receiving_step(
            ReceivingView::AcceptingChannels(d),
            ActionView::AcceptDataChannels,
        ),
        (ReceivingView::AcceptingChannels(d), ReplyView::Done) => receiving_step(
            ReceivingView::ApplyingOffer,
            ActionView::SetRemoteDescription(d),
        ),
        (ReceivingView::ApplyingOffer, ReplyView::Done) => receiving_step(
            ReceivingView::Answering,
            ActionView::CreateAnswer,
        ),
        (ReceivingView::Answering, ReplyView::Described(d)) => receiving_step(
            ReceivingView::SendingAnswer(d),
            ActionView::SendText(signal_text(SignalView::Answer(d))),
        ),
        (ReceivingView::SendingAnswer(d), ReplyView::Done) => receiving_step(
            ReceivingView::StoringAnswer,
            ActionView::SetLocalDescription(d),
        ),
        (ReceivingView::StoringAnswer, ReplyView::Done) => flushed(pending),
        (ReceivingView::Flushing(queue), ReplyView::Done) => flushed(queue),
        // A negotiation that fails half-way ends the task that receives.
        (ReceivingView::ApplyingAnswer, ReplyView::Failed(e)) => StepView::Finished(
            FinishView::Aborted(e),
        ),
        (ReceivingView::ApplyingOffer, ReplyView::Failed(e)) => StepView::Finished(
            FinishView::Aborted(e),
        ),
        (ReceivingView::Answering, ReplyView::Failed(e)) => StepView::Finished(
            FinishView::Aborted(e),
        ),
        (ReceivingView::SendingAnswer(_), ReplyView::Failed(e)) => StepView::Finished(
            FinishView::Aborted(e),
        ),
        (ReceivingView::StoringAnswer, ReplyView::Failed(e)) => StepView::Finished(
            FinishView::Aborted(e),
        ),
        (ReceivingView::Flushing(_), ReplyView::Failed(e)) => StepView::Finished(
            FinishView::Aborted(e),
        ),
        _ => StepView::Finished(FinishView::Mismatched),
    }
}

fn step<C, E>(p: Receiving, a: Action<C>) -> (r: Step<C, E>)
    ensures
        r@ == receiving_step::<C, E>(p@, a@),
{
    Step::Perform(Procedure::Receiving(p), a)
}

fn receive_text<C, E>(text: String) -> (r: Step<C, E>)
    ensures
        r@ == text_received::<C, E>(text@),
{
    step(Receiving::DecodingIce(text.clone()), Action::DecodeIce(text))
}

/// Takes what comes out of the web socket.
pub fn receive<C, E>(incoming: Incoming) -> (r: Step<C, E>)
    ensures
        r@ == received::<C, E>(incoming@),
{
    match incoming {
        Incoming::Text(text) => receive_text(text),
        Incoming::Binary(bytes) => match decode_text(bytes) {
            Some(text) => receive_text(text),
            None => Step::Finished(Finish::Done),
        },
        Incoming::Other => Step::Finished(Finish::Done),
        Incoming::Failed => Step::Finished(Finish::Closed),
        Incoming::Ended => Step::Finished(Finish::Closed),
    }
}

fn flush<C, E>(queue: Vec<IceCandidateInit>) -> (r: Step<C, E>)
    ensures
        r@ == flushed::<C, E>(candidates(queue@)),
{
    let mut queue = queue;
    if queue.len() == 0 {
        return Step::Finished(Finish::Done);
    }
    let ghost all = queue@;
    let next = queue.remove(0);
    assert(candidates(queue@) =~= candidates(all).drop_first());
    let text = Signal::Ice(next).encode();
    step(Receiving::Flushing(queue), Action::SendText(text))
}

fn copy_candidates(v: &Vec<IceCandidateInit>) -> (r: Vec<IceCandidateInit>)
    ensures
        candidates(r@) == candidates(v@),
{
    let mut r: Vec<IceCandidateInit> = Vec::new();
    let mut i: usize = 0;
    while i < v.len()
        invariant
            i <= v.len(),
            candidates(r@) == candidates(v@).take(i as int),
        decreases v.len() - i,
    {
        let ghost before = r@;
        r.push(v[i].clone());
        assert(candidates(r@) =~= candidates(before).push(v@[i as int]@));
        assert(candidates(v@).take(i + 1) =~= candidates(v@).take(i as int).push(v@[i as int]@));
        i = i + 1;
    }
    assert(candidates(v@).take(i as int) =~= candidates(v@));
    r
}

/// Goes on with the handling of a message; `pending` are the candidates that were kept back.
pub fn resume_receiving<C, E>(
    pending: &Vec<IceCandidateInit>,
    p: Receiving,
    reply: Reply<C, E>,
) -> (r: Step<C, E>)
    ensures
        r@ == receiving_resumed(candidates(pending@), p@, reply@),
{
    match (p, reply) {
        (Receiving::DecodingIce(_), Reply::Ice(Some(c))) => step(
            Receiving::CheckingRemote(c),
            Action::HasRemoteDescription,
        ),
        (Receiving::DecodingIce(text), Reply::Ice(None)) => step(
            Receiving::DecodingAnswer(text.clone()),
            Action::DecodeAnswer(text),
        ),
        (Receiving::DecodingAnswer(_), Reply::Description(Some(d))) => step(
            Receiving::HoldingForAnswer(d),
            Action::HoldSender,
        ),
        (Receiving::DecodingAnswer(text), Reply::Description(None)) => step(
            Receiving::DecodingOffer,
            Action::DecodeOffer(text),
        ),
        (Receiving::DecodingOffer, Reply::Description(Some(d))) => step(
            Receiving::HoldingForOffer(d),
            Action::HoldSender,
        ),
        (Receiving::DecodingOffer, Reply::Description(None)) => Step::Finished(Finish::Done),
        (Receiving::CheckingRemote(c), Reply::Present(true)) => step(
            Receiving::AddingCandidate,
            Action::AddIceCandidate(c),
        ),
        (Receiving::CheckingRemote(_), Reply::Present(false)) => Step::Finished(Finish::Done),
        (Receiving::AddingCandidate, Reply::Done) => Step::Finished(Finish::Done),
        (Receiving::AddingCandidate, Reply::Failed(e)) => Step::Finished(Finish::Reported(e)),
        (Receiving::HoldingForAnswer(d), Reply::Done) => step(
            Receiving::CheckingLocal(d),
            Action::HasLocalDescription,
        ),
        (Receiving::CheckingLocal(d), Reply::Present(true)) => step(
            Receiving::ApplyingAnswer,
            Action::SetRemoteDescription(d),
        ),
        (Receiving::CheckingLocal(_), Reply::Present(false)) => flush(copy_candidates(pending)),
        (Receiving::ApplyingAnswer, Reply::Done) => flush(copy_candidates(pending)),
        (Receiving::HoldingForOffer(d), Reply::Done) => step(
            Receiving::AcceptingChannels(d),
            Action::AcceptDataChannels,
        ),
        (Receiving::AcceptingChannels(d), Reply::Done) => step(
            Receiving::ApplyingOffer,
            Action::SetRemoteDescription(d),
        ),
        (Receiving::ApplyingOffer, Reply::Done) => step(
            Receiving::Answering,
            Action::CreateAnswer,
        ),
        (Receiving::Answering, Reply::Described(d)) => {
            let text = Signal::Answer(d.clone()).encode();
            step(Receiving::SendingAnswer(d), Action::SendText(text))
        },
        (Receiving::SendingAnswer(d), Reply::Done) => step(
            Receiving::StoringAnswer,
            Action::SetLocalDescription(d),
        ),
        (Receiving::StoringAnswer, Reply::Done) => flush(copy_candidates(pending)),
        (Receiving::Flushing(queue), Reply::Done) => flush(queue),
        (Receiving::ApplyingAnswer, Reply::Failed(e)) => Step::Finished(Finish::Aborted(e)),
        (Receiving::ApplyingOffer, Reply::Failed(e)) => Step::Finished(Finish::Aborted(e)),
        (Receiving::Answering, Reply::Failed(e)) => Step::Finished(Finish::Aborted(e)),
        (Receiving::SendingAnswer(_), Reply::Failed(e)) => Step::Finished(Finish::Aborted(e)),
        (Receiving::StoringAnswer, Reply::Failed(e)) => Step::Finished(Finish::Aborted(e)),
        (Receiving::Flushing(_), Reply::Failed(e)) => Step::Finished(Finish::Aborted(e)),
        _ => Step::Finished(Finish::Mismatched),
    }
}

} // verus!
