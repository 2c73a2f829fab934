//! What the user of a server can ask it for.

use crate::protocol::{
    Action, ActionView, Finish, FinishView, Procedure, ProcedureView, Reply, ReplyView, Step,
    StepView,
};
use crate::signal::{
    signal_text, SessionDescription, SessionDescriptionView, Signal, SignalView,
};
use vstd::prelude::*;

verus! {

/// What a request waits for.
#[derive(Debug)]
pub enum Requesting {
    /// The data channel, before an offer for it is made.
    OpeningChannel,
    /// The offer that is to be sent.
    MakingOffer,
    /// This offer to become the local description, before it is sent.
    StoringOffer(SessionDescription),
    /// The offer to be sent.
    SendingOffer,
    /// An offer.
    CreatingOffer,
    /// This offer to become the local description.
    KeepingOffer(SessionDescription),
    /// An offer to become the remote description.
    TakingOffer,
    /// An answer to the offer.
    CreatingAnswer,
    /// This answer to become the local description.
    KeepingAnswer(SessionDescription),
    /// An answer to become the remote description.
    TakingAnswer,
    /// A text to be sent over the data channel.
    SendingMessage,
    /// The peer connection to be closed.
    Closing,
}

/// A [`Requesting`] by what it holds.
pub enum RequestingView {
    OpeningChannel,
    MakingOffer,
    StoringOffer(SessionDescriptionView),
    SendingOffer,
    CreatingOffer,
    KeepingOffer(SessionDescriptionView),
    TakingOffer,
    CreatingAnswer,
    KeepingAnswer(SessionDescriptionView),
    TakingAnswer,
    SendingMessage,
    Closing,
}

impl View for Requesting {
    type V = RequestingView;

    open spec fn view(&self) -> RequestingView {
        match self {
            Requesting::OpeningChannel => RequestingView::OpeningChannel,
            Requesting::MakingOffer => RequestingView::MakingOffer,
            Requesting::StoringOffer(d) => RequestingView::StoringOffer(d@),
            Requesting::SendingOffer => RequestingView::SendingOffer,
            Requesting::CreatingOffer => RequestingView::CreatingOffer,
            Requesting::KeepingOffer(d) => RequestingView::KeepingOffer(d@),
            Requesting::TakingOffer => RequestingView::TakingOffer,
            Requesting::CreatingAnswer => RequestingView::CreatingAnswer,
            Requesting::KeepingAnswer(d) => RequestingView::KeepingAnswer(d@),
            Requesting::TakingAnswer => RequestingView::TakingAnswer,
            Requesting::SendingMessage => RequestingView::SendingMessage,
            Requesting::Closing => RequestingView::Closing,
        }
    }
}

/// The step of a request that goes on as `p` after `a`.
pub open spec fn request_step<C, E>(p: RequestingView, a: ActionView<C>) -> StepView<C, E> {
    StepView::Perform(ProcedureView::Requesting(p), a)
}

/// How a request goes on, once the data channel that it may need is open.
pub open spec fn request_resumed<C, E>(p: RequestingView, reply: ReplyView<C, E>) -> StepView<
    C,
    E,
> {
    match (p, reply) {
        // An offer for a data channel: it becomes the local description before it is sent.
        (RequestingView::MakingOffer, ReplyView::Described(d)) => request_step(
            RequestingView::StoringOffer(d),
            ActionView::SetLocalDescription(d),
        ),
        (RequestingView::StoringOffer(d), ReplyView::Done) => request_step(
            RequestingView::SendingOffer,
            ActionView::SendText(signal_text(SignalView::Offer(d))),
        ),
        (RequestingView::StoringOffer(_), ReplyView::Failed(e)) => StepView::Finished(
            FinishView::Aborted(e),
        ),
        (RequestingView::SendingOffer, ReplyView::Done) => StepView::Finished(FinishView::Done),
        // An offer for the caller.
        (RequestingView::CreatingOffer, ReplyView::Described(d)) => request_step(
            RequestingView::KeepingOffer(d),
            ActionView::SetLocalDescription(d),
        ),
        (RequestingView::KeepingOffer(d), ReplyView::Done) => StepView::Finished(
            FinishView::Described(d),
        ),
        // An answer for the caller.
        (RequestingView::TakingOffer, ReplyView::Done) => request_step(
            RequestingView::CreatingAnswer,
            ActionView::CreateAnswer,
        ),
        (RequestingView::CreatingAnswer, ReplyView::Described(d)) => request_step(
            RequestingView::KeepingAnswer(d),
            ActionView::SetLocalDescription(d),
        ),
        (RequestingView::KeepingAnswer(d), ReplyView::Done) => StepView::Finished(
            FinishView::Described(d),
        ),
        (RequestingView::TakingAnswer, ReplyView::Done) => StepView::Finished(FinishView::Done),
        (RequestingView::SendingMessage, ReplyView::Done) => StepView::Finished(FinishView::Done),
        // A connection that cannot be closed is left as it is.
        (RequestingView::Closing, ReplyView::Done) => StepView::Finished(FinishView::Done),
        (RequestingView::Closing, ReplyView::Failed(_)) => StepView::Finished(FinishView::Done),
        (_, ReplyView::Failed(e)) => StepView::Finished(FinishView::Failed(e)),
        _ => StepView::Finished(FinishView::Mismatched),
    }
}

/// The first or next step of a request.
pub fn request<C, E>(p: Requesting, a: Action<C>) -> (r: Step<C, E>)
    ensures
        r@ == request_step::<C, E>(p@, a@),
        r == Step::<C, E>::Perform(Procedure::Requesting(p), a),
{
    Step::Perform(Procedure::Requesting(p), a)
}

/// Goes on with a request, once the data channel that it may need is open.
pub fn resume_request<C, E>(p: Requesting, reply: Reply<C, E>) -> (r: Step<C, E>)
    ensures
        r@ == request_resumed(p@, reply@),
{
    match (p, reply) {
        (Requesting::MakingOffer, Reply::Described(d)) => request(
            Requesting::StoringOffer(d.clone()),
            Action::SetLocalDescription(d),
        ),
        (Requesting::StoringOffer(d), Reply::Done) => {
            let text = Signal::Offer(d).encode();
            request(Requesting::SendingOffer, Action::SendText(text))
        },
        (Requesting::StoringOffer(_), Reply::Failed(e)) => Step::Finished(Finish::Aborted(e)),
        (Requesting::SendingOffer, Reply::Done) => Step::Finished(Finish::Done),
        (Requesting::CreatingOffer, Reply::Described(d)) => request(
            Requesting::KeepingOffer(d.clone()),
            Action::SetLocalDescription(d),
        ),
        (Requesting::KeepingOffer(d), Reply::Done) => Step::Finished(Finish::Described(d)),
        (Requesting::TakingOffer, Reply::Done) => request(
            Requesting::CreatingAnswer,
            Action::CreateAnswer,
        ),
        (Requesting::CreatingAnswer, Reply::Described(d)) => request(
            Requesting::KeepingAnswer(d.clone()),
            Action::SetLocalDescription(d),
        ),
        (Requesting::KeepingAnswer(d), Reply::Done) => Step::Finished(Finish::Described(d)),
        (Requesting::TakingAnswer, Reply::Done) => Step::Finished(Finish::Done),
        (Requesting::SendingMessage, Reply::Done) => Step::Finished(Finish::Done),
        (Requesting::Closing, Reply::Done) => Step::Finished(Finish::Done),
        (Requesting::Closing, Reply::Failed(_)) => Step::Finished(Finish::Done),
        (_, Reply::Failed(e)) => Step::Finished(Finish::Failed(e)),
        _ => Step::Finished(Finish::Mismatched),
    }
}

} // verus!
