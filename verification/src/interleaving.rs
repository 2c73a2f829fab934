//! What holds of the handling of a message while other procedures go on between its steps.

use crate::laws::{
    answer_actions, answer_replies, answer_steps, law_what_is_remembered, offer_actions,
    offer_replies, offer_steps,
};
use crate::protocol::{ActionView, FinishView, ProcedureView, ReplyView, StepView};
use crate::receiving::{flushed, received, receiving_resumed, IncomingView, ReceivingView};
use crate::runs::{advanced, begun, done, sent_candidates, with_asked, Run};
use crate::server::{resumed, ServerView};
use crate::signal::{IceCandidateInitView, SessionDescriptionView};
use std::sync::Arc;
use vstd::prelude::*;

verus! {

/// What happens at one moment.
pub enum Moment<C, E> {
    /// The procedure gets the reply to its last action.
    Own(ReplyView<C, E>),
    /// Another procedure gets the reply to its last action.
    Other(ProcedureView, ReplyView<C, E>),
    /// The other peer opens a data channel.
    Opened(Arc<C>),
    /// A data channel is closed.
    Closed,
}

/// The procedure, and what the peer remembers, after one moment.
pub open spec fn passed<C, E>(r: Run<C, E>, m: Moment<C, E>) -> Run<C, E> {
    match m {
        Moment::Own(reply) => advanced(r, reply),
        Moment::Other(p, reply) => Run { server: resumed(r.server, p, reply).0, ..r },
        Moment::Opened(c) => Run { server: ServerView { channel: Some(c), ..r.server }, ..r },
        Moment::Closed => Run { server: ServerView { channel: None, ..r.server }, ..r },
    }
}

/// The procedure, and what the peer remembers, after one moment after the other.
#[verifier::opaque]
pub open spec fn interleaved<C, E>(r: Run<C, E>, moments: Seq<Moment<C, E>>) -> Run<C, E>
    decreases moments.len(),
{
    if moments.len() == 0 {
        r
    } else {
        passed(interleaved(r, moments.drop_last()), moments.last())
    }
}

/// The replies that the procedure itself gets.
pub open spec fn own<C, E>(moments: Seq<Moment<C, E>>) -> Seq<ReplyView<C, E>>
    decreases moments.len(),
{
    if moments.len() == 0 {
        Seq::empty()
    } else {
        match moments.last() {
            Moment::Own(reply) => own(moments.drop_last()).push(reply),
            _ => own(moments.drop_last()),
        }
    }
}

/// The candidates that come to be kept back, in order: those that are gathered while there is no
/// remote description.
pub open spec fn kept_in<C, E>(moments: Seq<Moment<C, E>>) -> Seq<IceCandidateInitView>
    decreases moments.len(),
{
    if moments.len() == 0 {
        Seq::empty()
    } else {
        match moments.last() {
            Moment::Other(ProcedureView::Gathered(c), ReplyView::Present(false)) => kept_in(
                moments.drop_last(),
            ).push(c),
            _ => kept_in(moments.drop_last()),
        }
    }
}

/// The step is one of the handling of a message.
pub open spec fn receives<C, E>(step: StepView<C, E>) -> bool {
    step matches StepView::Perform(p, _) ==> p is Receiving
}

/// `reply` takes the handling of a message from `p` to the candidates that were kept back.
pub open spec fn reaches_candidates<C, E>(p: ReceivingView, reply: ReplyView<C, E>) -> bool {
    match p {
        ReceivingView::CheckingLocal(_) => reply == ReplyView::<C, E>::Present(false),
        ReceivingView::ApplyingAnswer => reply == ReplyView::<C, E>::Done,
        ReceivingView::StoringAnswer => reply == ReplyView::<C, E>::Done,
        _ => false,
    }
}

proof fn lemma_append<C, E>(
    r: Run<C, E>,
    first: Seq<Moment<C, E>>,
    then: Seq<Moment<C, E>>,
)
    ensures
        interleaved(r, first + then) == interleaved(interleaved(r, first), then),
    decreases then.len(),
{
    reveal_with_fuel(interleaved, 1);
    if then.len() == 0 {
        assert(first + then =~= first);
    } else {
        lemma_append(r, first, then.drop_last());
        assert((first + then).drop_last() =~= first + then.drop_last());
    }
}

/// Candidates that are gathered while there is no remote description are all kept, behind those
/// that were kept already and in the order in which they were gathered, whatever else goes on while
/// a message is handled or after it was. None is taken away.
pub proof fn law_candidates_are_kept_in_order<C, E>(r: Run<C, E>, moments: Seq<Moment<C, E>>)
    requires
        receives(r.step),
    ensures
        receives(interleaved(r, moments).step),
        interleaved(r, moments).server.pending == r.server.pending + kept_in(moments),
    decreases moments.len(),
{
    reveal_with_fuel(interleaved, 1);
    if moments.len() == 0 {
        assert(r.server.pending + kept_in(moments) =~= r.server.pending);
    } else {
        let before = interleaved(r, moments.drop_last());
        law_candidates_are_kept_in_order(r, moments.drop_last());
        if let Moment::Other(p, reply) = moments.last() {
            law_what_is_remembered(before.server, p, reply);
        }
        assert(interleaved(r, moments).server.pending =~= r.server.pending + kept_in(moments));
    }
}

/// An exchange that comes out the same whatever candidates are kept back.
spec fn exchanged_anyhow<C, E>(
    before: StepView<C, E>,
    action: ActionView<C>,
    reply: ReplyView<C, E>,
    after: StepView<C, E>,
) -> bool {
    before matches StepView::Perform(ProcedureView::Receiving(p), a) && a == action && forall|
        pending: Seq<IceCandidateInitView>,
    |
        #[trigger] receiving_resumed(pending, p, reply) == after
}

/// One such exchange after the other.
spec fn talk_anyhow<C, E>(
    steps: Seq<StepView<C, E>>,
    actions: Seq<ActionView<C>>,
    replies: Seq<ReplyView<C, E>>,
) -> bool {
    &&& steps.len() == replies.len() + 1
    &&& actions.len() == replies.len()
    &&& forall|i: int|
        0 <= i < replies.len() ==> exchanged_anyhow(
            steps[i],
            actions[i],
            #[trigger] replies[i],
            steps[i + 1],
        )
}

proof fn lemma_talk_anyhow<C, E>(
    s: ServerView<C>,
    steps: Seq<StepView<C, E>>,
    actions: Seq<ActionView<C>>,
    moments: Seq<Moment<C, E>>,
)
    requires
        talk_anyhow(steps, actions, own(moments)),
    ensures
        interleaved(begun(s, steps.first()), moments).step == steps.last(),
        interleaved(begun(s, steps.first()), moments).actions == with_asked(actions, steps.last()),
    decreases moments.len(),
{
    reveal_with_fuel(interleaved, 1);
    if moments.len() == 0 {
        assert(actions =~= Seq::empty());
    } else if moments.last() is Own {
        let n = own(moments).len() - 1;
        let earlier = own(moments.drop_last());
        assert(earlier =~= own(moments).drop_last());
        assert(exchanged_anyhow(steps[n], actions[n], own(moments)[n], steps[n + 1]));
        lemma_talk_anyhow(s, steps.drop_last(), actions.drop_last(), moments.drop_last());
        assert(with_asked(actions.drop_last(), steps[n]) =~= actions);
    } else {
        lemma_talk_anyhow(s, steps, actions, moments.drop_last());
    }
}

proof fn lemma_flush<C, E>(
    r: Run<C, E>,
    queue: Seq<IceCandidateInitView>,
    base: Seq<ActionView<C>>,
    moments: Seq<Moment<C, E>>,
)
    requires
        r.step == flushed::<C, E>(queue),
        r.actions == with_asked(base, flushed::<C, E>(queue)),
        own(moments) == done::<C, E>(own(moments).len()),
        own(moments).len() <= queue.len(),
    ensures
        ({
            let n = own(moments).len() as int;
            let next = flushed::<C, E>(queue.skip(n));
            &&& interleaved(r, moments).step == next
            &&& interleaved(r, moments).actions == with_asked(
                base + sent_candidates(queue.take(n)),
                next,
            )
        }),
    decreases moments.len(),
{
    reveal_with_fuel(interleaved, 1);
    let n = own(moments).len() as int;
    if moments.len() == 0 {
        assert(queue.skip(0) =~= queue);
        assert(base + sent_candidates(queue.take(0)) =~= base);
    } else if moments.last() is Own {
        let earlier = own(moments.drop_last());
        assert(earlier =~= done::<C, E>(earlier.len())) by {
            assert(earlier =~= own(moments).drop_last());
        }
        lemma_flush(r, queue, base, moments.drop_last());
        assert(own(moments)[n - 1] == ReplyView::<C, E>::Done);
        assert(queue.skip(n - 1).drop_first() =~= queue.skip(n));
        assert((base + sent_candidates(queue.take(n - 1))).push(
            sent_candidates(queue)[n - 1],
        ) =~= base + sent_candidates(queue.take(n)));
    } else {
        lemma_flush(r, queue, base, moments.drop_last());
    }
}

/// What is kept back when the handling of a message comes to the candidates is what goes out:
/// every candidate once, in the order in which it was gathered, and nothing else, whatever came
/// before and whatever other procedures do meanwhile, if no sending fails. What comes to be kept
/// back only then is not sent with them, and stays kept like the rest.
pub proof fn law_what_is_kept_goes_out<C, E>(
    r: Run<C, E>,
    p: ReceivingView,
    reply: ReplyView<C, E>,
    after: Seq<Moment<C, E>>,
)
    requires
        r.step matches StepView::Perform(q, _) && q == ProcedureView::Receiving(p),
        reaches_candidates(p, reply) || (match p {
            ReceivingView::CheckingLocal(_) => reply == ReplyView::<C, E>::Present(false),
            ReceivingView::ApplyingAnswer => reply == ReplyView::<C, E>::Done,
            ReceivingView::StoringAnswer => reply == ReplyView::<C, E>::Done,
            _ => false,
        }),
        own(after) == done::<C, E>(r.server.pending.len()),
    ensures
        interleaved(r, seq![Moment::Own(reply)] + after).step == StepView::<C, E>::Finished(
            FinishView::Done,
        ),
        interleaved(r, seq![Moment::Own(reply)] + after).actions == r.actions + sent_candidates(
            r.server.pending,
        ),
        interleaved(r, seq![Moment::Own(reply)] + after).server.pending == r.server.pending
            + kept_in(after),
{
    let kept = r.server.pending;
    let now = seq![Moment::Own(reply)];
    let next = interleaved(r, now);
    assert(next == advanced(r, reply)) by {
        reveal_with_fuel(interleaved, 2);
        assert(now.drop_last() =~= Seq::empty());
    }
    lemma_append(r, now, after);
    lemma_flush(next, kept, r.actions, after);
    law_candidates_are_kept_in_order(next, after);
    assert(kept.skip(kept.len() as int) =~= Seq::empty());
    assert(kept.take(kept.len() as int) =~= kept);
}

/// No candidate is lost while an offer is answered: those that were kept back already, and those
/// that come to be kept back between the steps, up to the moment at which the answer has become
/// the local description, all go out behind the answer, every candidate once, in the order of
/// gathering, if nothing fails.
pub proof fn law_no_candidate_is_lost<C, E>(
    s: ServerView<C>,
    text: Seq<char>,
    offer: SessionDescriptionView,
    answer: SessionDescriptionView,
    before: Seq<Moment<C, E>>,
    after: Seq<Moment<C, E>>,
)
    requires
        own(before) == offer_replies::<C, E>(offer, answer).drop_last(),
        own(after) == done::<C, E>((s.pending + kept_in(before)).len()),
    ensures
        ({
            let r = interleaved(
                begun(s, received(IncomingView::Text(text))),
                before + (seq![Moment::Own(ReplyView::Done)] + after),
            );
            &&& r.step == StepView::<C, E>::Finished(FinishView::Done)
            &&& r.actions == offer_actions::<C>(text, offer, answer) + sent_candidates(
                s.pending + kept_in(before),
            )
            &&& r.server.pending == s.pending + kept_in(before) + kept_in(after)
        }),
{
    let start = begun::<C, E>(s, received(IncomingView::Text(text)));
    let steps = offer_steps::<C, E>(text, offer, answer);
    let actions = offer_actions::<C>(text, offer, answer);
    lemma_talk_anyhow(s, steps, actions.drop_last(), before);
    law_candidates_are_kept_in_order(start, before);
    lemma_append(start, before, seq![Moment::Own(ReplyView::Done)] + after);
    let r = interleaved(start, before);
    assert(r.actions =~= actions);
    law_what_is_kept_goes_out(r, ReceivingView::StoringAnswer, ReplyView::Done, after);
}

/// No candidate is lost while an answer is applied: those that were kept back already, and those
/// that come to be kept back between the steps, up to the moment at which the answer has become
/// the remote description, all go out, every candidate once, in the order of gathering, if nothing
/// fails.
pub proof fn law_candidates_follow_the_answer<C, E>(
    s: ServerView<C>,
    text: Seq<char>,
    answer: SessionDescriptionView,
    before: Seq<Moment<C, E>>,
    after: Seq<Moment<C, E>>,
)
    requires
        own(before) == answer_replies::<C, E>(answer).drop_last(),
        own(after) == done::<C, E>((s.pending + kept_in(before)).len()),
    ensures
        ({
            let r = interleaved(
                begun(s, received(IncomingView::Text(text))),
                before + (seq![Moment::Own(ReplyView::Done)] + after),
            );
            &&& r.step == StepView::<C, E>::Finished(FinishView::Done)
            &&& r.actions == answer_actions::<C>(text, answer) + sent_candidates(
                s.pending + kept_in(before),
            )
            &&& r.server.pending == s.pending + kept_in(before) + kept_in(after)
        }),
{
    let start = begun::<C, E>(s, received(IncomingView::Text(text)));
    let steps = answer_steps::<C, E>(text, answer);
    let actions = answer_actions::<C>(text, answer);
    lemma_talk_anyhow(s, steps, actions.drop_last(), before);
    law_candidates_are_kept_in_order(start, before);
    lemma_append(start, before, seq![Moment::Own(ReplyView::Done)] + after);
    let r = interleaved(start, before);
    assert(r.actions =~= actions);
    law_what_is_kept_goes_out(r, ReceivingView::ApplyingAnswer, ReplyView::Done, after);
}

} // verus!
