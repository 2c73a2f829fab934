//! A procedure as a whole, from its first step to its end.

use crate::protocol::{ActionView, FinishView, ReplyView, StepView};
use crate::receiving::flushed;
use crate::server::{resumed, ServerView};
use crate::signal::{signal_text, IceCandidateInitView, SignalView};
use vstd::prelude::*;

verus! {

/// How far a procedure has come: what the peer remembers, every action that was asked for, and
/// where the procedure stands.
pub struct Run<C, E> {
    pub server: ServerView<C>,
    pub actions: Seq<ActionView<C>>,
    pub step: StepView<C, E>,
}

/// The actions so far, with the one that `step` asks for.
pub open spec fn with_asked<C, E>(actions: Seq<ActionView<C>>, step: StepView<C, E>) -> Seq<
    ActionView<C>,
> {
    match step {
        StepView::Perform(_, a) => actions.push(a),
        StepView::Finished(_) => actions,
    }
}

/// A procedure at its first step.
pub open spec fn begun<C, E>(s: ServerView<C>, step: StepView<C, E>) -> Run<C, E> {
    Run { server: s, actions: with_asked(Seq::empty(), step), step }
}

/// The procedure goes on by one reply.
pub open spec fn advanced<C, E>(r: Run<C, E>, reply: ReplyView<C, E>) -> Run<C, E> {
    match r.step {
        StepView::Perform(p, _) => {
            let (server, step) = resumed(r.server, p, reply);
            Run { server, actions: with_asked(r.actions, step), step }
        },
        StepView::Finished(_) => r,
    }
}

/// The procedure goes on by one reply after the other, and no other procedure runs meanwhile.
#[verifier::opaque]
pub open spec fn driven<C, E>(r: Run<C, E>, replies: Seq<ReplyView<C, E>>) -> Run<C, E>
    decreases replies.len(),
{
    if replies.len() == 0 {
        r
    } else {
        advanced(driven(r, replies.drop_last()), replies.last())
    }
}

/// The procedure that starts with `step`, driven by `replies`.
pub open spec fn run<C, E>(
    s: ServerView<C>,
    step: StepView<C, E>,
    replies: Seq<ReplyView<C, E>>,
) -> Run<C, E> {
    driven(begun(s, step), replies)
}

/// The reply to an action that is done, `n` times.
pub open spec fn done<C, E>(n: nat) -> Seq<ReplyView<C, E>> {
    Seq::new(n, |i: int| ReplyView::Done)
}

/// The candidates, each sent in a text of its own, in order.
pub open spec fn sent_candidates<C>(queue: Seq<IceCandidateInitView>) -> Seq<ActionView<C>> {
    queue.map_values(
        |c: IceCandidateInitView| ActionView::SendText(signal_text(SignalView::Ice(c))),
    )
}

/// One exchange: `action` is asked for, `reply` is the reply to it, and the procedure goes from
/// `before` to `after`, each of which says what the peer remembers and where the procedure
/// stands.
pub open spec fn exchanged<C, E>(
    before: (ServerView<C>, StepView<C, E>),
    action: ActionView<C>,
    reply: ReplyView<C, E>,
    after: (ServerView<C>, StepView<C, E>),
) -> bool {
    before.1 matches StepView::Perform(p, a) && a == action && resumed(before.0, p, reply) == after
}

/// A talk: one exchange after the other, where `stages` are the points before, between and behind
/// them.
pub open spec fn talk<C, E>(
    stages: Seq<(ServerView<C>, StepView<C, E>)>,
    actions: Seq<ActionView<C>>,
    replies: Seq<ReplyView<C, E>>,
) -> bool {
    &&& stages.len() == replies.len() + 1
    &&& actions.len() == replies.len()
    &&& forall|i: int|
        0 <= i < replies.len() ==> exchanged(
            stages[i],
            actions[i],
            #[trigger] replies[i],
            stages[i + 1],
        )
}

/// Each candidate is sent once, in its place, in a text of its own.
pub proof fn law_candidates_are_sent_one_by_one<C>(queue: Seq<IceCandidateInitView>)
    ensures
        sent_candidates::<C>(queue).len() == queue.len(),
        forall|i: int|
            0 <= i < queue.len() ==> #[trigger] sent_candidates::<C>(queue)[i] == ActionView::<
                C,
            >::SendText(signal_text(SignalView::Ice(queue[i]))),
{
}

/// A procedure goes on by each reply as the peer resumes it, every action that it asks for counts
/// once, and replies that come after its end change nothing.
pub proof fn law_runs_go_by_replies<C, E>(
    s: ServerView<C>,
    step: StepView<C, E>,
    replies: Seq<ReplyView<C, E>>,
    reply: ReplyView<C, E>,
)
    ensures
        run(s, step, Seq::empty()).server == s,
        run(s, step, Seq::empty()).step == step,
        run(s, step, Seq::empty()).actions == (match step {
            StepView::Perform(_, a) => seq![a],
            StepView::Finished(_) => Seq::empty(),
        }),
        ({
            let r = run(s, step, replies);
            let next = run(s, step, replies.push(reply));
            match r.step {
                StepView::Perform(p, _) => {
                    &&& (next.server, next.step) == resumed(r.server, p, reply)
                    &&& next.actions == (match next.step {
                        StepView::Perform(_, a) => r.actions.push(a),
                        StepView::Finished(_) => r.actions,
                    })
                },
                StepView::Finished(_) => next == r,
            }
        }),
{
    lemma_push(begun(s, step), replies, reply);
}

/// Where nothing fails, every reply says that it was done.
pub proof fn law_nothing_fails<C, E>(n: nat)
    ensures
        done::<C, E>(n).len() == n,
        forall|i: int| 0 <= i < n ==> #[trigger] done::<C, E>(n)[i] == ReplyView::<C, E>::Done,
{
}

pub proof fn lemma_push<C, E>(
    r: Run<C, E>,
    replies: Seq<ReplyView<C, E>>,
    reply: ReplyView<C, E>,
)
    ensures
        driven(r, Seq::empty()) == r,
        driven(r, replies.push(reply)) == advanced(driven(r, replies), reply),
{
    reveal_with_fuel(driven, 1);
    assert(replies.push(reply).drop_last() =~= replies);
}

pub proof fn lemma_append<C, E>(
    r: Run<C, E>,
    first: Seq<ReplyView<C, E>>,
    then: Seq<ReplyView<C, E>>,
)
    ensures
        driven(r, first + then) == driven(driven(r, first), then),
    decreases then.len(),
{
    reveal_with_fuel(driven, 1);
    if then.len() == 0 {
        assert(first + then =~= first);
    } else {
        lemma_append(r, first, then.drop_last());
        assert((first + then).drop_last() =~= first + then.drop_last());
    }
}

/// A procedure whose exchanges are those of a talk goes through its stages.
pub proof fn lemma_talk<C, E>(
    stages: Seq<(ServerView<C>, StepView<C, E>)>,
    actions: Seq<ActionView<C>>,
    replies: Seq<ReplyView<C, E>>,
)
    requires
        talk(stages, actions, replies),
    ensures
        run(stages.first().0, stages.first().1, replies) == (Run::<C, E> {
            server: stages.last().0,
            actions: with_asked(actions, stages.last().1),
            step: stages.last().1,
        }),
    decreases replies.len(),
{
    reveal_with_fuel(driven, 1);
    let start = begun(stages.first().0, stages.first().1);
    if replies.len() == 0 {
        assert(actions =~= Seq::empty());
    } else {
        let n = replies.len() - 1;
        assert(exchanged(stages[n], actions[n], replies[n], stages[n + 1]));
        lemma_talk(stages.drop_last(), actions.drop_last(), replies.drop_last());
        assert(with_asked(actions.drop_last(), stages[n].1) =~= actions);
    }
}

/// The candidates in a queue are sent one by one, in order, if nothing fails.
pub proof fn lemma_flush<C, E>(
    s: ServerView<C>,
    queue: Seq<IceCandidateInitView>,
    base: Seq<ActionView<C>>,
)
    ensures
        driven(
            Run {
                server: s,
                actions: with_asked(base, flushed::<C, E>(queue)),
                step: flushed::<C, E>(queue),
            },
            done(queue.len()),
        ) == (Run::<C, E> {
            server: s,
            actions: base + sent_candidates(queue),
            step: StepView::Finished(FinishView::Done),
        }),
    decreases queue.len(),
{
    let start = Run {
        server: s,
        actions: with_asked(base, flushed::<C, E>(queue)),
        step: flushed::<C, E>(queue),
    };
    lemma_push(start, Seq::empty(), ReplyView::Done);
    if queue.len() == 0 {
        assert(base + sent_candidates(queue) =~= base);
        assert(done::<C, E>(0) =~= Seq::empty());
    } else {
        let rest = queue.drop_first();
        let a = ActionView::SendText(signal_text(SignalView::Ice(queue.first())));
        let first = Seq::<ReplyView<C, E>>::empty().push(ReplyView::Done);
        assert(done::<C, E>(queue.len()) =~= first + done(rest.len()));
        lemma_append(start, first, done(rest.len()));
        lemma_flush::<C, E>(s, rest, base.push(a));
        assert(base.push(a) + sent_candidates(rest) =~= base + sent_candidates(queue));
    }
}

/// A talk that leaves candidates to be sent is followed by them, if nothing fails.
pub proof fn lemma_talk_and_flush<C, E>(
    stages: Seq<(ServerView<C>, StepView<C, E>)>,
    actions: Seq<ActionView<C>>,
    replies: Seq<ReplyView<C, E>>,
    queue: Seq<IceCandidateInitView>,
)
    requires
        talk(stages, actions, replies),
        stages.last().1 == flushed::<C, E>(queue),
    ensures
        run(stages.first().0, stages.first().1, replies + done(queue.len())) == (Run::<C, E> {
            server: stages.last().0,
            actions: actions + sent_candidates(queue),
            step: StepView::Finished(FinishView::Done),
        }),
{
    lemma_talk(stages, actions, replies);
    lemma_flush::<C, E>(stages.last().0, queue, actions);
    lemma_append(begun(stages.first().0, stages.first().1), replies, done(queue.len()));
}

} // verus!
