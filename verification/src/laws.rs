//! What holds of whole procedures, and across them.
//!
//! A law over [`run`] speaks of a procedure that runs alone. What holds while other procedures go
//! on between its steps is in [`crate::interleaving`].

use crate::config::{
    config_of, law_command_line, law_servers, options_of, ArgumentError, CredentialsView,
    IceServerView, OptionsView, RtcConfigView, TransportPolicy,
};
use crate::protocol::{ActionView, FinishView, ProcedureView, ReplyView, StepView};
use crate::receiving::{flushed, received, receiving_step, IncomingView, ReceivingView};
use crate::requests::{request_step, RequestingView};
use crate::runs::{
    advanced, begun, done, driven, lemma_push, lemma_talk, lemma_talk_and_flush, run,
    sent_candidates, Run,
};
use crate::server::{gathered, message_sent, resumed, ServerView};
use crate::signal::{
    candidate_init_of, law_text_leads_back, signal_of, signal_text, IceCandidateInitView,
    IceCandidateView, SessionDescriptionView, SignalView,
};
use crate::startup::{started, StartUp};
use std::sync::Arc;
use vstd::prelude::*;
use vstd::utf8::{encode_utf8, encode_utf8_decode_utf8, encode_utf8_valid_utf8, valid_utf8};

verus! {

/// The replies to the handling of `offer`, up to the point where `answer` is the local description,
/// if nothing fails.
pub open spec fn offer_replies<C, E>(
    offer: SessionDescriptionView,
    answer: SessionDescriptionView,
) -> Seq<ReplyView<C, E>> {
    seq![
        ReplyView::Ice(None),
        ReplyView::Description(None),
        ReplyView::Description(Some(offer)),
        ReplyView::Done,
        ReplyView::Done,
        ReplyView::Done,
        ReplyView::Described(answer),
        ReplyView::Done,
        ReplyView::Done,
    ]
}

/// What is done about `offer`, which came in as `text`, before candidates follow.
pub open spec fn offer_actions<C>(
    text: Seq<char>,
    offer: SessionDescriptionView,
    answer: SessionDescriptionView,
) -> Seq<ActionView<C>> {
    seq![
        ActionView::DecodeIce(text),
        ActionView::DecodeAnswer(text),
        ActionView::DecodeOffer(text),
        ActionView::HoldSender,
        ActionView::AcceptDataChannels,
        ActionView::SetRemoteDescription(offer),
        ActionView::CreateAnswer,
        ActionView::SendText(signal_text(SignalView::Answer(answer))),
        ActionView::SetLocalDescription(answer),
    ]
}

/// The steps that ask for these actions.
pub open spec fn offer_steps<C, E>(
    text: Seq<char>,
    offer: SessionDescriptionView,
    answer: SessionDescriptionView,
) -> Seq<StepView<C, E>> {
    let actions = offer_actions(text, offer, answer);
    seq![
        receiving_step(ReceivingView::DecodingIce(text), actions[0]),
        receiving_step(ReceivingView::DecodingAnswer(text), actions[1]),
        receiving_step(ReceivingView::DecodingOffer, actions[2]),
        receiving_step(ReceivingView::HoldingForOffer(offer), actions[3]),
        receiving_step(ReceivingView::AcceptingChannels(offer), actions[4]),
        receiving_step(ReceivingView::ApplyingOffer, actions[5]),
        receiving_step(ReceivingView::Answering, actions[6]),
        receiving_step(ReceivingView::SendingAnswer(answer), actions[7]),
        receiving_step(ReceivingView::StoringAnswer, actions[8]),
    ]
}

/// An offer that comes in is answered: the sender is held, data channels are accepted, the offer
/// is applied, the answer is made, sent, and kept, and then every candidate that was kept back
/// is sent, in the order in which it was gathered. The candidates stay kept.
pub proof fn law_offer_is_answered<C, E>(
    s: ServerView<C>,
    text: Seq<char>,
    offer: SessionDescriptionView,
    answer: SessionDescriptionView,
)
    ensures
        run::<C, E>(
            s,
            received(IncomingView::Text(text)),
            offer_replies(offer, answer) + done(s.pending.len()),
        ) == (Run::<C, E> {
            server: s,
            actions: offer_actions(text, offer, answer) + sent_candidates(s.pending),
            step: StepView::Finished(FinishView::Done),
        }),
        run::<C, E>(
            s,
            received(IncomingView::Text(text)),
            seq![
                ReplyView::Ice(None),
                ReplyView::Description(None),
                ReplyView::Description(Some(offer)),
                ReplyView::Done,
                ReplyView::Done,
                ReplyView::Done,
                ReplyView::Described(answer),
                ReplyView::Done,
                ReplyView::Done,
            ] + done(s.pending.len()),
        ) == (Run::<C, E> {
            server: s,
            actions: seq![
                ActionView::DecodeIce(text),
                ActionView::DecodeAnswer(text),
                ActionView::DecodeOffer(text),
                ActionView::HoldSender,
                ActionView::AcceptDataChannels,
                ActionView::SetRemoteDescription(offer),
                ActionView::CreateAnswer,
                ActionView::SendText(signal_text(SignalView::Answer(answer))),
                ActionView::SetLocalDescription(answer),
            ] + sent_candidates(s.pending),
            step: StepView::Finished(FinishView::Done),
        }),
{
    let steps = offer_steps::<C, E>(text, offer, answer).push(flushed(s.pending));
    lemma_talk_and_flush(
        steps.map_values(|step: StepView<C, E>| (s, step)),
        offer_actions(text, offer, answer),
        offer_replies(offer, answer),
        s.pending,
    );
}

/// The replies to the handling of `answer`, up to the point where it is the remote description, if
/// there is something that it answers and nothing fails.
pub open spec fn answer_replies<C, E>(answer: SessionDescriptionView) -> Seq<ReplyView<C, E>> {
    seq![
        ReplyView::Ice(None),
        ReplyView::Description(Some(answer)),
        ReplyView::Done,
        ReplyView::Present(true),
        ReplyView::Done,
    ]
}

/// What is done about `answer`, which came in as `text`, before candidates follow.
pub open spec fn answer_actions<C>(text: Seq<char>, answer: SessionDescriptionView) -> Seq<
    ActionView<C>,
> {
    seq![
        ActionView::DecodeIce(text),
        ActionView::DecodeAnswer(text),
        ActionView::HoldSender,
        ActionView::HasLocalDescription,
        ActionView::SetRemoteDescription(answer),
    ]
}

/// The steps that ask for these actions.
pub open spec fn answer_steps<C, E>(text: Seq<char>, answer: SessionDescriptionView) -> Seq<
    StepView<C, E>,
> {
    let actions = answer_actions(text, answer);
    seq![
        receiving_step(ReceivingView::DecodingIce(text), actions[0]),
        receiving_step(ReceivingView::DecodingAnswer(text), actions[1]),
        receiving_step(ReceivingView::HoldingForAnswer(answer), actions[2]),
        receiving_step(ReceivingView::CheckingLocal(answer), actions[3]),
        receiving_step(ReceivingView::ApplyingAnswer, actions[4]),
    ]
}

/// An answer to an offer of this peer becomes the remote description, and then every candidate
/// that was kept back is sent, in the order in which it was gathered. The candidates stay kept.
pub proof fn law_answer_is_applied<C, E>(
    s: ServerView<C>,
    text: Seq<char>,
    answer: SessionDescriptionView,
)
    ensures
        run::<C, E>(
            s,
            received(IncomingView::Text(text)),
            answer_replies(answer) + done(s.pending.len()),
        ) == (Run::<C, E> {
            server: s,
            actions: answer_actions(text, answer) + sent_candidates(s.pending),
            step: StepView::Finished(FinishView::Done),
        }),
        run::<C, E>(
            s,
            received(IncomingView::Text(text)),
            seq![
                ReplyView::Ice(None),
                ReplyView::Description(Some(answer)),
                ReplyView::Done,
                ReplyView::Present(true),
                ReplyView::Done,
            ] + done(s.pending.len()),
        ) == (Run::<C, E> {
            server: s,
            actions: seq![
                ActionView::DecodeIce(text),
                ActionView::DecodeAnswer(text),
                ActionView::HoldSender,
                ActionView::HasLocalDescription,
                ActionView::SetRemoteDescription(answer),
            ] + sent_candidates(s.pending),
            step: StepView::Finished(FinishView::Done),
        }),
{
    let steps = answer_steps::<C, E>(text, answer).push(flushed(s.pending));
    lemma_talk_and_flush(
        steps.map_values(|step: StepView<C, E>| (s, step)),
        answer_actions(text, answer),
        answer_replies(answer),
        s.pending,
    );
}

/// An answer to nothing is not applied, but the candidates that were kept back are sent all the
/// same.
pub proof fn law_unasked_answer<C, E>(
    s: ServerView<C>,
    text: Seq<char>,
    answer: SessionDescriptionView,
)
    ensures
        run::<C, E>(
            s,
            received(IncomingView::Text(text)),
            seq![
                ReplyView::Ice(None),
                ReplyView::Description(Some(answer)),
                ReplyView::Done,
                ReplyView::Present(false),
            ] + done(s.pending.len()),
        ) == (Run::<C, E> {
            server: s,
            actions: seq![
                ActionView::DecodeIce(text),
                ActionView::DecodeAnswer(text),
                ActionView::HoldSender,
                ActionView::HasLocalDescription,
            ] + sent_candidates(s.pending),
            step: StepView::Finished(FinishView::Done),
        }),
{
    let replies: Seq<ReplyView<C, E>> = seq![
        ReplyView::Ice(None),
        ReplyView::Description(Some(answer)),
        ReplyView::Done,
        ReplyView::Present(false),
    ];
    let actions: Seq<ActionView<C>> = seq![
        ActionView::DecodeIce(text),
        ActionView::DecodeAnswer(text),
        ActionView::HoldSender,
        ActionView::HasLocalDescription,
    ];
    let stages: Seq<(ServerView<C>, StepView<C, E>)> = seq![
        (s, receiving_step(ReceivingView::DecodingIce(text), actions[0])),
        (s, receiving_step(ReceivingView::DecodingAnswer(text), actions[1])),
        (s, receiving_step(ReceivingView::HoldingForAnswer(answer), actions[2])),
        (s, receiving_step(ReceivingView::CheckingLocal(answer), actions[3])),
        (s, flushed(s.pending)),
    ];
    lemma_talk_and_flush(stages, actions, replies, s.pending);
}

/// A candidate that comes in once there is a remote description is added.
pub proof fn law_candidate_is_added<C, E>(
    s: ServerView<C>,
    text: Seq<char>,
    c: IceCandidateInitView,
)
    ensures
        run::<C, E>(
            s,
            received(IncomingView::Text(text)),
            seq![
                ReplyView::Ice(Some(c)),
                ReplyView::Present(true),
                ReplyView::Done,
            ],
        ) == (Run::<C, E> {
            server: s,
            actions: seq![
                ActionView::DecodeIce(text),
                ActionView::HasRemoteDescription,
                ActionView::AddIceCandidate(c),
            ],
            step: StepView::Finished(FinishView::Done),
        }),
{
    let replies: Seq<ReplyView<C, E>> = seq![
        ReplyView::Ice(Some(c)),
        ReplyView::Present(true),
        ReplyView::Done,
    ];
    let actions: Seq<ActionView<C>> = seq![
        ActionView::DecodeIce(text),
        ActionView::HasRemoteDescription,
        ActionView::AddIceCandidate(c),
    ];
    let stages: Seq<(ServerView<C>, StepView<C, E>)> = seq![
        (s, receiving_step(ReceivingView::DecodingIce(text), actions[0])),
        (s, receiving_step(ReceivingView::CheckingRemote(c), actions[1])),
        (s, receiving_step(ReceivingView::AddingCandidate, actions[2])),
        (s, StepView::Finished(FinishView::Done)),
    ];
    lemma_talk(stages, actions, replies);
}

/// A candidate that comes in before there is a remote description is dropped.
pub proof fn law_early_candidate_is_dropped<C, E>(
    s: ServerView<C>,
    text: Seq<char>,
    c: IceCandidateInitView,
)
    ensures
        run::<C, E>(
            s,
            received(IncomingView::Text(text)),
            seq![
                ReplyView::Ice(Some(c)),
                ReplyView::Present(false),
            ],
        ) == (Run::<C, E> {
            server: s,
            actions: seq![
                ActionView::DecodeIce(text),
                ActionView::HasRemoteDescription,
            ],
            step: StepView::Finished(FinishView::Done),
        }),
{
    let replies: Seq<ReplyView<C, E>> = seq![
        ReplyView::Ice(Some(c)),
        ReplyView::Present(false),
    ];
    let actions: Seq<ActionView<C>> = seq![
        ActionView::DecodeIce(text),
        ActionView::HasRemoteDescription,
    ];
    let stages: Seq<(ServerView<C>, StepView<C, E>)> = seq![
        (s, receiving_step(ReceivingView::DecodingIce(text), actions[0])),
        (s, receiving_step(ReceivingView::CheckingRemote(c), actions[1])),
        (s, StepView::Finished(FinishView::Done)),
    ];
    lemma_talk(stages, actions, replies);
}

/// A text that is no candidate, no answer and no offer changes nothing and is answered by
/// nothing.
pub proof fn law_other_text_is_skipped<C, E>(
    s: ServerView<C>,
    text: Seq<char>,
)
    ensures
        run::<C, E>(
            s,
            received(IncomingView::Text(text)),
            seq![
                ReplyView::Ice(None),
                ReplyView::Description(None),
                ReplyView::Description(None),
            ],
        ) == (Run::<C, E> {
            server: s,
            actions: seq![
                ActionView::DecodeIce(text),
                ActionView::DecodeAnswer(text),
                ActionView::DecodeOffer(text),
            ],
            step: StepView::Finished(FinishView::Done),
        }),
{
    let replies: Seq<ReplyView<C, E>> = seq![
        ReplyView::Ice(None),
        ReplyView::Description(None),
        ReplyView::Description(None),
    ];
    let actions: Seq<ActionView<C>> = seq![
        ActionView::DecodeIce(text),
        ActionView::DecodeAnswer(text),
        ActionView::DecodeOffer(text),
    ];
    let stages: Seq<(ServerView<C>, StepView<C, E>)> = seq![
        (s, receiving_step(ReceivingView::DecodingIce(text), actions[0])),
        (s, receiving_step(ReceivingView::DecodingAnswer(text), actions[1])),
        (s, receiving_step(ReceivingView::DecodingOffer, actions[2])),
        (s, StepView::Finished(FinishView::Done)),
    ];
    lemma_talk(stages, actions, replies);
}

/// An offer is sent like this: a data channel is opened and remembered, the offer is made, it
/// becomes the local description, and only then is it sent.
pub proof fn law_offer_is_sent<C, E>(
    s: ServerView<C>,
    channel: Arc<C>,
    offer: SessionDescriptionView,
)
    ensures
        run::<C, E>(
            s,
            request_step(
                RequestingView::OpeningChannel,
                ActionView::CreateDataChannel("data"@),
            ),
            seq![
                ReplyView::Channel(channel),
                ReplyView::Described(offer),
                ReplyView::Done,
                ReplyView::Done,
            ],
        ) == (Run::<C, E> {
            server: ServerView { channel: Some(channel), ..s },
            actions: seq![
                ActionView::CreateDataChannel("data"@),
                ActionView::CreateOffer,
                ActionView::SetLocalDescription(offer),
                ActionView::SendText(signal_text(SignalView::Offer(offer))),
            ],
            step: StepView::Finished(FinishView::Done),
        }),
{
    let opened = ServerView { channel: Some(channel), ..s };
    let replies: Seq<ReplyView<C, E>> = seq![
        ReplyView::Channel(channel),
        ReplyView::Described(offer),
        ReplyView::Done,
        ReplyView::Done,
    ];
    let actions: Seq<ActionView<C>> = seq![
        ActionView::CreateDataChannel("data"@),
        ActionView::CreateOffer,
        ActionView::SetLocalDescription(offer),
        ActionView::SendText(signal_text(SignalView::Offer(offer))),
    ];
    let stages: Seq<(ServerView<C>, StepView<C, E>)> = seq![
        (s, request_step(RequestingView::OpeningChannel, actions[0])),
        (opened, request_step(RequestingView::MakingOffer, actions[1])),
        (opened, request_step(RequestingView::StoringOffer(offer), actions[2])),
        (opened, request_step(RequestingView::SendingOffer, actions[3])),
        (opened, StepView::Finished(FinishView::Done)),
    ];
    lemma_talk(stages, actions, replies);
}

/// An offer for the caller is kept as the local description before it is handed over.
pub proof fn law_offer_is_created<C, E>(
    s: ServerView<C>,
    offer: SessionDescriptionView,
)
    ensures
        run::<C, E>(
            s,
            request_step(RequestingView::CreatingOffer, ActionView::CreateOffer),
            seq![
                ReplyView::Described(offer),
                ReplyView::Done,
            ],
        ) == (Run::<C, E> {
            server: s,
            actions: seq![
                ActionView::CreateOffer,
                ActionView::SetLocalDescription(offer),
            ],
            step: StepView::Finished(FinishView::Described(offer)),
        }),
{
    let replies: Seq<ReplyView<C, E>> = seq![
        ReplyView::Described(offer),
        ReplyView::Done,
    ];
    let actions: Seq<ActionView<C>> = seq![
        ActionView::CreateOffer,
        ActionView::SetLocalDescription(offer),
    ];
    let stages: Seq<(ServerView<C>, StepView<C, E>)> = seq![
        (s, request_step(RequestingView::CreatingOffer, actions[0])),
        (s, request_step(RequestingView::KeepingOffer(offer), actions[1])),
        (s, StepView::Finished(FinishView::Described(offer))),
    ];
    lemma_talk(stages, actions, replies);
}

/// An answer for the caller: the offer becomes the remote description, the answer is made, and it
/// is kept as the local description before it is handed over.
pub proof fn law_answer_is_created<C, E>(
    s: ServerView<C>,
    offer: SessionDescriptionView,
    answer: SessionDescriptionView,
)
    ensures
        run::<C, E>(
            s,
            request_step(RequestingView::TakingOffer, ActionView::SetRemoteDescription(offer)),
            seq![
                ReplyView::Done,
                ReplyView::Described(answer),
                ReplyView::Done,
            ],
        ) == (Run::<C, E> {
            server: s,
            actions: seq![
                ActionView::SetRemoteDescription(offer),
                ActionView::CreateAnswer,
                ActionView::SetLocalDescription(answer),
            ],
            step: StepView::Finished(FinishView::Described(answer)),
        }),
{
    let replies: Seq<ReplyView<C, E>> = seq![
        ReplyView::Done,
        ReplyView::Described(answer),
        ReplyView::Done,
    ];
    let actions: Seq<ActionView<C>> = seq![
        ActionView::SetRemoteDescription(offer),
        ActionView::CreateAnswer,
        ActionView::SetLocalDescription(answer),
    ];
    let stages: Seq<(ServerView<C>, StepView<C, E>)> = seq![
        (s, request_step(RequestingView::TakingOffer, actions[0])),
        (s, request_step(RequestingView::CreatingAnswer, actions[1])),
        (s, request_step(RequestingView::KeepingAnswer(answer), actions[2])),
        (s, StepView::Finished(FinishView::Described(answer))),
    ];
    lemma_talk(stages, actions, replies);
}

/// The program starts with the web socket, goes on with codecs and interceptors, reads a command
/// line that can be used, and opens the peer connection that the command line asks for.
pub proof fn law_start_up<C, E>(
    s: ServerView<C>,
    url: Seq<char>,
    args: Seq<Seq<char>>,
    options: OptionsView,
)
    requires
        options_of(args) == Ok::<OptionsView, ArgumentError>(options),
    ensures
        run::<C, E>(
            s,
            started(url),
            seq![
                ReplyView::Done,
                ReplyView::Done,
                ReplyView::Done,
                ReplyView::Arguments(args),
                ReplyView::Done,
            ],
        ) == (Run::<C, E> {
            server: s,
            actions: seq![
                ActionView::Connect(url),
                ActionView::RegisterCodecs,
                ActionView::RegisterInterceptors,
                ActionView::ReadArguments,
                ActionView::OpenPeerConnection(options, config_of(options)),
            ],
            step: StepView::Finished(FinishView::Done),
        }),
{
    let replies: Seq<ReplyView<C, E>> = seq![
        ReplyView::Done,
        ReplyView::Done,
        ReplyView::Done,
        ReplyView::Arguments(args),
        ReplyView::Done,
    ];
    let actions: Seq<ActionView<C>> = seq![
        ActionView::Connect(url),
        ActionView::RegisterCodecs,
        ActionView::RegisterInterceptors,
        ActionView::ReadArguments,
        ActionView::OpenPeerConnection(options, config_of(options)),
    ];
    let start_step = |p: StartUp, a: ActionView<C>| StepView::<C, E>::Perform(
        ProcedureView::StartUp(p),
        a,
    );
    let stages: Seq<(ServerView<C>, StepView<C, E>)> = seq![
        (s, start_step(StartUp::Connecting, actions[0])),
        (s, start_step(StartUp::RegisteringCodecs, actions[1])),
        (s, start_step(StartUp::RegisteringInterceptors, actions[2])),
        (s, start_step(StartUp::ReadingArguments, actions[3])),
        (s, start_step(StartUp::OpeningPeerConnection, actions[4])),
        (s, StepView::Finished(FinishView::Done)),
    ];
    lemma_talk(stages, actions, replies);
}

/// The peer connection that the program opens is the one that the words of the command line ask
/// for: with the relay where the fourth word is `relay`, entered with the second word as the user
/// name and the third as the password, and without it for any other fourth word or none.
pub proof fn law_start_up_by_the_words<C, E>(
    s: ServerView<C>,
    url: Seq<char>,
    args: Seq<Seq<char>>,
)
    requires
        args.len() >= 3,
    ensures
        run::<C, E>(
            s,
            started(url),
            seq![
                ReplyView::Done,
                ReplyView::Done,
                ReplyView::Done,
                ReplyView::Arguments(args),
                ReplyView::Done,
            ],
        ) == (Run::<C, E> {
            server: s,
            actions: seq![
                ActionView::Connect(url),
                ActionView::RegisterCodecs,
                ActionView::RegisterInterceptors,
                ActionView::ReadArguments,
                ActionView::OpenPeerConnection(
                    OptionsView {
                        username: args[1],
                        password: args[2],
                        relay: args.len() >= 4 && args[3] == "relay"@,
                    },
                    if args.len() >= 4 && args[3] == "relay"@ {
                        RtcConfigView {
                            ice_servers: seq![
                                IceServerView {
                                    url: "stun:stun.l.google.com:19302"@,
                                    credentials: CredentialsView::Anonymous,
                                },
                                IceServerView {
                                    url: "turn:35.200.208.109:8080"@,
                                    credentials: CredentialsView::Password {
                                        username: args[1],
                                        password: args[2],
                                    },
                                },
                            ],
                            policy: TransportPolicy::RelayOnly,
                        }
                    } else {
                        RtcConfigView {
                            ice_servers: seq![
                                IceServerView {
                                    url: "stun:stun.l.google.com:19302"@,
                                    credentials: CredentialsView::Anonymous,
                                },
                            ],
                            policy: TransportPolicy::Unrestricted,
                        }
                    },
                ),
            ],
            step: StepView::Finished(FinishView::Done),
        }),
{
    law_command_line(args);
    let options = options_of(args)->Ok_0;
    law_servers(options);
    let replies: Seq<ReplyView<C, E>> = seq![
        ReplyView::Done,
        ReplyView::Done,
        ReplyView::Done,
        ReplyView::Arguments(args),
        ReplyView::Done,
    ];
    let actions: Seq<ActionView<C>> = seq![
        ActionView::Connect(url),
        ActionView::RegisterCodecs,
        ActionView::RegisterInterceptors,
        ActionView::ReadArguments,
        ActionView::OpenPeerConnection(options, config_of(options)),
    ];
    let start_step = |p: StartUp, a: ActionView<C>| StepView::<C, E>::Perform(
        ProcedureView::StartUp(p),
        a,
    );
    let stages: Seq<(ServerView<C>, StepView<C, E>)> = seq![
        (s, start_step(StartUp::Connecting, actions[0])),
        (s, start_step(StartUp::RegisteringCodecs, actions[1])),
        (s, start_step(StartUp::RegisteringInterceptors, actions[2])),
        (s, start_step(StartUp::ReadingArguments, actions[3])),
        (s, start_step(StartUp::OpeningPeerConnection, actions[4])),
        (s, StepView::Finished(FinishView::Done)),
    ];
    lemma_talk(stages, actions, replies);
}

/// A command line that is too short ends the start before any peer connection is opened: without a
/// second word the user name is missed, and with a second word but no third the password.
pub proof fn law_start_up_needs_words<C, E>(s: ServerView<C>, url: Seq<char>, args: Seq<Seq<char>>)
    requires
        args.len() < 3,
    ensures
        run::<C, E>(
            s,
            started(url),
            seq![
                ReplyView::Done,
                ReplyView::Done,
                ReplyView::Done,
                ReplyView::Arguments(args),
            ],
        ) == (Run::<C, E> {
            server: s,
            actions: seq![
                ActionView::Connect(url),
                ActionView::RegisterCodecs,
                ActionView::RegisterInterceptors,
                ActionView::ReadArguments,
            ],
            step: StepView::Finished(
                FinishView::Unusable(
                    if args.len() == 2 {
                        ArgumentError::PasswordNotFound
                    } else {
                        ArgumentError::UsernameNotFound
                    },
                ),
            ),
        }),
{
    law_command_line(args);
    let replies: Seq<ReplyView<C, E>> = seq![
        ReplyView::Done,
        ReplyView::Done,
        ReplyView::Done,
        ReplyView::Arguments(args),
    ];
    let actions: Seq<ActionView<C>> = seq![
        ActionView::Connect(url),
        ActionView::RegisterCodecs,
        ActionView::RegisterInterceptors,
        ActionView::ReadArguments,
    ];
    let start_step = |p: StartUp, a: ActionView<C>| StepView::<C, E>::Perform(
        ProcedureView::StartUp(p),
        a,
    );
    let stages: Seq<(ServerView<C>, StepView<C, E>)> = seq![
        (s, start_step(StartUp::Connecting, actions[0])),
        (s, start_step(StartUp::RegisteringCodecs, actions[1])),
        (s, start_step(StartUp::RegisteringInterceptors, actions[2])),
        (s, start_step(StartUp::ReadingArguments, actions[3])),
        (s, StepView::Finished(FinishView::Unusable(options_of(args)->Err_0))),
    ];
    lemma_talk(stages, actions, replies);
}

/// A candidate that is gathered before there is a remote description is kept back, and nothing is
/// sent.
pub proof fn law_early_candidate_is_kept<C, E>(
    s: ServerView<C>,
    c: IceCandidateView,
    init: IceCandidateInitView,
)
    requires
        candidate_init_of(c) == Some(init),
    ensures
        run::<C, E>(
            s,
            gathered(Some(c)),
            seq![
                ReplyView::Present(false),
            ],
        ) == (Run::<C, E> {
            server: ServerView { pending: s.pending.push(init), ..s },
            actions: seq![
                ActionView::HasRemoteDescription,
            ],
            step: StepView::Finished(FinishView::Done),
        }),
{
    let replies: Seq<ReplyView<C, E>> = seq![
        ReplyView::Present(false),
    ];
    let actions: Seq<ActionView<C>> = seq![
        ActionView::HasRemoteDescription,
    ];
    let stages: Seq<(ServerView<C>, StepView<C, E>)> = seq![
        (s, gathered(Some(c))),
        (ServerView { pending: s.pending.push(init), ..s }, StepView::Finished(FinishView::Done)),
    ];
    lemma_talk(stages, actions, replies);
}

/// A candidate that is gathered once there is a remote description is sent, and not kept.
pub proof fn law_late_candidate_is_sent<C, E>(
    s: ServerView<C>,
    c: IceCandidateView,
    init: IceCandidateInitView,
)
    requires
        candidate_init_of(c) == Some(init),
    ensures
        run::<C, E>(
            s,
            gathered(Some(c)),
            seq![
                ReplyView::Present(true),
                ReplyView::Done,
            ],
        ) == (Run::<C, E> {
            server: s,
            actions: seq![
                ActionView::HasRemoteDescription,
                ActionView::SendText(signal_text(SignalView::Ice(init))),
            ],
            step: StepView::Finished(FinishView::Done),
        }),
{
    let replies: Seq<ReplyView<C, E>> = seq![
        ReplyView::Present(true),
        ReplyView::Done,
    ];
    let actions: Seq<ActionView<C>> = seq![
        ActionView::HasRemoteDescription,
        ActionView::SendText(signal_text(SignalView::Ice(init))),
    ];
    let stages: Seq<(ServerView<C>, StepView<C, E>)> = seq![
        (s, gathered(Some(c))),
        (s, StepView::Perform(ProcedureView::SendingCandidate, actions[1])),
        (s, StepView::Finished(FinishView::Done)),
    ];
    lemma_talk(stages, actions, replies);
}

/// An answer from the caller becomes the remote description, and that is all, with a data channel
/// or without.
pub proof fn law_answer_is_accepted<C, E>(s: ServerView<C>, answer: SessionDescriptionView)
    ensures
        run::<C, E>(
            s,
            request_step(RequestingView::TakingAnswer, ActionView::SetRemoteDescription(answer)),
            seq![ReplyView::Done],
        ) == (Run::<C, E> {
            server: s,
            actions: seq![ActionView::SetRemoteDescription(answer)],
            step: StepView::Finished(FinishView::Done),
        }),
{
    let actions: Seq<ActionView<C>> = seq![ActionView::SetRemoteDescription(answer)];
    let stages: Seq<(ServerView<C>, StepView<C, E>)> = seq![
        (s, request_step(RequestingView::TakingAnswer, actions[0])),
        (s, StepView::Finished(FinishView::Done)),
    ];
    lemma_talk(stages, actions, seq![ReplyView::Done]);
}

/// The end is always a good one: the peer connection is asked to close, and whether it does or
/// fails to, the procedure is done.
pub proof fn law_stream_is_stopped<C, E>(s: ServerView<C>, reply: ReplyView<C, E>)
    requires
        reply is Done || reply is Failed,
    ensures
        run::<C, E>(
            s,
            request_step(RequestingView::Closing, ActionView::Close),
            seq![reply],
        ) == (Run::<C, E> {
            server: s,
            actions: seq![ActionView::Close],
            step: StepView::Finished(FinishView::Done),
        }),
{
    let actions: Seq<ActionView<C>> = seq![ActionView::Close];
    let stages: Seq<(ServerView<C>, StepView<C, E>)> = seq![
        (s, request_step(RequestingView::Closing, actions[0])),
        (s, StepView::Finished(FinishView::Done)),
    ];
    lemma_talk(stages, actions, seq![reply]);
}

/// The end of gathering asks for nothing, and neither does a candidate that has no form: it ends
/// the task that gathers. Every other candidate waits to know whether there is a remote
/// description.
pub proof fn law_what_gathering_asks_for<C, E>(c: IceCandidateView)
    ensures
        gathered::<C, E>(None) == StepView::<C, E>::Finished(FinishView::Done),
        candidate_init_of(c) is None ==> gathered::<C, E>(Some(c)) == StepView::<C, E>::Finished(
            FinishView::Unsendable,
        ),
        candidate_init_of(c) is Some ==> (gathered::<C, E>(Some(c)) matches StepView::Perform(
            p,
            a,
        ) && p == ProcedureView::Gathered(candidate_init_of(c)->0) && a
            == ActionView::<C>::HasRemoteDescription),
{
}

/// The web socket counts as closed at its end and at an error, and then only. A message that is
/// neither text nor bytes, and bytes that are no text, are skipped without a trace.
pub proof fn law_what_is_no_text<C, E>(bytes: Seq<u8>, incoming: IncomingView)
    ensures
        received::<C, E>(IncomingView::Ended) == StepView::<C, E>::Finished(FinishView::Closed),
        received::<C, E>(IncomingView::Failed) == StepView::<C, E>::Finished(FinishView::Closed),
        received::<C, E>(IncomingView::Other) == StepView::<C, E>::Finished(FinishView::Done),
        !valid_utf8(bytes) ==> received::<C, E>(IncomingView::Binary(bytes)) == StepView::<
            C,
            E,
        >::Finished(FinishView::Done),
        received::<C, E>(incoming) == StepView::<C, E>::Finished(FinishView::Closed)
            ==> incoming is Ended || incoming is Failed,
{
}

/// A text for the other peer is sent, as it is, on the data channel that the peer has, and dropped
/// without a data channel.
pub proof fn law_message_needs_a_channel<C, E>(s: ServerView<C>, data: Seq<char>)
    ensures
        s.channel matches Some(c) ==> run::<C, E>(
            s,
            message_sent(s, data),
            seq![ReplyView::Done],
        ) == (Run::<C, E> {
            server: s,
            actions: seq![ActionView::SendOnChannel(c, data)],
            step: StepView::Finished(FinishView::Done),
        }),
        s.channel is None ==> message_sent::<C, E>(s, data) == StepView::<C, E>::Finished(
            FinishView::Done,
        ),
{
    if let Some(c) = s.channel {
        let stages: Seq<(ServerView<C>, StepView<C, E>)> = seq![
            (s, message_sent(s, data)),
            (s, StepView::Finished(FinishView::Done)),
        ];
        lemma_talk(stages, seq![ActionView::SendOnChannel(c, data)], seq![ReplyView::Done]);
    }
}

/// How a procedure ends on an error: whoever asked for it gets this error, the task that runs it
/// stops on this error, or this error is shown. Only a connection that cannot be closed is
/// passed over. What cannot fail has no error to hand on.
pub open spec fn failure<E>(p: ProcedureView, error: E) -> FinishView<E> {
    match p {
        ProcedureView::StartUp(StartUp::ReadingArguments) => FinishView::Mismatched,
        ProcedureView::StartUp(_) => FinishView::Failed(error),
        ProcedureView::Receiving(p) => match p {
            ReceivingView::AddingCandidate => FinishView::Reported(error),
            ReceivingView::ApplyingAnswer => FinishView::Aborted(error),
            ReceivingView::ApplyingOffer => FinishView::Aborted(error),
            ReceivingView::Answering => FinishView::Aborted(error),
            ReceivingView::SendingAnswer(_) => FinishView::Aborted(error),
            ReceivingView::StoringAnswer => FinishView::Aborted(error),
            ReceivingView::Flushing(_) => FinishView::Aborted(error),
            _ => FinishView::Mismatched,
        },
        ProcedureView::Gathered(_) => FinishView::Mismatched,
        ProcedureView::SendingCandidate => FinishView::Reported(error),
        ProcedureView::Requesting(RequestingView::Closing) => FinishView::Done,
        ProcedureView::Requesting(RequestingView::StoringOffer(_)) => FinishView::Aborted(error),
        ProcedureView::Requesting(_) => FinishView::Failed(error),
    }
}

/// A failure ends the procedure at once, with the error that it failed with, and what the peer
/// remembers stays as it was. Whoever asked for the procedure gets the error, but for an offer that
/// cannot be stored: this stops the task that runs the procedure, as does every failure in a
/// negotiation that came in. A candidate that cannot be added or sent is shown, a connection that
/// cannot be closed is passed over, and what cannot fail has no error to hand on.
pub proof fn law_failure_ends<C, E>(s: ServerView<C>, p: ProcedureView, error: E)
    ensures
        resumed::<C, E>(s, p, ReplyView::Failed(error)) == (
            s,
            StepView::<C, E>::Finished(failure(p, error)),
        ),
        resumed::<C, E>(s, p, ReplyView::Failed(error)) == (
            s,
            StepView::<C, E>::Finished(
                match p {
                    ProcedureView::StartUp(StartUp::ReadingArguments) => FinishView::Mismatched,
                    ProcedureView::StartUp(_) => FinishView::Failed(error),
                    ProcedureView::Receiving(ReceivingView::AddingCandidate) => {
                        FinishView::Reported(error)
                    },
                    ProcedureView::Receiving(ReceivingView::ApplyingAnswer) => {
                        FinishView::Aborted(error)
                    },
                    ProcedureView::Receiving(ReceivingView::ApplyingOffer) => {
                        FinishView::Aborted(error)
                    },
                    ProcedureView::Receiving(ReceivingView::Answering) => FinishView::Aborted(error),
                    ProcedureView::Receiving(ReceivingView::SendingAnswer(_)) => {
                        FinishView::Aborted(error)
                    },
                    ProcedureView::Receiving(ReceivingView::StoringAnswer) => {
                        FinishView::Aborted(error)
                    },
                    ProcedureView::Receiving(ReceivingView::Flushing(_)) => {
                        FinishView::Aborted(error)
                    },
                    ProcedureView::Receiving(_) => FinishView::Mismatched,
                    ProcedureView::Gathered(_) => FinishView::Mismatched,
                    ProcedureView::SendingCandidate => FinishView::Reported(error),
                    ProcedureView::Requesting(RequestingView::Closing) => FinishView::Done,
                    ProcedureView::Requesting(RequestingView::StoringOffer(_)) => {
                        FinishView::Aborted(error)
                    },
                    ProcedureView::Requesting(_) => FinishView::Failed(error),
                },
            ),
        ),
{
}

/// What a procedure does next does not depend on the data channel that the peer has, nor on the
/// candidates that it keeps back. Only where the handling of a message comes to these candidates do
/// they count.
pub proof fn law_memory_does_not_count<C, E>(
    s: ServerView<C>,
    t: ServerView<C>,
    p: ProcedureView,
    reply: ReplyView<C, E>,
)
    ensures
        s.pending == t.pending ==> resumed(s, p, reply).1 == resumed(t, p, reply).1,
        (match p {
            ProcedureView::Receiving(ReceivingView::CheckingLocal(_)) => false,
            ProcedureView::Receiving(ReceivingView::ApplyingAnswer) => false,
            ProcedureView::Receiving(ReceivingView::StoringAnswer) => false,
            _ => true,
        }) ==> resumed(s, p, reply).1 == resumed(t, p, reply).1,
{
}

/// A reply that is none to what a procedure waits for ends it as such, and is remembered by nobody.
pub proof fn law_unfit_reply<C, E>(s: ServerView<C>, p: ProcedureView, reply: ReplyView<C, E>)
    requires
        reply !is Failed,
        match p {
            ProcedureView::StartUp(StartUp::ReadingArguments) => reply !is Arguments,
            ProcedureView::StartUp(_) => reply !is Done,
            ProcedureView::Receiving(ReceivingView::DecodingIce(_)) => reply !is Ice,
            ProcedureView::Receiving(ReceivingView::DecodingAnswer(_)) => reply !is Description,
            ProcedureView::Receiving(ReceivingView::DecodingOffer) => reply !is Description,
            ProcedureView::Receiving(ReceivingView::CheckingRemote(_)) => reply !is Present,
            ProcedureView::Receiving(ReceivingView::CheckingLocal(_)) => reply !is Present,
            ProcedureView::Receiving(ReceivingView::Answering) => reply !is Described,
            ProcedureView::Receiving(_) => reply !is Done,
            ProcedureView::Gathered(_) => reply !is Present,
            ProcedureView::SendingCandidate => reply !is Done,
            ProcedureView::Requesting(RequestingView::OpeningChannel) => reply !is Channel,
            ProcedureView::Requesting(RequestingView::MakingOffer) => reply !is Described,
            ProcedureView::Requesting(RequestingView::CreatingOffer) => reply !is Described,
            ProcedureView::Requesting(RequestingView::CreatingAnswer) => reply !is Described,
            ProcedureView::Requesting(_) => reply !is Done,
        },
    ensures
        resumed(s, p, reply) == (s, StepView::<C, E>::Finished(FinishView::Mismatched)),
{
}

/// An error that a procedure ends with is the one that its last action failed with.
pub proof fn law_errors_are_handed_on<C, E>(
    s: ServerView<C>,
    p: ProcedureView,
    reply: ReplyView<C, E>,
    error: E,
)
    requires
        resumed(s, p, reply).1 == StepView::<C, E>::Finished(FinishView::Failed(error))
            || resumed(s, p, reply).1 == StepView::<C, E>::Finished(FinishView::Aborted(error))
            || resumed(s, p, reply).1 == StepView::<C, E>::Finished(FinishView::Reported(error)),
    ensures
        reply == ReplyView::<C, E>::Failed(error),
{
}

/// The peer remembers nothing but candidates that were gathered too early, and changes its data
/// channel only for one that it opened for an offer.
pub proof fn law_what_is_remembered<C, E>(
    s: ServerView<C>,
    p: ProcedureView,
    reply: ReplyView<C, E>,
)
    ensures
        ({
            let next = resumed(s, p, reply).0;
            &&& next.pending == (match (p, reply) {
                (ProcedureView::Gathered(c), ReplyView::Present(false)) => s.pending.push(c),
                _ => s.pending,
            })
            &&& next.channel == (match (p, reply) {
                (
                    ProcedureView::Requesting(RequestingView::OpeningChannel),
                    ReplyView::Channel(c),
                ) => Some(c),
                _ => s.channel,
            })
        }),
{
}

/// A candidate that is kept back stays kept, in its place, whatever procedure runs and however
/// its actions turn out.
pub proof fn law_kept_candidates_stay<C, E>(
    s: ServerView<C>,
    step: StepView<C, E>,
    replies: Seq<ReplyView<C, E>>,
)
    ensures
        s.pending.is_prefix_of(run(s, step, replies).server.pending),
    decreases replies.len(),
{
    let start = begun(s, step);
    if replies.len() == 0 {
        lemma_push(start, replies, ReplyView::Done);
        assert(replies =~= Seq::empty());
        assert(s.pending.subrange(0, s.pending.len() as int) =~= s.pending);
    } else {
        let before = replies.drop_last();
        law_kept_candidates_stay(s, step, before);
        lemma_push(start, before, replies.last());
        assert(before.push(replies.last()) =~= replies);
        let r = driven(start, before);
        match r.step {
            StepView::Perform(p, _) => {
                law_what_is_remembered(r.server, p, replies.last());
            },
            StepView::Finished(_) => {},
        }
        let n = s.pending.len() as int;
        let last = run(s, step, replies).server.pending;
        assert(last.subrange(0, n) =~= r.server.pending.subrange(0, n));
    }
}

/// Every text that a procedure sends on the web socket is that of a candidate, an answer or an
/// offer.
pub proof fn law_every_text_is_a_signal<C, E>(
    s: ServerView<C>,
    p: ProcedureView,
    reply: ReplyView<C, E>,
)
    ensures
        resumed(s, p, reply).1 matches StepView::Perform(_, ActionView::SendText(text))
            ==> exists|signal: SignalView| text == #[trigger] signal_text(signal),
{
}

/// How many replies a procedure can still wait for.
pub open spec fn patience<C, E>(s: ServerView<C>, step: StepView<C, E>) -> nat {
    let kept = s.pending.len();
    match step {
        StepView::Finished(_) => 0,
        StepView::Perform(ProcedureView::StartUp(p), _) => match p {
            StartUp::Connecting => 5,
            StartUp::RegisteringCodecs => 4,
            StartUp::RegisteringInterceptors => 3,
            StartUp::ReadingArguments => 2,
            StartUp::OpeningPeerConnection => 1,
        },
        StepView::Perform(ProcedureView::Receiving(p), _) => match p {
            ReceivingView::DecodingIce(_) => kept + 9,
            ReceivingView::DecodingAnswer(_) => kept + 8,
            ReceivingView::DecodingOffer => kept + 7,
            ReceivingView::CheckingRemote(_) => 2,
            ReceivingView::AddingCandidate => 1,
            ReceivingView::HoldingForAnswer(_) => kept + 3,
            ReceivingView::CheckingLocal(_) => kept + 2,
            ReceivingView::ApplyingAnswer => kept + 1,
            ReceivingView::HoldingForOffer(_) => kept + 6,
            ReceivingView::AcceptingChannels(_) => kept + 5,
            ReceivingView::ApplyingOffer => kept + 4,
            ReceivingView::Answering => kept + 3,
            ReceivingView::SendingAnswer(_) => kept + 2,
            ReceivingView::StoringAnswer => kept + 1,
            ReceivingView::Flushing(queue) => queue.len() + 1,
        },
        StepView::Perform(ProcedureView::Gathered(_), _) => 2,
        StepView::Perform(ProcedureView::SendingCandidate, _) => 1,
        StepView::Perform(ProcedureView::Requesting(p), _) => match p {
            RequestingView::OpeningChannel => 4,
            RequestingView::MakingOffer => 3,
            RequestingView::StoringOffer(_) => 2,
            RequestingView::SendingOffer => 1,
            RequestingView::CreatingOffer => 2,
            RequestingView::KeepingOffer(_) => 1,
            RequestingView::TakingOffer => 3,
            RequestingView::CreatingAnswer => 2,
            RequestingView::KeepingAnswer(_) => 1,
            RequestingView::TakingAnswer => 1,
            RequestingView::SendingMessage => 1,
            RequestingView::Closing => 1,
        },
    }
}

proof fn lemma_patience_sinks<C, E>(r: Run<C, E>, reply: ReplyView<C, E>)
    ensures
        r.step is Perform ==> patience(advanced(r, reply).server, advanced(r, reply).step)
            < patience(r.server, r.step),
{
}

/// Every procedure ends: alone, it waits for at most as many replies as its patience, whatever
/// they are.
pub proof fn law_procedures_end<C, E>(
    s: ServerView<C>,
    step: StepView<C, E>,
    replies: Seq<ReplyView<C, E>>,
)
    ensures
        ({
            let r = run(s, step, replies);
            &&& r.step is Finished || patience(r.server, r.step) + replies.len() <= patience(
                s,
                step,
            )
            &&& replies.len() >= patience(s, step) ==> r.step is Finished
            &&& replies.len() >= s.pending.len() + 9 && !(step matches StepView::Perform(
                ProcedureView::Receiving(ReceivingView::Flushing(_)),
                _,
            )) ==> r.step is Finished
        }),
    decreases replies.len(),
{
    let start = begun(s, step);
    if replies.len() == 0 {
        lemma_push(start, replies, ReplyView::Done);
        assert(replies =~= Seq::empty());
    } else {
        let before = replies.drop_last();
        law_procedures_end(s, step, before);
        lemma_push(start, before, replies.last());
        assert(before.push(replies.last()) =~= replies);
        lemma_patience_sinks(driven(start, before), replies.last());
    }
}

/// The handling of a message holds the sender at this point.
pub open spec fn holds_sender(p: ReceivingView) -> bool {
    match p {
        ReceivingView::DecodingIce(_) => false,
        ReceivingView::DecodingAnswer(_) => false,
        ReceivingView::DecodingOffer => false,
        ReceivingView::CheckingRemote(_) => false,
        ReceivingView::AddingCandidate => false,
        _ => true,
    }
}

/// Where a text is sent, the sender was held before.
pub open spec fn held_before_sending<C>(actions: Seq<ActionView<C>>) -> bool {
    forall|i: int|
        0 <= i < actions.len() && #[trigger] actions[i] is SendText ==> exists|j: int|
            0 <= j < i && #[trigger] actions[j] is HoldSender
}

proof fn lemma_sender_is_held<C, E>(
    s: ServerView<C>,
    incoming: IncomingView,
    replies: Seq<ReplyView<C, E>>,
)
    ensures
        ({
            let r = run(s, received(incoming), replies);
            &&& held_before_sending(r.actions)
            &&& r.step matches StepView::Perform(p, _) ==> (p matches ProcedureView::Receiving(q)
                && (holds_sender(q) ==> exists|j: int|
                0 <= j < r.actions.len() && #[trigger] r.actions[j] is HoldSender))
        }),
    decreases replies.len(),
{
    let start = begun(s, received(incoming));
    if replies.len() == 0 {
        lemma_push(start, replies, ReplyView::Done);
        assert(replies =~= Seq::empty());
    } else {
        let before = replies.drop_last();
        lemma_sender_is_held(s, incoming, before);
        lemma_push(start, before, replies.last());
        assert(before.push(replies.last()) =~= replies);
        let r = driven(start, before);
        let next = advanced(r, replies.last());
        if r.step is Perform && next.step is Perform {
            let a = next.step->Perform_1;
            assert(next.actions == r.actions.push(a));
            assert forall|i: int|
                0 <= i < next.actions.len() && #[trigger] next.actions[i] is SendText implies exists|
                j: int,
            | 0 <= j < i && #[trigger] next.actions[j] is HoldSender by {
                let j = if i < r.actions.len() {
                    assert(r.actions[i] is SendText);
                    choose|j: int| 0 <= j < i && #[trigger] r.actions[j] is HoldSender
                } else {
                    choose|j: int|
                        0 <= j < r.actions.len() && #[trigger] r.actions[j] is HoldSender
                };
                assert(next.actions[j] is HoldSender);
            }
            let q = next.step->Perform_0->Receiving_0;
            if holds_sender(q) {
                if a is HoldSender {
                    assert(next.actions[r.actions.len() as int] is HoldSender);
                } else {
                    let j = choose|j: int|
                        0 <= j < r.actions.len() && #[trigger] r.actions[j] is HoldSender;
                    assert(next.actions[j] is HoldSender);
                }
            }
        }
    }
}

/// The handling of a message asks for no text to be sent before it has asked for the sender to be
/// held, whatever the message is and however its actions turn out.
pub proof fn law_sender_is_held<C, E>(
    s: ServerView<C>,
    incoming: IncomingView,
    replies: Seq<ReplyView<C, E>>,
)
    ensures
        held_before_sending(run(s, received(incoming), replies).actions),
        ({
            let actions = run(s, received(incoming), replies).actions;
            forall|i: int|
                0 <= i < actions.len() && #[trigger] actions[i] is SendText ==> exists|j: int|
                    0 <= j < i && #[trigger] actions[j] is HoldSender
        }),
{
    lemma_sender_is_held(s, incoming, replies);
}

/// A message of bytes is the text that they encode: a text is handled the same way whether it
/// comes as text or as bytes.
pub proof fn law_bytes_are_text<C, E>(text: Seq<char>)
    ensures
        received::<C, E>(IncomingView::Binary(encode_utf8(text))) == received::<C, E>(
            IncomingView::Text(text),
        ),
{
    encode_utf8_valid_utf8(text);
    encode_utf8_decode_utf8(text);
}

/// What the tries to read `text` come to, one after the other, where every text is read as the
/// message that it was written from.
pub open spec fn reading<C, E>(text: Seq<char>) -> Seq<ReplyView<C, E>> {
    match signal_of(text) {
        Some(SignalView::Ice(c)) => seq![ReplyView::Ice(Some(c))],
        Some(SignalView::Answer(d)) => seq![
            ReplyView::Ice(None),
            ReplyView::Description(Some(d)),
        ],
        Some(SignalView::Offer(d)) => seq![
            ReplyView::Ice(None),
            ReplyView::Description(None),
            ReplyView::Description(Some(d)),
        ],
        None => seq![
            ReplyView::Ice(None),
            ReplyView::Description(None),
            ReplyView::Description(None),
        ],
    }
}

/// A message arrives as what it was sent as: where every text is read as the message that it was
/// written from, the text of a candidate is taken for this candidate, the text of an answer for
/// this answer and the text of an offer for this offer, and none for anything else.
pub proof fn law_signal_arrives<C, E>(s: ServerView<C>, signal: SignalView)
    ensures
        ({
            let text = signal_text(signal);
            run::<C, E>(s, received(IncomingView::Text(text)), reading(text)).step == (
            match signal {
                SignalView::Ice(c) => receiving_step::<C, E>(
                    ReceivingView::CheckingRemote(c),
                    ActionView::HasRemoteDescription,
                ),
                SignalView::Answer(d) => receiving_step::<C, E>(
                    ReceivingView::HoldingForAnswer(d),
                    ActionView::HoldSender,
                ),
                SignalView::Offer(d) => receiving_step::<C, E>(
                    ReceivingView::HoldingForOffer(d),
                    ActionView::HoldSender,
                ),
            })
        }),
{
    law_text_leads_back(signal);
    let text = signal_text(signal);
    let ice = (s, receiving_step(ReceivingView::DecodingIce(text), ActionView::DecodeIce(text)));
    let answer = (
        s,
        receiving_step(ReceivingView::DecodingAnswer(text), ActionView::DecodeAnswer(text)),
    );
    let offer = (
        s,
        receiving_step(ReceivingView::DecodingOffer, ActionView::DecodeOffer(text)),
    );
    match signal {
        SignalView::Ice(c) => {
            let stages: Seq<(ServerView<C>, StepView<C, E>)> = seq![
                ice,
                (
                    s,
                    receiving_step(
                        ReceivingView::CheckingRemote(c),
                        ActionView::HasRemoteDescription,
                    ),
                ),
            ];
            lemma_talk(stages, seq![ActionView::DecodeIce(text)], reading(text));
        },
        SignalView::Answer(d) => {
            let stages: Seq<(ServerView<C>, StepView<C, E>)> = seq![
                ice,
                answer,
                (
                    s,
                    receiving_step(ReceivingView::HoldingForAnswer(d), ActionView::HoldSender),
                ),
            ];
            lemma_talk(
                stages,
                seq![ActionView::DecodeIce(text), ActionView::DecodeAnswer(text)],
                reading(text),
            );
        },
        SignalView::Offer(d) => {
            let stages: Seq<(ServerView<C>, StepView<C, E>)> = seq![
                ice,
                answer,
                offer,
                (
                    s,
                    receiving_step(ReceivingView::HoldingForOffer(d), ActionView::HoldSender),
                ),
            ];
            lemma_talk(
                stages,
                seq![
                    ActionView::DecodeIce(text),
                    ActionView::DecodeAnswer(text),
                    ActionView::DecodeOffer(text),
                ],
                reading(text),
            );
        },
    }
}

/// The local description that the peer connection has after these actions.
pub open spec fn local_description<C>(actions: Seq<ActionView<C>>) -> Option<
    SessionDescriptionView,
>
    decreases actions.len(),
{
    if actions.len() == 0 {
        None
    } else {
        match actions.last() {
            ActionView::SetLocalDescription(d) => Some(d),
            _ => local_description(actions.drop_last()),
        }
    }
}

/// The remote description that the peer connection has after these actions.
pub open spec fn remote_description<C>(actions: Seq<ActionView<C>>) -> Option<
    SessionDescriptionView,
>
    decreases actions.len(),
{
    if actions.len() == 0 {
        None
    } else {
        match actions.last() {
            ActionView::SetRemoteDescription(d) => Some(d),
            _ => remote_description(actions.drop_last()),
        }
    }
}

proof fn lemma_last_local<C>(actions: Seq<ActionView<C>>, i: int)
    requires
        0 <= i < actions.len(),
        actions[i] is SetLocalDescription,
        forall|j: int| i < j < actions.len() ==> !(#[trigger] actions[j] is SetLocalDescription),
    ensures
        local_description(actions) == Some(actions[i]->SetLocalDescription_0),
    decreases actions.len(),
{
    if i < actions.len() - 1 {
        lemma_last_local(actions.drop_last(), i);
    }
}

proof fn lemma_last_remote<C>(actions: Seq<ActionView<C>>, i: int)
    requires
        0 <= i < actions.len(),
        actions[i] is SetRemoteDescription,
        forall|j: int| i < j < actions.len() ==> !(#[trigger] actions[j] is SetRemoteDescription),
    ensures
        remote_description(actions) == Some(actions[i]->SetRemoteDescription_0),
    decreases actions.len(),
{
    if i < actions.len() - 1 {
        lemma_last_remote(actions.drop_last(), i);
    }
}

/// A negotiation in which nothing fails and every text is read as the message that it was written
/// from: the text that the first peer sends is its offer, the one that the second peer sends back
/// is its answer, and in the end each peer has its own description as the local one and that of
/// the other peer as the remote one.
pub proof fn law_negotiation<C, E>(
    a: ServerView<C>,
    b: ServerView<C>,
    channel: Arc<C>,
    offer: SessionDescriptionView,
    answer: SessionDescriptionView,
)
    ensures
        ({
            let offer_text = signal_text(SignalView::Offer(offer));
            let answer_text = signal_text(SignalView::Answer(answer));
            let offering = run::<C, E>(
                a,
                request_step(
                    RequestingView::OpeningChannel,
                    ActionView::CreateDataChannel("data"@),
                ),
                seq![
                    ReplyView::Channel(channel),
                    ReplyView::Described(offer),
                    ReplyView::Done,
                    ReplyView::Done,
                ],
            );
            let answering = run::<C, E>(
                b,
                received(IncomingView::Text(offer_text)),
                reading(offer_text) + seq![
                    ReplyView::Done,
                    ReplyView::Done,
                    ReplyView::Done,
                    ReplyView::Described(answer),
                    ReplyView::Done,
                    ReplyView::Done,
                ] + done(b.pending.len()),
            );
            let closing = run::<C, E>(
                offering.server,
                received(IncomingView::Text(answer_text)),
                reading(answer_text) + seq![
                    ReplyView::Done,
                    ReplyView::Present(true),
                    ReplyView::Done,
                ] + done(a.pending.len()),
            );
            &&& offering.actions.last() == ActionView::<C>::SendText(offer_text)
            &&& answering.actions.contains(ActionView::SendText(answer_text))
            &&& local_description(offering.actions + closing.actions) == Some(offer)
            &&& remote_description(offering.actions + closing.actions) == Some(answer)
            &&& local_description(answering.actions) == Some(answer)
            &&& remote_description(answering.actions) == Some(offer)
            &&& offering.step == StepView::<C, E>::Finished(FinishView::Done)
            &&& answering.step == StepView::<C, E>::Finished(FinishView::Done)
            &&& closing.step == StepView::<C, E>::Finished(FinishView::Done)
        }),
{
    let offer_text = signal_text(SignalView::Offer(offer));
    let answer_text = signal_text(SignalView::Answer(answer));
    law_text_leads_back(SignalView::Offer(offer));
    law_text_leads_back(SignalView::Answer(answer));
    assert(reading::<C, E>(offer_text) + seq![
        ReplyView::Done,
        ReplyView::Done,
        ReplyView::Done,
        ReplyView::Described(answer),
        ReplyView::Done,
        ReplyView::Done,
    ] =~= offer_replies(offer, answer));
    assert(reading::<C, E>(answer_text) + seq![
        ReplyView::Done,
        ReplyView::Present(true),
        ReplyView::Done,
    ] =~= answer_replies(answer));
    law_offer_is_sent::<C, E>(a, channel, offer);
    law_offer_is_answered::<C, E>(b, offer_text, offer, answer);
    law_answer_is_applied::<C, E>(
        ServerView { channel: Some(channel), ..a },
        answer_text,
        answer,
    );
    let sent: Seq<ActionView<C>> = seq![
        ActionView::CreateDataChannel("data"@),
        ActionView::CreateOffer,
        ActionView::SetLocalDescription(offer),
        ActionView::SendText(offer_text),
    ];
    let first = sent + (answer_actions(answer_text, answer) + sent_candidates(a.pending));
    lemma_last_local(first, 2);
    lemma_last_remote(first, 8);
    let second = offer_actions::<C>(offer_text, offer, answer) + sent_candidates(b.pending);
    lemma_last_local(second, 8);
    lemma_last_remote(second, 5);
    assert(second[7] == ActionView::<C>::SendText(answer_text));
}

} // verus!
