//! The start of the program, up to the peer connection.

use crate::config::{config_of, options_of, parse_options, rtc_config};
use crate::protocol::{
    Action, ActionView, Finish, FinishView, Procedure, ProcedureView, Reply, ReplyView, Step,
    StepView,
};
use vstd::prelude::*;

verus! {

/// What the start of the program waits for.
#[derive(Debug, Clone, Copy, PartialEq, Eq, Structural)]
pub enum StartUp {
    Connecting,
    RegisteringCodecs,
    RegisteringInterceptors,
    ReadingArguments,
    OpeningPeerConnection,
}

/// The program starts by connecting to the web socket at `url`.
pub open spec fn started<C, E>(url: Seq<char>) -> StepView<C, E> {
    StepView::Perform(ProcedureView::StartUp(StartUp::Connecting), ActionView::Connect(url))
}

/// How the start goes on. The web socket comes first, the command line is looked at only when
/// everything before it was done, and the first failure ends it with its error.
pub open spec fn start_up_resumed<C, E>(p: StartUp, reply: ReplyView<C, E>) -> StepView<C, E> {
    match (p, reply) {
        (StartUp::ReadingArguments, ReplyView::Arguments(args)) => match options_of(args) {
            Ok(options) => StepView::Perform(
                ProcedureView::StartUp(StartUp::OpeningPeerConnection),
                ActionView::OpenPeerConnection(options, config_of(options)),
            ),
            Err(e) => StepView::Finished(FinishView::Unusable(e)),
        },
        (StartUp::ReadingArguments, _) => StepView::Finished(FinishView::Mismatched),
        (_, ReplyView::Failed(e)) => StepView::Finished(FinishView::Failed(e)),
        (StartUp::Connecting, ReplyView::Done) => StepView::Perform(
            ProcedureView::StartUp(StartUp::RegisteringCodecs),
            ActionView::RegisterCodecs,
        ),
        (StartUp::RegisteringCodecs, ReplyView::Done) => StepView::Perform(
            ProcedureView::StartUp(StartUp::RegisteringInterceptors),
            ActionView::RegisterInterceptors,
        ),
        (StartUp::RegisteringInterceptors, ReplyView::Done) => StepView::Perform(
            ProcedureView::StartUp(StartUp::ReadingArguments),
            ActionView::ReadArguments,
        ),
        (StartUp::OpeningPeerConnection, ReplyView::Done) => StepView::Finished(FinishView::Done),
        _ => StepView::Finished(FinishView::Mismatched),
    }
}

/// Goes on with the start of the program.
pub fn resume_start_up<C, E>(p: StartUp, reply: Reply<C, E>) -> (r: Step<C, E>)
    ensures
        r@ == start_up_resumed(p, reply@),
{
    match (p, reply) {
        (StartUp::ReadingArguments, Reply::Arguments(args)) => match parse_options(&args) {
            Ok(options) => {
                let config = rtc_config(&options);
                Step::Perform(
                    Procedure::StartUp(StartUp::OpeningPeerConnection),
                    Action::OpenPeerConnection(options, config),
                )
            },
            Err(e) => Step::Finished(Finish::Unusable(e)),
        },
        (StartUp::ReadingArguments, _) => Step::Finished(Finish::Mismatched),
        (_, Reply::Failed(e)) => Step::Finished(Finish::Failed(e)),
        (StartUp::Connecting, Reply::Done) => Step::Perform(
            Procedure::StartUp(StartUp::RegisteringCodecs),
            Action::RegisterCodecs,
        ),
        (StartUp::RegisteringCodecs, Reply::Done) => Step::Perform(
            Procedure::StartUp(StartUp::RegisteringInterceptors),
            Action::RegisterInterceptors,
        ),
        (StartUp::RegisteringInterceptors, Reply::Done) => Step::Perform(
            Procedure::StartUp(StartUp::ReadingArguments),
            Action::ReadArguments,
        ),
        (StartUp::OpeningPeerConnection, Reply::Done) => Step::Finished(Finish::Done),
        _ => Step::Finished(Finish::Mismatched),
    }
}

} // verus!
