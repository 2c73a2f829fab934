//! How the decisions in this crate and the caller that carries them out talk to each other.
//!
//! A procedure is a task that takes several steps, each of which waits for something outside:
//! a peer connection, a web socket, a data channel. It asks for one [`Action`] at a time and
//! goes on by the [`Reply`] to it, until it is [`Finish`]ed.

use crate::config::{ArgumentError, Options, OptionsView, RtcConfig, RtcConfigView, texts};
use crate::receiving::{Receiving, ReceivingView};
use crate::requests::{Requesting, RequestingView};
use crate::signal::{
    IceCandidateInit, IceCandidateInitView, SessionDescription, SessionDescriptionView,
};
use crate::startup::StartUp;
use std::sync::Arc;
use vstd::prelude::*;

verus! {

/// What the caller is to do next. A data channel is a value of type `C`, shared by those who use
/// it.
#[derive(Debug)]
pub enum Action<C> {
    /// Open a web socket to this address.
    Connect(String),
    /// Register the codecs that a peer connection can use.
    RegisterCodecs,
    /// Register the interceptors that a peer connection uses.
    RegisterInterceptors,
    /// Hand over the command line, the name of the program included.
    ReadArguments,
    /// Create the peer connection. The options are those that the set-up was made from.
    OpenPeerConnection(Options, RtcConfig),
    /// Try to read the text as an ICE candidate.
    DecodeIce(String),
    /// Try to read the text as an answer.
    DecodeAnswer(String),
    /// Try to read the text as an offer.
    DecodeOffer(String),
    /// Tell whether the peer connection has a remote description.
    HasRemoteDescription,
    /// Tell whether the peer connection has a local description.
    HasLocalDescription,
    /// Add a candidate of the other peer to the peer connection.
    AddIceCandidate(IceCandidateInit),
    /// Set the remote description of the peer connection.
    SetRemoteDescription(SessionDescription),
    /// Set the local description of the peer connection.
    SetLocalDescription(SessionDescription),
    /// Have the peer connection make an offer.
    CreateOffer,
    /// Have the peer connection make an answer.
    CreateAnswer,
    /// Open a data channel with this label.
    CreateDataChannel(String),
    /// From now on, take the data channels that the other peer opens.
    AcceptDataChannels,
    /// Keep everybody else from sending on the web socket until this procedure is finished.
    HoldSender,
    /// Send the text on the web socket.
    SendText(String),
    /// Send the text on this data channel.
    SendOnChannel(Arc<C>, String),
    /// Close the peer connection.
    Close,
}

/// An [`Action`] by what it holds.
pub enum ActionView<C> {
    Connect(Seq<char>),
    RegisterCodecs,
    RegisterInterceptors,
    ReadArguments,
    OpenPeerConnection(OptionsView, RtcConfigView),
    DecodeIce(Seq<char>),
    DecodeAnswer(Seq<char>),
    DecodeOffer(Seq<char>),
    HasRemoteDescription,
    HasLocalDescription,
    AddIceCandidate(IceCandidateInitView),
    SetRemoteDescription(SessionDescriptionView),
    SetLocalDescription(SessionDescriptionView),
    CreateOffer,
    CreateAnswer,
    CreateDataChannel(Seq<char>),
    AcceptDataChannels,
    HoldSender,
    SendText(Seq<char>),
    SendOnChannel(Arc<C>, Seq<char>),
    Close,
}

impl<C> View for Action<C> {
    type V = ActionView<C>;

    open spec fn view(&self) -> ActionView<C> {
        match self {
            Action::Connect(url) => ActionView::Connect(url@),
            Action::RegisterCodecs => ActionView::RegisterCodecs,
            Action::RegisterInterceptors => ActionView::RegisterInterceptors,
            Action::ReadArguments => ActionView::ReadArguments,
            Action::OpenPeerConnection(o, c) => ActionView::OpenPeerConnection(o@, c@),
            Action::DecodeIce(text) => ActionView::DecodeIce(text@),
            Action::DecodeAnswer(text) => ActionView::DecodeAnswer(text@),
            Action::DecodeOffer(text) => ActionView::DecodeOffer(text@),
            Action::HasRemoteDescription => ActionView::HasRemoteDescription,
            Action::HasLocalDescription => ActionView::HasLocalDescription,
            Action::AddIceCandidate(c) => ActionView::AddIceCandidate(c@),
            Action::SetRemoteDescription(d) => ActionView::SetRemoteDescription(d@),
            Action::SetLocalDescription(d) => ActionView::SetLocalDescription(d@),
            Action::CreateOffer => ActionView::CreateOffer,
            Action::CreateAnswer => ActionView::CreateAnswer,
            Action::CreateDataChannel(label) => ActionView::CreateDataChannel(label@),
            Action::AcceptDataChannels => ActionView::AcceptDataChannels,
            Action::HoldSender => ActionView::HoldSender,
            Action::SendText(text) => ActionView::SendText(text@),
            Action::SendOnChannel(c, text) => ActionView::SendOnChannel(*c, text@),
            Action::Close => ActionView::Close,
        }
    }
}

/// What came of an action. An error is a value of type `E`, which the procedure hands on as it is.
#[derive(Debug)]
pub enum Reply<C, E> {
    /// It was done.
    Done,
    /// It failed, with this error.
    Failed(E),
    /// The description that was asked for is there, or is not.
    Present(bool),
    /// The peer connection made this description.
    Described(SessionDescription),
    /// The text was this candidate, or was none.
    Ice(Option<IceCandidateInit>),
    /// The text was this description, or was none.
    Description(Option<SessionDescription>),
    /// This is the command line.
    Arguments(Vec<String>),
    /// This data channel was opened.
    Channel(Arc<C>),
}

/// A [`Reply`] by what it holds.
pub enum ReplyView<C, E> {
    Done,
    Failed(E),
    Present(bool),
    Described(SessionDescriptionView),
    Ice(Option<IceCandidateInitView>),
    Description(Option<SessionDescriptionView>),
    Arguments(Seq<Seq<char>>),
    Channel(Arc<C>),
}

impl<C, E> View for Reply<C, E> {
    type V = ReplyView<C, E>;

    open spec fn view(&self) -> ReplyView<C, E> {
        match self {
            Reply::Done => ReplyView::Done,
            Reply::Failed(e) => ReplyView::Failed(*e),
            Reply::Present(b) => ReplyView::Present(*b),
            Reply::Described(d) => ReplyView::Described(d@),
            Reply::Ice(Some(c)) => ReplyView::Ice(Some(c@)),
            Reply::Ice(None) => ReplyView::Ice(None),
            Reply::Description(Some(d)) => ReplyView::Description(Some(d@)),
            Reply::Description(None) => ReplyView::Description(None),
            Reply::Arguments(args) => ReplyView::Arguments(texts(args@)),
            Reply::Channel(c) => ReplyView::Channel(*c),
        }
    }
}

/// A procedure that waits for the reply to its last action.
#[derive(Debug)]
pub enum Procedure {
    /// The start of the program.
    StartUp(StartUp),
    /// A message that came in on the web socket.
    Receiving(Receiving),
    /// A candidate that was gathered: first it must be known whether the other peer can use it.
    Gathered(IceCandidateInit),
    /// A gathered candidate that is being sent.
    SendingCandidate,
    /// Something that the user asked for.
    Requesting(Requesting),
}

/// A [`Procedure`] by what it holds.
pub enum ProcedureView {
    StartUp(StartUp),
    Receiving(ReceivingView),
    Gathered(IceCandidateInitView),
    SendingCandidate,
    Requesting(RequestingView),
}

impl View for Procedure {
    type V = ProcedureView;

    open spec fn view(&self) -> ProcedureView {
        match self {
            Procedure::StartUp(p) => ProcedureView::StartUp(*p),
            Procedure::Receiving(p) => ProcedureView::Receiving(p@),
            Procedure::Gathered(c) => ProcedureView::Gathered(c@),
            Procedure::SendingCandidate => ProcedureView::SendingCandidate,
            Procedure::Requesting(p) => ProcedureView::Requesting(p@),
        }
    }
}

/// How a procedure ended.
#[derive(Debug)]
pub enum Finish<E> {
    /// All of it was done, or there was nothing to do.
    Done,
    /// All of it was done, and this description was made.
    Described(SessionDescription),
    /// An action failed with this error, which goes to whoever asked for the procedure.
    Failed(E),
    /// An action failed with this error, and must not fail: the task that runs the procedure
    /// cannot go on.
    Aborted(E),
    /// An action failed with this error, which is shown to the user. Nothing else comes of it.
    Reported(E),
    /// A gathered candidate has no form to be sent in: the task that gathers cannot go on.
    Unsendable,
    /// The command line cannot be used.
    Unusable(ArgumentError),
    /// The web socket is closed: no message follows.
    Closed,
    /// The reply was none to the action that was asked for.
    Mismatched,
}

/// A [`Finish`] by what it holds.
pub enum FinishView<E> {
    Done,
    Described(SessionDescriptionView),
    Failed(E),
    Aborted(E),
    Reported(E),
    Unsendable,
    Unusable(ArgumentError),
    Closed,
    Mismatched,
}

impl<E> View for Finish<E> {
    type V = FinishView<E>;

    open spec fn view(&self) -> FinishView<E> {
        match self {
            Finish::Done => FinishView::Done,
            Finish::Described(d) => FinishView::Described(d@),
            Finish::Failed(e) => FinishView::Failed(*e),
            Finish::Aborted(e) => FinishView::Aborted(*e),
            Finish::Reported(e) => FinishView::Reported(*e),
            Finish::Unsendable => FinishView::Unsendable,
            Finish::Unusable(e) => FinishView::Unusable(*e),
            Finish::Closed => FinishView::Closed,
            Finish::Mismatched => FinishView::Mismatched,
        }
    }
}

/// Where a procedure stands.
#[derive(Debug)]
pub enum Step<C, E> {
    /// The action is to be performed, and the procedure resumed with the reply.
    Perform(Procedure, Action<C>),
    /// There is nothing left to do.
    Finished(Finish<E>),
}

/// A [`Step`] by what it holds.
pub enum StepView<C, E> {
    Perform(ProcedureView, ActionView<C>),
    Finished(FinishView<E>),
}

impl<C, E> View for Step<C, E> {
    type V = StepView<C, E>;

    open spec fn view(&self) -> StepView<C, E> {
        match self {
            Step::Perform(p, a) => StepView::Perform(p@, a@),
            Step::Finished(f) => StepView::Finished(f@),
        }
    }
}

} // verus!
