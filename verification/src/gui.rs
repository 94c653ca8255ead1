//! What the user interface shows and does: its state, the button that
//! toggles streaming, and how it follows the network's events.
use vstd::prelude::*;

use crate::capture::Frame;

verus! {

/// What the user interface is doing; `R` receives the frames being watched.
#[derive(Debug)]
pub enum GUIState<R> {
    Idle,
    Streaming,
    Watching(R),
}

/// What the network tells the user interface; `T` carries an incoming track.
#[derive(Debug)]
pub enum WebrtcEvents<T> {
    /// Every peer answered the offers: streaming can start.
    GatheredAnswers,
    /// A peer started streaming to us.
    TrackArrived(T),
    /// Streaming stopped.
    TrackRemoved,
}

impl<T> WebrtcEvents<T> {
    /// The event's name, as shown in logs.
    pub fn name(&self) -> (s: &'static str)
        ensures
            self is GatheredAnswers ==> s@ == "GatheredAnswers"@,
            self is TrackArrived ==> s@ == "TrackArrived"@,
            self is TrackRemoved ==> s@ == "TrackRemoved"@,
    {
        match self {
            WebrtcEvents::GatheredAnswers => "GatheredAnswers",
            WebrtcEvents::TrackArrived(_) => "TrackArrived",
            WebrtcEvents::TrackRemoved => "TrackRemoved",
        }
    }
}

/// What the toggle button asks of the network.
#[derive(Debug, Clone, Copy, PartialEq, Eq, Structural)]
pub enum StreamCommand {
    Start,
    Stop,
}

/// What the user interface starts or stops after a network event.
#[derive(Debug)]
pub enum EventEffect<T> {
    /// Capture, encode and send frames.
    StartSending,
    /// Decode the incoming track `T`, then watch the decoded frames.
    StartDecoding(T),
    /// Stop sending frames.
    CancelSending,
}

/// The button's command in a state: the button is shown only when not
/// watching.
pub open spec fn spec_toggle_command<R>(state: GUIState<R>) -> Option<StreamCommand> {
    match state {
        GUIState::Idle => Some(StreamCommand::Start),
        GUIState::Streaming => Some(StreamCommand::Stop),
        GUIState::Watching(_) => None,
    }
}

impl<R> GUIState<R> {
    /// What pressing the toggle button asks: to start streaming when idle, to
    /// stop when streaming; there is no button while watching.
    pub fn toggle_command(&self) -> (c: Option<StreamCommand>)
        ensures
            c == spec_toggle_command(*self),
    {
        match self {
            GUIState::Idle => Some(StreamCommand::Start),
            GUIState::Streaming => Some(StreamCommand::Stop),
            GUIState::Watching(_) => None,
        }
    }

    /// Follows a network event: streaming starts when every answer has
    /// arrived, decoding when a track arrives, and everything returns to idle
    /// when the track is removed.
    pub fn handle_event<T>(&mut self, event: WebrtcEvents<T>) -> (e: EventEffect<T>)
        ensures
            match event {
                WebrtcEvents::GatheredAnswers => {
                    &&& *final(self) is Streaming
                    &&& e is StartSending
                },
                WebrtcEvents::TrackArrived(t) => {
                    &&& *final(self) == *old(self)
                    &&& e == EventEffect::StartDecoding(t)
                },
                WebrtcEvents::TrackRemoved => {
                    &&& *final(self) is Idle
                    &&& e is CancelSending
                },
            },
    {
        match event {
            WebrtcEvents::GatheredAnswers => {
                *self = GUIState::Streaming;
                EventEffect::StartSending
            },
            WebrtcEvents::TrackArrived(t) => EventEffect::StartDecoding(t),
            WebrtcEvents::TrackRemoved => {
                *self = GUIState::Idle;
                EventEffect::CancelSending
            },
        }
    }

    /// Starts watching the frames `frames` receives.
    pub fn watch(&mut self, frames: R)
        ensures
            *final(self) == GUIState::Watching(frames),
    {
        *self = GUIState::Watching(frames);
    }
}

/// Whether a received frame can be shown: it has pixels.
pub fn frame_is_displayable(frame: &Frame) -> (b: bool)
    ensures
        b == (frame.width != 0 && frame.height != 0),
{
    frame.width != 0 && frame.height != 0
}

/// Law: the toggle button alternates: idle, it starts streaming; once every
/// answer has arrived the client streams and the button stops it; once the
/// track is removed the client is idle again.
pub proof fn law_toggle_alternates<R>(r: R)
    ensures
        spec_toggle_command(GUIState::<R>::Idle) == Some(StreamCommand::Start),
        spec_toggle_command(GUIState::<R>::Streaming) == Some(StreamCommand::Stop),
        spec_toggle_command(GUIState::<R>::Watching(r)) is None,
{
}

} // verus!
