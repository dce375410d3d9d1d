use vstd::prelude::*;

verus! {

/// The reader that takes MAVLink messages off the connection and hands them
/// to the pipeline. Its loop asks, at each step, what to do next.
#[derive(Debug)]
pub struct MavlinkSource;

/// Why the reader stops.
#[derive(Clone, Copy, Debug, PartialEq, Eq, Structural)]
pub enum ReaderStop {
    /// Shutdown was requested.
    ShutdownRequested,
    /// Nobody takes messages any more.
    ChannelClosed,
}

/// What the reader does next.
#[derive(Clone, Copy, Debug, PartialEq, Eq, Structural)]
pub enum ReaderAction {
    /// Block on the connection for the next message.
    Receive,
    /// Hand the received message to the pipeline.
    Forward,
    /// Report the receive error, then go back to the shutdown check.
    ReportError,
    /// Go back to the shutdown check.
    Continue,
    /// Leave the loop.
    Stop(ReaderStop),
}

/// How a receive from the connection ended.
#[derive(Clone, Copy, Debug, PartialEq, Eq, Structural)]
pub enum ReceiveOutcome {
    /// A message arrived.
    Message,
    /// The connection reported an error.
    Error,
}

impl MavlinkSource {
    /// The step at the top of the loop: stop once shutdown is requested,
    /// otherwise receive.
    pub fn on_poll(cancelled: bool) -> (action: ReaderAction)
        ensures
            cancelled ==> action == ReaderAction::Stop(ReaderStop::ShutdownRequested),
            !cancelled ==> action == ReaderAction::Receive,
    {
        if cancelled {
            ReaderAction::Stop(ReaderStop::ShutdownRequested)
        } else {
            ReaderAction::Receive
        }
    }

    /// The step after a receive: a message is forwarded; an error ends the
    /// loop if shutdown was requested meanwhile, and is reported otherwise.
    pub fn on_receive(outcome: ReceiveOutcome, cancelled: bool) -> (action: ReaderAction)
        ensures
            outcome == ReceiveOutcome::Message ==> action == ReaderAction::Forward,
            outcome == ReceiveOutcome::Error && cancelled ==> action == ReaderAction::Stop(
                ReaderStop::ShutdownRequested,
            ),
            outcome == ReceiveOutcome::Error && !cancelled ==> action == ReaderAction::ReportError,
    {
        match outcome {
            ReceiveOutcome::Message => ReaderAction::Forward,
            ReceiveOutcome::Error => if cancelled {
                ReaderAction::Stop(ReaderStop::ShutdownRequested)
            } else {
                ReaderAction::ReportError
            },
        }
    }

    /// The step after forwarding: carry on while the pipeline takes messages,
    /// stop once it no longer does.
    pub fn on_forward(delivered: bool) -> (action: ReaderAction)
        ensures
            delivered ==> action == ReaderAction::Continue,
            !delivered ==> action == ReaderAction::Stop(ReaderStop::ChannelClosed),
    {
        if delivered {
            ReaderAction::Continue
        } else {
            ReaderAction::Stop(ReaderStop::ChannelClosed)
        }
    }
}

} // verus!
