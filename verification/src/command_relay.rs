use vstd::prelude::*;

verus! {

/// What the command consumer got from Kafka.
#[derive(Clone, Copy, Debug, PartialEq, Eq, Structural)]
pub enum CommandEvent {
    /// Shutdown was requested.
    ShutdownRequested,
    /// Receiving from the command topic failed.
    ReceiveFailed,
    /// A record arrived without a payload.
    EmptyPayload,
    /// A record's payload is not a command.
    UndecodablePayload,
    /// A record's payload is a command.
    CommandDecoded,
}

/// What the command consumer does next.
#[derive(Clone, Copy, Debug, PartialEq, Eq, Structural)]
pub enum CommandAction {
    /// Leave the loop.
    Stop,
    /// Report the error and wait for the next record.
    ReportError,
    /// Warn and drop the record.
    Skip,
    /// Send the command over the MAVLink connection.
    Send,
}

/// How sending a command over MAVLink ended.
#[derive(Clone, Copy, Debug, PartialEq, Eq, Structural)]
pub enum SendOutcome {
    /// The command went out.
    Sent,
    /// The connection refused it.
    Failed,
    /// The task that sent it did not complete.
    TaskFailed,
}

/// The state of the command consumer: how many commands it has sent.
#[derive(Debug)]
pub struct CommandRelay {
    pub command_count: u64,
}

impl CommandRelay {
    /// A consumer that has sent nothing yet.
    pub fn new() -> (relay: CommandRelay)
        ensures
            relay.command_count == 0,
    {
        CommandRelay { command_count: 0 }
    }

    /// Decides what to do with `event`: only a decoded command is sent.
    pub fn on_event(&self, event: CommandEvent) -> (action: CommandAction)
        ensures
            event == CommandEvent::ShutdownRequested ==> action == CommandAction::Stop,
            event == CommandEvent::ReceiveFailed ==> action == CommandAction::ReportError,
            event == CommandEvent::EmptyPayload ==> action == CommandAction::Skip,
            event == CommandEvent::UndecodablePayload ==> action == CommandAction::Skip,
            event == CommandEvent::CommandDecoded ==> action == CommandAction::Send,
    {
        match event {
            CommandEvent::ShutdownRequested => CommandAction::Stop,
            CommandEvent::ReceiveFailed => CommandAction::ReportError,
            CommandEvent::EmptyPayload => CommandAction::Skip,
            CommandEvent::UndecodablePayload => CommandAction::Skip,
            CommandEvent::CommandDecoded => CommandAction::Send,
        }
    }

    /// Records how a send ended: only a command that went out is counted.
    pub fn on_send(&mut self, outcome: SendOutcome)
        requires
            outcome == SendOutcome::Sent ==> old(self).command_count < u64::MAX,
        ensures
            outcome == SendOutcome::Sent ==> final(self).command_count == old(self).command_count
                + 1,
            outcome != SendOutcome::Sent ==> final(self).command_count == old(self).command_count,
    {
        if outcome == SendOutcome::Sent {
            self.command_count = self.command_count + 1;
        }
    }
}

} // verus!
