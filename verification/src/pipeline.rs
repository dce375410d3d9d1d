use vstd::prelude::*;

verus! {

/// Progress is reported after every this many published messages.
pub const PROGRESS_INTERVAL: u64 = 1000;

/// What the main loop learned.
#[derive(Clone, Copy, Debug, PartialEq, Eq, Structural)]
pub enum PipelineEvent {
    /// Shutdown was requested.
    ShutdownRequested,
    /// The MAVLink reader is gone.
    ChannelClosed,
    /// A message arrived and was serialized.
    MessageSerialized,
    /// A message arrived and could not be serialized.
    SerializationFailed,
}

/// What the main loop does next.
#[derive(Clone, Copy, Debug, PartialEq, Eq, Structural)]
pub enum PipelineAction {
    /// Leave the loop.
    Stop,
    /// Publish the message; report progress too when asked.
    Publish { report_progress: bool },
    /// Warn and drop the message.
    Skip,
}

/// The state of the main loop: how many messages it has published.
#[derive(Debug)]
pub struct Pipeline {
    pub message_count: u64,
}

impl Pipeline {
    /// A loop that has published nothing yet.
    pub fn new() -> (pipeline: Pipeline)
        ensures
            pipeline.message_count == 0,
    {
        Pipeline { message_count: 0 }
    }

    /// Decides what to do with `event`. Every serialized message is
    /// published and counted; progress is reported whenever the count reaches
    /// a multiple of `PROGRESS_INTERVAL`; nothing else changes the count.
    pub fn on_event(&mut self, event: PipelineEvent) -> (action: PipelineAction)
        requires
            event == PipelineEvent::MessageSerialized ==> old(self).message_count < u64::MAX,
        ensures
            event == PipelineEvent::MessageSerialized ==> {
                &&& final(self).message_count == old(self).message_count + 1
                &&& action == PipelineAction::Publish {
                    report_progress: final(self).message_count % PROGRESS_INTERVAL == 0,
                }
            },
            event != PipelineEvent::MessageSerialized ==> final(self).message_count == old(
                self,
            ).message_count,
            event == PipelineEvent::SerializationFailed ==> action == PipelineAction::Skip,
            event == PipelineEvent::ShutdownRequested ==> action == PipelineAction::Stop,
            event == PipelineEvent::ChannelClosed ==> action == PipelineAction::Stop,
    {
        match event {
            PipelineEvent::ShutdownRequested => PipelineAction::Stop,
            PipelineEvent::ChannelClosed => PipelineAction::Stop,
            PipelineEvent::SerializationFailed => PipelineAction::Skip,
            PipelineEvent::MessageSerialized => {
                self.message_count = self.message_count + 1;
                PipelineAction::Publish {
                    report_progress: self.message_count % PROGRESS_INTERVAL == 0,
                }
            },
        }
    }
}

} // verus!
