use mavlink_to_kafka::command_relay::{CommandAction, CommandEvent, CommandRelay, SendOutcome};
use mavlink_to_kafka::mavlink_source::{MavlinkSource, ReaderAction, ReaderStop, ReceiveOutcome};
use mavlink_to_kafka::pipeline::{Pipeline, PipelineAction, PipelineEvent, PROGRESS_INTERVAL};

#[test]
fn reader_stops_when_cancelled_before_receiving() {
    assert_eq!(MavlinkSource::on_poll(true), ReaderAction::Stop(ReaderStop::ShutdownRequested));
    assert_eq!(MavlinkSource::on_poll(false), ReaderAction::Receive);
}

#[test]
fn reader_forwards_received_messages() {
    assert_eq!(MavlinkSource::on_receive(ReceiveOutcome::Message, false), ReaderAction::Forward);
    assert_eq!(MavlinkSource::on_receive(ReceiveOutcome::Message, true), ReaderAction::Forward);
}

#[test]
fn reader_error_during_shutdown_stops() {
    assert_eq!(
        MavlinkSource::on_receive(ReceiveOutcome::Error, true),
        ReaderAction::Stop(ReaderStop::ShutdownRequested)
    );
    assert_eq!(MavlinkSource::on_receive(ReceiveOutcome::Error, false), ReaderAction::ReportError);
}

#[test]
fn reader_stops_when_channel_closes() {
    assert_eq!(MavlinkSource::on_forward(true), ReaderAction::Continue);
    assert_eq!(MavlinkSource::on_forward(false), ReaderAction::Stop(ReaderStop::ChannelClosed));
}

#[test]
fn pipeline_counts_published_messages() {
    let mut pipeline = Pipeline::new();
    assert_eq!(pipeline.message_count, 0);
    assert_eq!(
        pipeline.on_event(PipelineEvent::MessageSerialized),
        PipelineAction::Publish { report_progress: false }
    );
    assert_eq!(pipeline.on_event(PipelineEvent::SerializationFailed), PipelineAction::Skip);
    assert_eq!(pipeline.message_count, 1);
    assert_eq!(pipeline.on_event(PipelineEvent::ShutdownRequested), PipelineAction::Stop);
    assert_eq!(pipeline.on_event(PipelineEvent::ChannelClosed), PipelineAction::Stop);
    assert_eq!(pipeline.message_count, 1);
}

#[test]
fn pipeline_reports_progress_every_thousand() {
    let mut pipeline = Pipeline::new();
    let mut reports = Vec::new();
    for _ in 0..2500 {
        if let PipelineAction::Publish { report_progress: true } =
            pipeline.on_event(PipelineEvent::MessageSerialized)
        {
            reports.push(pipeline.message_count);
        }
    }
    assert_eq!(PROGRESS_INTERVAL, 1000);
    assert_eq!(reports, vec![1000, 2000]);
    assert_eq!(pipeline.message_count, 2500);
}

#[test]
fn command_relay_sends_only_decoded_commands() {
    let relay = CommandRelay::new();
    assert_eq!(relay.on_event(CommandEvent::ShutdownRequested), CommandAction::Stop);
    assert_eq!(relay.on_event(CommandEvent::ReceiveFailed), CommandAction::ReportError);
    assert_eq!(relay.on_event(CommandEvent::EmptyPayload), CommandAction::Skip);
    assert_eq!(relay.on_event(CommandEvent::UndecodablePayload), CommandAction::Skip);
    assert_eq!(relay.on_event(CommandEvent::CommandDecoded), CommandAction::Send);
}

#[test]
fn command_relay_counts_sent_commands() {
    let mut relay = CommandRelay::new();
    relay.on_send(SendOutcome::Sent);
    relay.on_send(SendOutcome::Failed);
    relay.on_send(SendOutcome::TaskFailed);
    relay.on_send(SendOutcome::Sent);
    assert_eq!(relay.command_count, 2);
}
