use walreceiver::channel::{ChannelPoll, StateChannel, TaskStateUpdate};
use walreceiver::handle::{
    end_event, shutdown_outcome, JoinResult, ShutdownOutcome, TaskError, TaskEvent,
};

#[test]
fn fresh_channel_delivers_started_first() {
    // The started announcement is in the slot before the task body runs, so
    // it is delivered before any other update.
    let mut ch = StateChannel::<u64>::new();
    assert_eq!(ch.poll(), ChannelPoll::Update(TaskStateUpdate::Started));
    assert_eq!(ch.poll(), ChannelPoll::Pending);
}

#[test]
fn started_is_delivered_before_early_progress() {
    // Progress arriving before the observer's first poll cannot overtake
    // the started announcement: started is still delivered first.
    let mut ch = StateChannel::<u64>::new();
    ch.send(7);
    assert_eq!(ch.poll(), ChannelPoll::Update(TaskStateUpdate::Started));
    assert_eq!(ch.poll(), ChannelPoll::Update(TaskStateUpdate::Progress(7)));
}

#[test]
fn updates_are_latest_value_wins() {
    // Two sends before one poll: the intermediate progress update is
    // overwritten and never delivered — updates are not accumulated.
    let mut ch = StateChannel::<u64>::new();
    ch.send(7);
    ch.send(9);
    assert_eq!(ch.poll(), ChannelPoll::Update(TaskStateUpdate::Started));
    assert_eq!(ch.poll(), ChannelPoll::Update(TaskStateUpdate::Progress(9)));
    assert_eq!(ch.poll(), ChannelPoll::Pending);
}

#[test]
fn closed_channel_still_delivers_what_is_owed_once() {
    let mut ch = StateChannel::<u64>::new();
    ch.send(3);
    ch.close();
    assert_eq!(ch.poll(), ChannelPoll::Update(TaskStateUpdate::Started));
    assert_eq!(ch.poll(), ChannelPoll::Update(TaskStateUpdate::Progress(3)));
    assert_eq!(ch.poll(), ChannelPoll::Closed);
    assert_eq!(ch.poll(), ChannelPoll::Closed);
}

#[test]
fn end_event_reflects_the_join_report() {
    assert_eq!(
        end_event::<u64>(Some(JoinResult::Completed(Ok(())))),
        TaskEvent::End(Ok(()))
    );
    assert_eq!(
        end_event::<u64>(Some(JoinResult::Completed(Err(TaskError::Failed(
            String::from("broker unreachable")
        ))))),
        TaskEvent::End(Err(TaskError::Failed(String::from("broker unreachable"))))
    );
    assert_eq!(
        end_event::<u64>(Some(JoinResult::Aborted)),
        TaskEvent::End(Err(TaskError::Cancelled))
    );
    assert_eq!(
        end_event::<u64>(Some(JoinResult::Panicked(String::from("boom")))),
        TaskEvent::End(Err(TaskError::Panicked(String::from("boom"))))
    );
}

#[test]
fn join_without_capability_reports_already_joined() {
    assert_eq!(
        end_event::<u64>(None),
        TaskEvent::End(Err(TaskError::AlreadyJoined))
    );
}

#[test]
fn shutdown_outcome_reports_true_terminal_result() {
    assert_eq!(
        shutdown_outcome(JoinResult::Completed(Ok(()))),
        ShutdownOutcome::CleanExit
    );
    assert_eq!(
        shutdown_outcome(JoinResult::Completed(Err(TaskError::Failed(String::from("e"))))),
        ShutdownOutcome::TaskFailed(TaskError::Failed(String::from("e")))
    );
    assert_eq!(
        shutdown_outcome(JoinResult::Aborted),
        ShutdownOutcome::AbortedByCancellation
    );
    assert_eq!(
        shutdown_outcome(JoinResult::Panicked(String::from("boom"))),
        ShutdownOutcome::JoinFailure(String::from("boom"))
    );
}
