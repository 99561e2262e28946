use zinnia::capture::{CaptureAction, CaptureMachine, CaptureState, Recognition, SpeakMessage};
use zinnia::commands::DispatchResult;

#[test]
fn waiting_buffers_until_a_frame_is_complete() {
    let mut machine = CaptureMachine::new(4, String::from("Zinnia here!"));
    assert!(matches!(machine.on_samples(&[1, 2]), CaptureAction::Nothing));
    match machine.on_samples(&[3, 4, 5]) {
        CaptureAction::FeedWakeWord(frame) => assert_eq!(frame, vec![1, 2, 3, 4]),
        other => panic!("unexpected action {:?}", other),
    }
    assert_eq!(machine.current_state(), CaptureState::Waiting);
}

#[test]
fn no_detection_never_reaches_recognizer() {
    let mut machine = CaptureMachine::new(3, String::from("Zinnia here!"));
    for i in 0..20i16 {
        let action = machine.on_samples(&[i, i + 1]);
        assert!(!matches!(action, CaptureAction::FeedRecognizer(_)));
        if let CaptureAction::FeedWakeWord(frame) = action {
            assert_eq!(frame.len(), 3);
            assert!(machine.on_wake_word(false).is_none());
        }
        assert_eq!(machine.current_state(), CaptureState::Waiting);
    }
}

#[test]
fn detection_then_final_result_done() {
    let mut machine = CaptureMachine::new(2, String::from("Zinnia here!"));
    assert!(matches!(machine.on_samples(&[1, 2]), CaptureAction::FeedWakeWord(_)));
    match machine.on_wake_word(true) {
        Some(SpeakMessage::Say(text)) => assert_eq!(text, "Zinnia here!"),
        None => panic!("no acknowledgement"),
    }
    assert_eq!(machine.current_state(), CaptureState::Listening);
    assert!(machine.on_wake_word(true).is_none());
    match machine.on_samples(&[7, 8, 9]) {
        CaptureAction::FeedRecognizer(samples) => assert_eq!(samples, vec![7, 8, 9]),
        other => panic!("unexpected action {:?}", other),
    }
    assert_eq!(machine.on_recognition(Recognition::InProgress), None);
    assert_eq!(machine.on_recognition(Recognition::Failed), None);
    assert_eq!(machine.current_state(), CaptureState::Listening);
    assert_eq!(
        machine.on_recognition(Recognition::Finalized(String::from("roll 2 d 6"))),
        Some(String::from("roll 2 d 6"))
    );
    machine.on_dispatched(DispatchResult::Done);
    assert_eq!(machine.current_state(), CaptureState::Waiting);
}

#[test]
fn detection_then_final_result_continue() {
    let mut machine = CaptureMachine::new(2, String::from("Yes?"));
    machine.on_samples(&[1, 2]);
    assert!(machine.on_wake_word(true).is_some());
    assert!(machine.on_recognition(Recognition::Finalized(String::from("help"))).is_some());
    machine.on_dispatched(DispatchResult::Continue);
    assert_eq!(machine.current_state(), CaptureState::CommandRunning);
    assert!(matches!(machine.on_samples(&[3, 4, 5]), CaptureAction::Nothing));
    assert_eq!(machine.on_recognition(Recognition::Finalized(String::from("late"))), None);
    machine.on_turn_end(true);
    assert_eq!(machine.current_state(), CaptureState::Listening);
    machine.on_dispatched(DispatchResult::Continue);
    machine.on_turn_end(false);
    assert_eq!(machine.current_state(), CaptureState::Waiting);
}

#[test]
fn detection_clears_buffered_audio() {
    let mut machine = CaptureMachine::new(4, String::from("Hi"));
    assert!(matches!(machine.on_samples(&[1, 2, 3, 4, 5]), CaptureAction::FeedWakeWord(_)));
    assert!(machine.on_wake_word(true).is_some());
    machine.on_dispatched(DispatchResult::Done);
    assert!(matches!(machine.on_samples(&[6, 7, 8]), CaptureAction::Nothing));
    match machine.on_samples(&[9]) {
        CaptureAction::FeedWakeWord(frame) => assert_eq!(frame, vec![6, 7, 8, 9]),
        other => panic!("unexpected action {:?}", other),
    }
}
