use filter_rss_feed::extension::{after_wait, check_event, AfterWait, LamdbaExtensionError, NextEvent};

#[test]
fn invocation_is_the_only_event_that_is_accepted() {
    assert!(check_event(NextEvent::Invoke).is_ok());
    match check_event(NextEvent::Other("Shutdown(..)".to_string())) {
        Err(LamdbaExtensionError::UnsupportedEvent(described)) => assert_eq!(described, "Shutdown(..)"),
        other => panic!("{:?}", other),
    }
}

#[test]
fn telemetry_is_flushed_after_a_request_and_not_after_the_channel_closed() {
    assert_eq!(after_wait(Some(())), AfterWait::Flush);
    assert_eq!(after_wait(None), AfterWait::Stop);
}

#[test]
fn extension_error_says_what_it_is() {
    assert_eq!(
        LamdbaExtensionError::TraceError("timeout".to_string()).to_string(),
        "failed to flush logs and telemetry"
    );
    assert_eq!(
        LamdbaExtensionError::ChannelError.to_string(),
        "failed to notify telemetry channel about done request"
    );
    assert_eq!(
        LamdbaExtensionError::UnsupportedEvent("Shutdown".to_string()).to_string(),
        "unsupported event type for extension: Shutdown"
    );
}
