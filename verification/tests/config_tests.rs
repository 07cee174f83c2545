use audio_relay::{validate_rates, SetupError, StreamSettings, RELAY_CAPACITY};

#[test]
fn rate_mismatch_rejected() {
    let input = StreamSettings::new(44100, 2);
    let output = StreamSettings::new(48000, 2);
    let r = validate_rates(&input, &output);
    assert!(matches!(r, Err(SetupError::RateMismatch)));
}

#[test]
fn equal_rates_accepted() {
    let input = StreamSettings::new(48000, 1);
    let output = StreamSettings::new(48000, 2);
    assert!(matches!(validate_rates(&input, &output), Ok(())));
}

#[test]
fn setup_error_messages_describe_the_failure() {
    assert_eq!(
        SetupError::RateMismatch.message(),
        "Input and output devices have different sample rates"
    );
    assert_eq!(SetupError::NoInputDevice.message(), "No input device available");
    assert_eq!(SetupError::NoOutputDevice.message(), "No output device available");
    assert_eq!(
        SetupError::StreamBuildFailed.message(),
        "Failed to build an audio stream"
    );
}

#[test]
fn relay_capacity_matches_reference() {
    assert_eq!(RELAY_CAPACITY, 10);
    let q = audio_relay::RelayQueue::new(RELAY_CAPACITY);
    assert_eq!(q.len(), 0);
}
