use vstd::prelude::*;

verus! {

/// How many blocks the relay queue between the two callbacks holds.
pub const RELAY_CAPACITY: usize = 10;

/// What session setup reads once from a device at startup: its native
/// sample rate in frames per second and its channel count.
pub struct StreamSettings {
    pub sample_rate: u32,
    pub channels: u16,
}

impl StreamSettings {
    pub fn new(sample_rate: u32, channels: u16) -> (s: StreamSettings)
        ensures
            s.sample_rate == sample_rate,
            s.channels == channels,
    {
        StreamSettings { sample_rate, channels }
    }
}

/// The fatal startup failures: each aborts session setup before any audio
/// flows.
pub enum SetupError {
    /// No default input device was found.
    NoInputDevice,
    /// No default output device was found.
    NoOutputDevice,
    /// The input and output devices run at different sample rates and no
    /// resampling is performed.
    RateMismatch,
    /// The platform refused to build a capture or playback stream.
    StreamBuildFailed,
}

impl SetupError {
    /// A diagnostic line for the terminating error message.
    pub fn message(&self) -> (r: String)
        ensures
            r@ == match self {
                SetupError::NoInputDevice => "No input device available"@,
                SetupError::NoOutputDevice => "No output device available"@,
                SetupError::RateMismatch => "Input and output devices have different sample rates"@,
                SetupError::StreamBuildFailed => "Failed to build an audio stream"@,
            },
    {
        match self {
            SetupError::NoInputDevice => "No input device available".to_string(),
            SetupError::NoOutputDevice => "No output device available".to_string(),
            SetupError::RateMismatch => "Input and output devices have different sample rates".to_string(),
            SetupError::StreamBuildFailed => "Failed to build an audio stream".to_string(),
        }
    }
}

/// Session setup's rate check: the passthrough copies samples verbatim, so
/// the two devices must agree on the sample rate; a mismatch is a fatal
/// startup error and no stream is started.
pub fn validate_rates(input: &StreamSettings, output: &StreamSettings) -> (r: Result<
    (),
    SetupError,
>)
    ensures
        r is Ok <==> input.sample_rate == output.sample_rate,
        r is Err ==> r == Result::<(), SetupError>::Err(SetupError::RateMismatch),
{
    if input.sample_rate == output.sample_rate {
        Ok(())
    } else {
        Err(SetupError::RateMismatch)
    }
}

} // verus!
