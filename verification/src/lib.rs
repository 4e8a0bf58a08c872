//! Core of a live audio capture service: device catalog policy, capability
//! negotiation, the sample conversion pipeline, and the session registry
//! state machine. Device I/O itself stays outside; this crate works on the
//! plain values that enumeration and capability queries produce.

use vstd::prelude::*;

pub mod catalog;
pub mod convert;
pub mod negotiate;
pub mod session;

verus! {

/// Every failure the capture core can report. Each operation's contract says
/// exactly which variant comes on which input.
#[derive(Clone, Copy, PartialEq, Eq, Structural, Debug)]
pub enum CaptureError {
    /// The audio host could not enumerate its devices at all.
    EnumerationError,
    /// A device requested by name is absent from every enumeration pass.
    DeviceNotFoundError,
    /// The device exists but its capability query failed.
    DeviceQueryError,
    /// The device's native sample encoding has no conversion rule.
    UnsupportedFormatError,
    /// Negotiation succeeded but the device refused to open the stream.
    StreamOpenError,
    /// A start request hit a registry slot that is already occupied.
    AlreadyRunningError,
    /// A stop request hit an empty registry slot.
    NotRunningError,
    /// Output-loopback capture is not available on this platform.
    PlatformUnsupportedError,
}

impl CaptureError {
    /// The fixed description of each error variant.
    pub open spec fn spec_message(self) -> Seq<char> {
        match self {
            CaptureError::EnumerationError => "Failed to enumerate audio devices"@,
            CaptureError::DeviceNotFoundError => "Audio device not found"@,
            CaptureError::DeviceQueryError => "Failed to query device capabilities"@,
            CaptureError::UnsupportedFormatError => "Unsupported sample format"@,
            CaptureError::StreamOpenError => "Failed to open audio stream"@,
            CaptureError::AlreadyRunningError => "Audio capture already running"@,
            CaptureError::NotRunningError => "No audio capture running"@,
            CaptureError::PlatformUnsupportedError => (
                "System audio capture is not supported on this platform"@
            ),
        }
    }

    /// A descriptive message for the command surface to hand back to callers.
    pub fn message(&self) -> (r: String)
        ensures
            r@ == self.spec_message(),
    {
        match self {
            CaptureError::EnumerationError => String::from_str("Failed to enumerate audio devices"),
            CaptureError::DeviceNotFoundError => String::from_str("Audio device not found"),
            CaptureError::DeviceQueryError => String::from_str(
                "Failed to query device capabilities",
            ),
            CaptureError::UnsupportedFormatError => String::from_str("Unsupported sample format"),
            CaptureError::StreamOpenError => String::from_str("Failed to open audio stream"),
            CaptureError::AlreadyRunningError => String::from_str("Audio capture already running"),
            CaptureError::NotRunningError => String::from_str("No audio capture running"),
            CaptureError::PlatformUnsupportedError => String::from_str(
                "System audio capture is not supported on this platform",
            ),
        }
    }
}

} // verus!
