//! Capability negotiation: reconcile a device's reported native capability
//! with the consumer's preferences into one concrete stream configuration.

use vstd::prelude::*;
use crate::CaptureError;

verus! {

/// Native rates below this floor are treated as degenerate and overridden.
pub const RATE_FLOOR: u32 = 16000;

/// The fixed fallback rate used when a device reports a degenerate rate.
pub const FALLBACK_RATE: u32 = 44100;

/// A native sample encoding the pipeline has a conversion rule for.
#[derive(Clone, Copy, PartialEq, Eq, Structural, Debug)]
pub enum SampleEncoding {
    F32,
    I16,
    U16,
}

/// A device's reported native encoding: a supported one, or anything else.
#[derive(Clone, Copy, PartialEq, Eq, Structural, Debug)]
pub enum NativeEncoding {
    Supported(SampleEncoding),
    Other,
}

/// The consumer's channel preference: mono for speech-oriented microphone
/// capture, stereo for system-output capture that is downmixed afterwards.
#[derive(Clone, Copy, PartialEq, Eq, Structural, Debug)]
pub enum ChannelPreference {
    Mono,
    Stereo,
}

/// The concrete configuration a session opens its stream with. Derived once
/// per session by `negotiate` and immutable afterwards.
#[derive(Clone, Copy, PartialEq, Eq, Structural, Debug)]
pub struct StreamConfig {
    pub channel_count: u16,
    pub sample_rate: u32,
    pub encoding: SampleEncoding,
}

/// The rate negotiation rule: keep a native rate at or above the floor,
/// otherwise fall back to the fixed safe rate.
pub open spec fn negotiated_rate(native_rate: u32) -> u32 {
    if native_rate >= 16000 {
        native_rate
    } else {
        44100
    }
}

/// The channel negotiation rule: force mono when the consumer prefers mono
/// and the device has any channel, force stereo when the consumer prefers
/// stereo and the device has at least two, otherwise keep the native count.
pub open spec fn negotiated_channels(native_channels: u16, pref: ChannelPreference) -> u16 {
    match pref {
        ChannelPreference::Mono => if native_channels >= 1 {
            1u16
        } else {
            native_channels
        },
        ChannelPreference::Stereo => if native_channels >= 2 {
            2u16
        } else {
            native_channels
        },
    }
}

/// Derive the stream configuration for a device's reported capability.
/// Succeeds exactly when the native encoding has a conversion rule; an
/// unsupported encoding is rejected here, before any stream is opened.
pub fn negotiate(native_rate: u32, native_channels: u16, native_encoding: NativeEncoding, pref: ChannelPreference) -> (r: Result<
    StreamConfig,
    CaptureError,
>)
    ensures
        match native_encoding {
            NativeEncoding::Supported(enc) => r matches Ok(c) && c == (StreamConfig {
                channel_count: negotiated_channels(native_channels, pref),
                sample_rate: negotiated_rate(native_rate),
                encoding: enc,
            }),
            NativeEncoding::Other => r matches Err(e) && e == CaptureError::UnsupportedFormatError,
        },
{
    let encoding = match native_encoding {
        NativeEncoding::Supported(enc) => enc,
        NativeEncoding::Other => {
            return Err(CaptureError::UnsupportedFormatError);
        },
    };
    let sample_rate = if native_rate >= RATE_FLOOR {
        native_rate
    } else {
        FALLBACK_RATE
    };
    let channel_count = match pref {
        ChannelPreference::Mono => if native_channels >= 1 {
            1
        } else {
            native_channels
        },
        ChannelPreference::Stereo => if native_channels >= 2 {
            2
        } else {
            native_channels
        },
    };
    Ok(StreamConfig { channel_count, sample_rate, encoding })
}

/// Every negotiated configuration is internally consistent: a positive rate
/// and a channel count that is mono, stereo, or the device's own.
pub proof fn lemma_negotiated_config_consistent(native_rate: u32, native_channels: u16, pref: ChannelPreference)
    ensures
        negotiated_rate(native_rate) > 0,
        negotiated_channels(native_channels, pref) == 1 || negotiated_channels(native_channels, pref) == 2
            || negotiated_channels(native_channels, pref) == native_channels,
{
}

} // verus!
