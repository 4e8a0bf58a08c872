//! Capture sessions and the process-wide session registry. A session records
//! the device and the negotiated configuration of one live stream and runs
//! the conversion pipeline on every block the device delivers. The registry
//! holds at most one session per slot (microphone, loopback); a start into
//! an occupied slot fails without side effects, a stop on an empty slot
//! fails and changes nothing.

use vstd::prelude::*;
use crate::CaptureError;
use crate::catalog::contains_seq;
use crate::catalog::contains_substr;
use crate::convert::SampleBlock;
use crate::convert::le_bytes_of_canon;
use crate::negotiate::StreamConfig;

verus! {

/// Where device selection landed: the host's default input, or a named
/// device at a position of the input or output enumeration pass.
#[derive(Debug)]
pub enum DeviceChoice {
    DefaultInput { name: String },
    InputAt { index: usize, name: String },
    OutputAt { index: usize, name: String },
}

/// Whether some name of the pass equals the target.
pub open spec fn has_name(names: Seq<String>, target: Seq<char>) -> bool {
    exists|i: int| 0 <= i < names.len() && (#[trigger] names[i])@ == target
}

/// Pick the device a microphone capture request means: the first input
/// device with the requested name, else the first output device with it,
/// else the host's default input when no name was requested. Fails with
/// `DeviceNotFoundError` exactly when a requested name is on neither pass,
/// or nothing was requested and the host has no default input.
pub fn select_capture_device(requested: &Option<String>, input_names: &Vec<String>, output_names: &Vec<String>, default_input: &Option<String>) -> (r: Result<
    DeviceChoice,
    CaptureError,
>)
    ensures
        match *requested {
            Some(req) => match r {
                Ok(c) => match c {
                    DeviceChoice::InputAt { index, name } => {
                        &&& name@ == req@
                        &&& 0 <= index < input_names@.len()
                        &&& input_names@[index as int]@ == req@
                        &&& forall|k: int|
                            0 <= k < index ==> (#[trigger] input_names@[k])@ != req@
                    },
                    DeviceChoice::OutputAt { index, name } => {
                        &&& name@ == req@
                        &&& !has_name(input_names@, req@)
                        &&& 0 <= index < output_names@.len()
                        &&& output_names@[index as int]@ == req@
                        &&& forall|k: int|
                            0 <= k < index ==> (#[trigger] output_names@[k])@ != req@
                    },
                    DeviceChoice::DefaultInput { .. } => false,
                },
                Err(e) => {
                    &&& e == CaptureError::DeviceNotFoundError
                    &&& !has_name(input_names@, req@)
                    &&& !has_name(output_names@, req@)
                },
            },
            None => match r {
                Ok(c) => match c {
                    DeviceChoice::DefaultInput { name } => *default_input matches Some(d) && name@
                        == d@,
                    _ => false,
                },
                Err(e) => e == CaptureError::DeviceNotFoundError && *default_input is None,
            },
        },
{
    match requested {
        Some(req) => {
            let mut i: usize = 0;
            while i < input_names.len()
                invariant
                    *requested == Some(*req),
                    i <= input_names@.len(),
                    forall|k: int| 0 <= k < i ==> (#[trigger] input_names@[k])@ != req@,
                decreases input_names@.len() - i,
            {
                if input_names[i].eq(req) {
                    return Ok(DeviceChoice::InputAt { index: i, name: req.clone() });
                }
                i += 1;
            }
            let mut j: usize = 0;
            while j < output_names.len()
                invariant
                    *requested == Some(*req),
                    j <= output_names@.len(),
                    forall|k: int| 0 <= k < j ==> (#[trigger] output_names@[k])@ != req@,
                    forall|k: int|
                        0 <= k < input_names@.len() ==> (#[trigger] input_names@[k])@ != req@,
                decreases output_names@.len() - j,
            {
                if output_names[j].eq(req) {
                    return Ok(DeviceChoice::OutputAt { index: j, name: req.clone() });
                }
                j += 1;
            }
            Err(CaptureError::DeviceNotFoundError)
        },
        None => match default_input {
            Some(d) => Ok(DeviceChoice::DefaultInput { name: d.clone() }),
            None => Err(CaptureError::DeviceNotFoundError),
        },
    }
}

/// Whether this operating system can capture system output at all.
#[derive(Clone, Copy, PartialEq, Eq, Structural, Debug)]
pub enum LoopbackSupport {
    Supported,
    Unsupported,
}

/// Whether a name can serve a loopback request for `requested`: it carries a
/// known virtual-driver signature, or it is the requested name itself.
pub open spec fn is_loopback_candidate(n: Seq<char>, requested: Seq<char>) -> bool {
    ||| contains_seq(n, "BlackHole"@)
    ||| contains_seq(n, "Soundflower"@)
    ||| n == requested
}

/// Pick the input device a loopback capture request means: the first input
/// whose name is a loopback candidate. On a platform without loopback
/// support this fails with `PlatformUnsupportedError` before looking at any
/// device; with support but no candidate it fails with
/// `DeviceNotFoundError`.
pub fn select_loopback_device(support: LoopbackSupport, requested: &String, input_names: &Vec<
    String,
>) -> (r: Result<DeviceChoice, CaptureError>)
    ensures
        match support {
            LoopbackSupport::Unsupported => r matches Err(e) && e
                == CaptureError::PlatformUnsupportedError,
            LoopbackSupport::Supported => match r {
                Ok(c) => match c {
                    DeviceChoice::InputAt { index, name } => {
                        &&& 0 <= index < input_names@.len()
                        &&& name@ == input_names@[index as int]@
                        &&& is_loopback_candidate(input_names@[index as int]@, requested@)
                        &&& forall|k: int|
                            0 <= k < index ==> !is_loopback_candidate(
                                (#[trigger] input_names@[k])@,
                                requested@,
                            )
                    },
                    _ => false,
                },
                Err(e) => {
                    &&& e == CaptureError::DeviceNotFoundError
                    &&& forall|k: int|
                        0 <= k < input_names@.len() ==> !is_loopback_candidate(
                            (#[trigger] input_names@[k])@,
                            requested@,
                        )
                },
            },
        },
{
    match support {
        LoopbackSupport::Unsupported => Err(CaptureError::PlatformUnsupportedError),
        LoopbackSupport::Supported => {
            let mut i: usize = 0;
            while i < input_names.len()
                invariant
                    support == LoopbackSupport::Supported,
                    i <= input_names@.len(),
                    forall|k: int|
                        0 <= k < i ==> !is_loopback_candidate(
                            (#[trigger] input_names@[k])@,
                            requested@,
                        ),
                decreases input_names@.len() - i,
            {
                let name = &input_names[i];
                if contains_substr(name.as_str(), "BlackHole") || contains_substr(
                    name.as_str(),
                    "Soundflower",
                ) || name.eq(requested) {
                    return Ok(DeviceChoice::InputAt { index: i, name: name.clone() });
                }
                i += 1;
            }
            Err(CaptureError::DeviceNotFoundError)
        },
    }
}

/// One live capture stream: the device it runs on, the configuration it was
/// opened with, and through them everything the per-block conversion needs.
#[derive(Debug)]
pub struct CaptureSession {
    pub device_name: String,
    pub config: StreamConfig,
}

impl CaptureSession {
    /// Record a session for a device opened with a negotiated configuration.
    pub fn new(device_name: String, config: StreamConfig) -> (r: CaptureSession)
        ensures
            r.device_name == device_name,
            r.config == config,
    {
        CaptureSession { device_name, config }
    }

    /// The work of one real-time callback: convert one device-delivered
    /// block to canonical little-endian bytes, downmixing when this session
    /// captures stereo.
    pub fn process_block(&self, block: &SampleBlock) -> (out: Vec<u8>)
        ensures
            out@ == le_bytes_of_canon(block.canon(self.config.channel_count == 2)),
            out@.len() == 2 * block.canon(self.config.channel_count == 2).len(),
    {
        crate::convert::convert_block(block, self.config.channel_count)
    }
}

/// The process-wide registry: one slot for microphone capture, one for
/// loopback capture, each holding at most one session.
pub struct SessionRegistry {
    pub microphone_slot: Option<CaptureSession>,
    pub loopback_slot: Option<CaptureSession>,
}

impl SessionRegistry {
    /// The registry at process start: both slots empty.
    pub fn new() -> (r: SessionRegistry)
        ensures
            r.microphone_slot is None,
            r.loopback_slot is None,
    {
        SessionRegistry { microphone_slot: None, loopback_slot: None }
    }

    /// Whether the microphone slot is occupied. A start request reads this
    /// before any device interaction.
    pub fn microphone_running(&self) -> (b: bool)
        ensures
            b == (self.microphone_slot is Some),
    {
        self.microphone_slot.is_some()
    }

    /// Whether the loopback slot is occupied.
    pub fn loopback_running(&self) -> (b: bool)
        ensures
            b == (self.loopback_slot is Some),
    {
        self.loopback_slot.is_some()
    }

    /// Install a freshly started microphone session. Fails with
    /// `AlreadyRunningError` and changes nothing, the existing session
    /// included, when the slot is occupied; otherwise the session occupies
    /// the slot and the loopback slot is untouched.
    pub fn start_microphone(&mut self, session: CaptureSession) -> (r: Result<(), CaptureError>)
        ensures
            old(self).microphone_slot is Some ==> (r matches Err(e) && e
                == CaptureError::AlreadyRunningError && *final(self) == *old(self)),
            old(self).microphone_slot is None ==> r is Ok && final(self).microphone_slot == Some(
                session,
            ) && final(self).loopback_slot == old(self).loopback_slot,
    {
        if self.microphone_slot.is_some() {
            Err(CaptureError::AlreadyRunningError)
        } else {
            self.microphone_slot = Some(session);
            Ok(())
        }
    }

    /// Vacate the microphone slot, handing the session back so its stream
    /// handle can be released deterministically. Fails with
    /// `NotRunningError` and changes nothing when the slot is empty.
    pub fn stop_microphone(&mut self) -> (r: Result<CaptureSession, CaptureError>)
        ensures
            old(self).microphone_slot is None ==> (r matches Err(e) && e
                == CaptureError::NotRunningError && *final(self) == *old(self)),
            old(self).microphone_slot matches Some(s) ==> r matches Ok(rs) && rs == s && final(self).microphone_slot is None && final(self).loopback_slot == old(self).loopback_slot,
    {
        match self.microphone_slot.take() {
            Some(s) => Ok(s),
            None => Err(CaptureError::NotRunningError),
        }
    }

    /// Install a freshly started loopback session; the counterpart of
    /// `start_microphone` for the loopback slot.
    pub fn start_loopback(&mut self, session: CaptureSession) -> (r: Result<(), CaptureError>)
        ensures
            old(self).loopback_slot is Some ==> (r matches Err(e) && e
                == CaptureError::AlreadyRunningError && *final(self) == *old(self)),
            old(self).loopback_slot is None ==> r is Ok && final(self).loopback_slot == Some(
                session,
            ) && final(self).microphone_slot == old(self).microphone_slot,
    {
        if self.loopback_slot.is_some() {
            Err(CaptureError::AlreadyRunningError)
        } else {
            self.loopback_slot = Some(session);
            Ok(())
        }
    }

    /// Vacate the loopback slot; the counterpart of `stop_microphone`.
    pub fn stop_loopback(&mut self) -> (r: Result<CaptureSession, CaptureError>)
        ensures
            old(self).loopback_slot is None ==> (r matches Err(e) && e
                == CaptureError::NotRunningError && *final(self) == *old(self)),
            old(self).loopback_slot matches Some(s) ==> r matches Ok(rs) && rs == s && final(self).loopback_slot is None && final(self).microphone_slot == old(self).microphone_slot,
    {
        match self.loopback_slot.take() {
            Some(s) => Ok(s),
            None => Err(CaptureError::NotRunningError),
        }
    }
}

} // verus!
