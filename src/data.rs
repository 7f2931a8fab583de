use vstd::prelude::*;

verus! {

/// A setting that can be switched off, or switched on with a payload.
#[derive(Clone, Copy, Debug, PartialEq, Eq, Structural)]
pub enum Switch<T> {
    Enabled(T),
    Disabled,
}

impl<T> Switch<T> {
    /// The payload of an enabled switch, or nothing when it is disabled.
    pub open spec fn spec_option(self) -> Option<T> {
        match self {
            Switch::Enabled(t) => Some(t),
            Switch::Disabled => None,
        }
    }

    pub fn into_option(self) -> (r: Option<T>)
        ensures
            r == self.spec_option(),
    {
        match self {
            Switch::Enabled(t) => Some(t),
            Switch::Disabled => None,
        }
    }
}

/// How video frames are moved between the GPU and an ffmpeg encoder.
#[derive(Clone, Copy, Debug, PartialEq, Eq, Structural)]
pub enum FfmpegVideoEncoderInteropType {
    CudaNvenc,
    /// Software encoding from RGB frames (such as libx264rgb).
    SoftwareRGB,
}

/// How decoded video frames reach the client's renderer.
#[derive(Clone, Copy, Debug, PartialEq, Eq, Structural)]
pub enum FfmpegVideoDecoderInteropType {
    MediaCodec,
    D3D11VA,
}

/// How the streaming latency is chosen.
#[derive(Clone, Copy, Debug, PartialEq, Eq, Structural)]
pub enum LatencyDesc {
    Automatic {
        expected_missed_poses_per_hour: u32,
        expected_missed_frames_per_hour: u32,
        server_history_mean_lifetime_s: u32,
        client_history_mean_lifetime_s: u32,
    },
    Manual { ms: u32 },
}

/// Where the client is looked for and where the data ports start.
#[derive(Clone, Debug)]
pub struct ConnectionDesc {
    /// Only this client address is accepted, when set.
    pub client_ip: Option<String>,
    /// The first port of the consecutive range used for data streams.
    pub starting_data_port: u16,
}

/// The filter used when the compositor scales the rendered frames.
#[derive(Clone, Copy, Debug, PartialEq, Eq, Structural)]
pub enum CompositionFilteringType {
    NearestNeighbour,
    Bilinear,
    Lanczos,
}

/// The microphone stream from the client to the server.
#[derive(Clone, Copy, Debug, PartialEq, Eq, Structural)]
pub struct MicrophoneDesc {
    pub client_device_index: Option<u64>,
    pub server_device_index: u64,
}

/// The audio streams of a session.
#[derive(Clone, Copy, Debug, PartialEq, Eq, Structural)]
pub struct AudioDesc {
    /// Game audio captured on the server (from this loopback device, or the default one).
    pub loopback_device_index: Switch<Option<u64>>,
    /// Microphone audio played back on the server.
    pub microphone: Switch<MicrophoneDesc>,
    pub max_packet_size: u64,
    /// Too low a value makes the audio choppy.
    pub max_latency_ms: u64,
}

/// The interface through which the host runtime hands over rendered frames.
#[derive(Clone, Copy, Debug, PartialEq, Eq, Structural)]
pub enum CompositorType {
    /// The direct-mode driver interface (the default).
    Custom,
    /// The virtual display interface: fewer glitches, a little more latency.
    SteamVR,
}

/// The kind of an input that the host runtime is told about.
#[derive(Clone, Copy, Debug, PartialEq, Eq, Structural)]
pub enum InputType {
    Boolean,
    NormalizedOneSided,
    NormalizedTwoSided,
    Skeletal,
}

/// The statistics that a client reports (none so far).
#[derive(Clone, Copy, Debug, Default, PartialEq, Eq, Structural)]
pub struct ClientStatistics {}

} // verus!
