use vstd::prelude::*;

use crate::data::{AudioDesc, ConnectionDesc, Switch};
use crate::session::Component;

verus! {

/// The data ports of one session's streams.
#[derive(Clone, Debug, PartialEq, Eq)]
pub struct PipelinePlan {
    /// The port on which the packets of video slice `i` are sent.
    pub video_ports: Vec<u16>,
    /// The port on which captured game audio is sent, when game audio is on.
    pub game_audio_port: Option<u16>,
    /// The port on which microphone audio is received, when the microphone is on.
    pub microphone_port: Option<u16>,
}

/// Why a pipeline cannot be laid out.
#[derive(Clone, Copy, Debug, PartialEq, Eq, Structural)]
pub enum PlanError {
    /// The send streams would need a port above 65535.
    PortsExhausted,
}

/// The number of send streams: one per video slice, and one for game audio when it is on.
pub open spec fn send_stream_count(slice_count: u64, game_audio: bool) -> int {
    slice_count + if game_audio {
        1int
    } else {
        0int
    }
}

/// The send streams, which take consecutive ports from `starting_port` on, all fit below 65536.
pub open spec fn ports_fit(slice_count: u64, game_audio: bool, starting_port: u16) -> bool {
    starting_port + send_stream_count(slice_count, game_audio) <= 65536
}

/// `r` is the layout of a session's data ports: video slice `i` is sent on `starting_port + i`,
/// game audio (when on) on the port after the last slice, and microphone audio (when on) is
/// received on `starting_port`; when the send streams do not fit below 65536, the error.
pub open spec fn is_plan(
    r: Result<PipelinePlan, PlanError>,
    slice_count: u64,
    game_audio: bool,
    microphone: bool,
    starting_port: u16,
) -> bool {
    match r {
        Ok(p) => {
            &&& ports_fit(slice_count, game_audio, starting_port)
            &&& p.video_ports@.len() == slice_count
            &&& forall|i: int| 0 <= i < slice_count ==> #[trigger] p.video_ports@[i] == starting_port + i
            &&& p.game_audio_port == if game_audio {
                Some((starting_port + slice_count) as u16)
            } else {
                None
            }
            &&& p.microphone_port == if microphone {
                Some(starting_port)
            } else {
                None
            }
        },
        Err(e) => !ports_fit(slice_count, game_audio, starting_port) && e == PlanError::PortsExhausted,
    }
}

/// Lays out the data ports of a session: video slice `i` is sent on `starting_port + i`, game
/// audio (when on) on the port after the last slice, and microphone audio (when on) is received on
/// `starting_port`.
pub fn plan_pipeline(slice_count: u64, game_audio: bool, microphone: bool, starting_port: u16) -> (r: Result<
    PipelinePlan,
    PlanError,
>)
    ensures
        is_plan(r, slice_count, game_audio, microphone, starting_port),
{
    let extra: u64 = if game_audio {
        1
    } else {
        0
    };
    if slice_count > 65536 || starting_port as u64 + slice_count + extra > 65536 {
        return Err(PlanError::PortsExhausted);
    }
    let mut video_ports: Vec<u16> = Vec::new();
    let mut i: u64 = 0;
    while i < slice_count
        invariant
            i <= slice_count,
            starting_port + slice_count <= 65536,
            video_ports@.len() == i,
            forall|j: int| 0 <= j < i ==> #[trigger] video_ports@[j] == starting_port + j,
        decreases slice_count - i,
    {
        video_ports.push((starting_port as u64 + i) as u16);
        i = i + 1;
    }
    let game_audio_port = if game_audio {
        Some((starting_port as u64 + slice_count) as u16)
    } else {
        None
    };
    let microphone_port = if microphone {
        Some(starting_port)
    } else {
        None
    };
    Ok(PipelinePlan { video_ports, game_audio_port, microphone_port })
}

/// Lays out the data ports from the connection and audio settings (see `plan_pipeline`).
pub fn plan_from_settings(connection: &ConnectionDesc, audio: &AudioDesc, slice_count: u64) -> (r: Result<
    PipelinePlan,
    PlanError,
>)
    ensures
        is_plan(
            r,
            slice_count,
            audio.loopback_device_index is Enabled,
            audio.microphone is Enabled,
            connection.starting_data_port,
        ),
{
    let game_audio = match audio.loopback_device_index {
        Switch::Enabled(_) => true,
        Switch::Disabled => false,
    };
    let microphone = match audio.microphone {
        Switch::Enabled(_) => true,
        Switch::Disabled => false,
    };
    plan_pipeline(slice_count, game_audio, microphone, connection.starting_data_port)
}

/// The components that a session with these settings starts, in start order: the connection
/// manager, the compositor, one encoder per video slice, then the audio recorder and player that
/// are switched on.
pub open spec fn component_list(slice_count: u64, game_audio: bool, microphone: bool) -> Seq<Component> {
    seq![Component::ConnectionManager, Component::Compositor] + Seq::new(
        slice_count as nat,
        |i: int| Component::VideoEncoder(i as u64),
    ) + (if game_audio {
        seq![Component::GameAudioRecorder]
    } else {
        Seq::empty()
    }) + (if microphone {
        seq![Component::MicrophonePlayer]
    } else {
        Seq::empty()
    })
}

/// The components that a session with these settings starts, in start order.
pub fn pipeline_components(slice_count: u64, game_audio: bool, microphone: bool) -> (v: Vec<Component>)
    requires
        slice_count <= usize::MAX - 4,
    ensures
        v@ == component_list(slice_count, game_audio, microphone),
{
    let mut v: Vec<Component> = Vec::new();
    v.push(Component::ConnectionManager);
    v.push(Component::Compositor);
    let mut i: u64 = 0;
    while i < slice_count
        invariant
            i <= slice_count,
            v@ == seq![Component::ConnectionManager, Component::Compositor] + Seq::new(
                i as nat,
                |k: int| Component::VideoEncoder(k as u64),
            ),
        decreases slice_count - i,
    {
        v.push(Component::VideoEncoder(i));
        proof {
            assert(Seq::new((i + 1) as nat, |k: int| Component::VideoEncoder(k as u64)) =~= Seq::new(
                i as nat,
                |k: int| Component::VideoEncoder(k as u64),
            ).push(Component::VideoEncoder(i)));
        }
        i = i + 1;
    }
    let ghost base = v@;
    if game_audio {
        v.push(Component::GameAudioRecorder);
    }
    let ghost with_audio = v@;
    if microphone {
        v.push(Component::MicrophonePlayer);
    }
    proof {
        let audio = if game_audio {
            seq![Component::GameAudioRecorder]
        } else {
            Seq::<Component>::empty()
        };
        let mic = if microphone {
            seq![Component::MicrophonePlayer]
        } else {
            Seq::<Component>::empty()
        };
        assert(with_audio =~= base + audio);
        assert(v@ =~= base + audio + mic);
    }
    v
}

/// The eye resolution shown to the host runtime when no setting or client says otherwise.
pub const DEFAULT_EYE_WIDTH: u32 = 640;

pub const DEFAULT_EYE_HEIGHT: u32 = 720;

/// The eye resolution announced to the host runtime: the configured one if set, else the native
/// resolution of the last client seen, else the default.
pub fn host_eye_resolution(preferred: Option<(u32, u32)>, last_client_native: Option<(u32, u32)>) -> (r: (
    u32,
    u32,
))
    ensures
        r == match preferred {
            Some(p) => p,
            None => match last_client_native {
                Some(n) => n,
                None => (DEFAULT_EYE_WIDTH, DEFAULT_EYE_HEIGHT),
            },
        },
{
    match preferred {
        Some(p) => p,
        None => match last_client_native {
            Some(n) => n,
            None => (DEFAULT_EYE_WIDTH, DEFAULT_EYE_HEIGHT),
        },
    }
}

} // verus!
