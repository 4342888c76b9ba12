use vstd::prelude::*;
use std::collections::HashSet;
use std::time::Duration;

verus! {

/// Stream channel of tracking data.
pub const TRACKING: u16 = 0;
/// Stream channel of haptics requests.
pub const HAPTICS: u16 = 1;
/// Stream channel of audio.
pub const AUDIO: u16 = 2;
/// Stream channel of video.
pub const VIDEO: u16 = 3;
/// Stream channel of client statistics.
pub const STATISTICS: u16 = 4;

/// A client-to-server packet carried inside the reserved escape variant.
pub enum ReservedClientControlPacket {
    CustomInteractionProfile { device_id: u64, input_ids: HashSet<u64> },
}

/// The header in front of each video packet.
pub struct VideoPacketHeader {
    pub timestamp: Duration,
    pub is_idr: bool,
}

/// The audio devices a machine offers, by name.
pub struct AudioDevicesList {
    pub output: Vec<String>,
    pub input: Vec<String>,
}

/// Timing statistics of one frame on the client.
pub struct ClientStatistics {
    /// Identifies the frame.
    pub target_timestamp: Duration,
    pub frame_interval: Duration,
    pub video_decode: Duration,
    pub video_decoder_queue: Duration,
    pub rendering: Duration,
    pub vsync_queue: Duration,
    pub total_pipeline_latency: Duration,
}

/// A video codec.
#[derive(PartialEq, Eq, Structural, Debug, Clone, Copy)]
pub enum CodecType {
    H264,
    Hevc,
    AV1,
}

/// What the decoder needs before the first frame.
pub struct DecoderInitializationConfig {
    pub codec: CodecType,
    /// The codec's parameter sets, e.g. SPS and PPS NAL units.
    pub config_buffer: Vec<u8>,
}

/// A control packet from the server to the client. `Reserved` and
/// `ReservedBuffer` carry an independently encoded sub-packet, so that new
/// messages need no new variant here.
pub enum ServerControlPacket {
    StartStream,
    DecoderConfig(DecoderInitializationConfig),
    Restarting,
    KeepAlive,
    ServerPredictionAverage(Duration),
    Reserved(String),
    ReservedBuffer(Vec<u8>),
}

/// A field of view, as four binary32 angles in radians.
#[derive(PartialEq, Eq, Structural, Debug, Clone, Copy)]
pub struct Fov {
    pub left: u32,
    pub right: u32,
    pub up: u32,
    pub down: u32,
}

/// The eye views: the interpupillary distance in meters (binary32) and each
/// eye's field of view. The head-to-eye transform is a translation along x.
#[derive(Debug, Clone, Copy)]
pub struct ViewsConfig {
    pub ipd_m: u32,
    pub fov: [Fov; 2],
}

/// A battery reading; `gauge_value` is a binary32 in [0, 1].
#[derive(PartialEq, Eq, Structural, Debug, Clone, Copy)]
pub struct BatteryInfo {
    pub device_id: u64,
    pub gauge_value: u32,
    pub is_plugged: bool,
}

/// The value of a button: pressed or not, or a binary32 position.
#[derive(PartialEq, Eq, Structural, Debug, Clone, Copy)]
pub enum ButtonValue {
    Binary(bool),
    Scalar(u32),
}

/// One button state, by the id of its input path.
#[derive(PartialEq, Eq, Structural, Debug, Clone, Copy)]
pub struct ButtonEntry {
    pub path_id: u64,
    pub value: ButtonValue,
}

/// Severity of a log message.
#[derive(PartialEq, Eq, Structural, Debug, Clone, Copy)]
pub enum LogSeverity {
    Error,
    Warning,
    Info,
    Debug,
}

/// A play-space extent, width and depth in meters as binary32.
#[derive(PartialEq, Eq, Structural, Debug, Clone, Copy)]
pub struct PlayspaceExtent {
    pub width: u32,
    pub depth: u32,
}

/// A control packet from the client to the server. `Reserved` and
/// `ReservedBuffer` carry an independently encoded sub-packet.
pub enum ClientControlPacket {
    PlayspaceSync(Option<PlayspaceExtent>),
    RequestIdr,
    KeepAlive,
    /// The client's streaming socket is listening.
    StreamReady,
    ViewsConfig(ViewsConfig),
    Battery(BatteryInfo),
    VideoErrorReport,
    Buttons(Vec<ButtonEntry>),
    ActiveInteractionProfile { device_id: u64, profile_id: u64 },
    Log { level: LogSeverity, message: String },
    Reserved(String),
    ReservedBuffer(Vec<u8>),
}

/// A change to the firewall rules.
#[derive(PartialEq, Eq, Structural, Debug, Clone, Copy)]
pub enum FirewallRulesAction {
    Add,
    Remove,
}

} // verus!
