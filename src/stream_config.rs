use vstd::prelude::*;
use crate::capabilities::{bool_or, or_bool, or_u32, u32_or};
use crate::document::{
    document_bool, document_parses, document_u32, document_u32_pair, json_bool_at, json_parses,
    json_u32_at, json_u32_pair_at,
};
use crate::float_bits::F32_ONE_BITS;

verus! {

/// The stream configuration as it crosses the wire: the session settings and
/// the negotiated configuration, each a JSON document.
pub struct StreamConfigPacket {
    pub session: String,
    pub negotiated: String,
}

/// The parameters that client and server agreed on for one streaming session.
/// `refresh_rate_hint` and `encoding_gamma` are binary32 bit patterns.
#[derive(PartialEq, Eq, Structural, Debug, Clone, Copy)]
pub struct NegotiatedStreamingConfig {
    pub view_resolution: Resolution,
    pub refresh_rate_hint: u32,
    pub game_audio_sample_rate: u32,
    pub enable_foveated_encoding: bool,
    pub use_multimodal_protocol: bool,
    pub use_full_range: bool,
    pub encoding_gamma: u32,
    pub enable_hdr: bool,
    pub wired: bool,
}

/// A width and a height, in pixels.
#[derive(PartialEq, Eq, Structural, Debug, Clone, Copy)]
pub struct Resolution {
    pub width: u32,
    pub height: u32,
}

/// A server version, `major.minor.patch`.
#[derive(PartialEq, Eq, Structural, Debug, Clone, Copy)]
pub struct ServerVersion {
    pub major: u64,
    pub minor: u64,
    pub patch: u64,
}

/// The session settings that the server sent, once merged onto the default
/// session: the fields that decoding reads, and `document`, the complete merged
/// settings serialized, by which two settings compare.
#[derive(PartialEq, Eq, Debug, Clone)]
pub struct StreamSettings {
    pub server_version: ServerVersion,
    pub foveated_encoding_enabled: bool,
    pub use_full_range: bool,
    pub document: Vec<u8>,
}

/// The numbers of the negotiated document whose values are binary32, as the
/// caller read them (`None` where absent or not a number).
#[derive(Debug, Clone, Copy)]
pub struct NegotiatedNumbers {
    pub refresh_rate_hint: Option<u32>,
    pub encoding_gamma: Option<u32>,
}

/// One stream configuration, compared by value (`same_config`) to detect a
/// change.
#[derive(PartialEq, Eq, Debug, Clone)]
pub struct StreamConfig {
    pub server_version: ServerVersion,
    pub settings: StreamSettings,
    pub negotiated_config: NegotiatedStreamingConfig,
}

/// Whether two settings hold the same values.
pub open spec fn same_settings(a: StreamSettings, b: StreamSettings) -> bool {
    &&& a.server_version == b.server_version
    &&& a.foveated_encoding_enabled == b.foveated_encoding_enabled
    &&& a.use_full_range == b.use_full_range
    &&& a.document@ == b.document@
}

/// Whether two stream configurations hold the same values.
pub open spec fn same_config(a: StreamConfig, b: StreamConfig) -> bool {
    &&& a.server_version == b.server_version
    &&& same_settings(a.settings, b.settings)
    &&& a.negotiated_config == b.negotiated_config
}

/// Computes `same_config(*a, *b)`.
pub fn configs_equal(a: &StreamConfig, b: &StreamConfig) -> (r: bool)
    ensures
        r == same_config(*a, *b),
{
    if a.server_version != b.server_version || a.negotiated_config != b.negotiated_config
        || a.settings.server_version != b.settings.server_version
        || a.settings.foveated_encoding_enabled != b.settings.foveated_encoding_enabled
        || a.settings.use_full_range != b.settings.use_full_range {
        return false;
    }
    if a.settings.document.len() != b.settings.document.len() {
        return false;
    }
    let mut i: usize = 0;
    while i < a.settings.document.len()
        invariant
            i <= a.settings.document@.len(),
            a.settings.document@.len() == b.settings.document@.len(),
            forall|k: int| 0 <= k < i ==> a.settings.document@[k] == b.settings.document@[k],
        decreases a.settings.document@.len() - i,
    {
        if a.settings.document[i] != b.settings.document[i] {
            return false;
        }
        i = i + 1;
    }
    proof {
        assert(a.settings.document@ =~= b.settings.document@);
    }
    true
}

/// Why a stream configuration packet could not be read.
#[derive(PartialEq, Eq, Structural, Debug, Clone, Copy)]
pub enum StreamConfigDecodeError {
    InvalidNegotiatedDocument,
    MissingViewResolution,
    MissingRefreshRateHint,
    MissingGameAudioSampleRate,
}

/// The fields of a negotiated document, each `None` where the document lacks
/// it (or holds a value of another kind).
#[derive(Debug, Clone, Copy)]
pub struct NegotiatedFields {
    pub view_resolution: Option<Resolution>,
    pub refresh_rate_hint: Option<u32>,
    pub game_audio_sample_rate: Option<u32>,
    pub enable_foveated_encoding: Option<bool>,
    pub use_multimodal_protocol: Option<bool>,
    pub use_full_range: Option<bool>,
    pub encoding_gamma: Option<u32>,
    pub enable_hdr: Option<bool>,
    pub wired: Option<bool>,
}

/// The resolution under `key` in `doc`.
pub open spec fn resolution_at(doc: Seq<char>, key: Seq<char>) -> Option<Resolution> {
    match json_u32_pair_at(doc, key) {
        Some(p) => Some(Resolution { width: p.0, height: p.1 }),
        None => None,
    }
}

/// The fields that the negotiated document `doc` states, with its binary32
/// numbers as the caller read them.
pub open spec fn negotiated_fields_of(doc: Seq<char>, numbers: NegotiatedNumbers) -> NegotiatedFields {
    NegotiatedFields {
        view_resolution: resolution_at(doc, "view_resolution"@),
        refresh_rate_hint: numbers.refresh_rate_hint,
        game_audio_sample_rate: json_u32_at(doc, "game_audio_sample_rate"@),
        enable_foveated_encoding: json_bool_at(doc, "enable_foveated_encoding"@),
        use_multimodal_protocol: json_bool_at(doc, "use_multimodal_protocol"@),
        use_full_range: json_bool_at(doc, "use_full_range"@),
        encoding_gamma: numbers.encoding_gamma,
        enable_hdr: json_bool_at(doc, "enable_hdr"@),
        wired: json_bool_at(doc, "wired"@),
    }
}

/// The configuration that the fields `f` give under `settings`. The three
/// required fields fail where absent, checked in this order; every other field
/// takes its default, two of them from the settings.
pub open spec fn config_from_fields(f: NegotiatedFields, settings: StreamSettings) -> Result<
    StreamConfig,
    StreamConfigDecodeError,
> {
    if f.view_resolution is None {
        Err(StreamConfigDecodeError::MissingViewResolution)
    } else if f.refresh_rate_hint is None {
        Err(StreamConfigDecodeError::MissingRefreshRateHint)
    } else if f.game_audio_sample_rate is None {
        Err(StreamConfigDecodeError::MissingGameAudioSampleRate)
    } else {
        Ok(
            StreamConfig {
                server_version: settings.server_version,
                settings,
                negotiated_config: NegotiatedStreamingConfig {
                    view_resolution: f.view_resolution->Some_0,
                    refresh_rate_hint: f.refresh_rate_hint->Some_0,
                    game_audio_sample_rate: f.game_audio_sample_rate->Some_0,
                    enable_foveated_encoding: or_bool(
                        f.enable_foveated_encoding,
                        settings.foveated_encoding_enabled,
                    ),
                    use_multimodal_protocol: or_bool(f.use_multimodal_protocol, false),
                    use_full_range: or_bool(f.use_full_range, settings.use_full_range),
                    encoding_gamma: or_u32(f.encoding_gamma, F32_ONE_BITS),
                    enable_hdr: or_bool(f.enable_hdr, false),
                    wired: or_bool(f.wired, false),
                },
            },
        )
    }
}

/// What a negotiated document `doc` decodes to, given the settings and the
/// binary32 numbers read from it.
pub open spec fn decoded_stream_config(
    doc: Seq<char>,
    settings: StreamSettings,
    numbers: NegotiatedNumbers,
) -> Result<StreamConfig, StreamConfigDecodeError> {
    if !json_parses(doc) {
        Err(StreamConfigDecodeError::InvalidNegotiatedDocument)
    } else {
        config_from_fields(negotiated_fields_of(doc, numbers), settings)
    }
}

/// Builds the stream configuration from the fields read from a negotiated
/// document: an error for the first required field that is missing, else every
/// optional field at its value or its default.
pub fn stream_config_from_fields(fields: NegotiatedFields, settings: StreamSettings) -> (r: Result<
    StreamConfig,
    StreamConfigDecodeError,
>)
    ensures
        r == config_from_fields(fields, settings),
{
    let view_resolution = match fields.view_resolution {
        Some(v) => v,
        None => return Err(StreamConfigDecodeError::MissingViewResolution),
    };
    let refresh_rate_hint = match fields.refresh_rate_hint {
        Some(v) => v,
        None => return Err(StreamConfigDecodeError::MissingRefreshRateHint),
    };
    let game_audio_sample_rate = match fields.game_audio_sample_rate {
        Some(v) => v,
        None => return Err(StreamConfigDecodeError::MissingGameAudioSampleRate),
    };
    let negotiated_config = NegotiatedStreamingConfig {
        view_resolution,
        refresh_rate_hint,
        game_audio_sample_rate,
        enable_foveated_encoding: bool_or(
            fields.enable_foveated_encoding,
            settings.foveated_encoding_enabled,
        ),
        use_multimodal_protocol: bool_or(fields.use_multimodal_protocol, false),
        use_full_range: bool_or(fields.use_full_range, settings.use_full_range),
        encoding_gamma: u32_or(fields.encoding_gamma, F32_ONE_BITS),
        enable_hdr: bool_or(fields.enable_hdr, false),
        wired: bool_or(fields.wired, false),
    };
    Ok(StreamConfig { server_version: settings.server_version, settings, negotiated_config })
}

/// Reads a stream configuration packet. `settings` is what the packet's session
/// document gave once merged onto the default session; `numbers` holds the
/// binary32 fields of the negotiated document. Fails where the negotiated
/// document is no JSON or lacks a required field.
pub fn decode_stream_config(
    packet: &StreamConfigPacket,
    settings: StreamSettings,
    numbers: NegotiatedNumbers,
) -> (r: Result<StreamConfig, StreamConfigDecodeError>)
    ensures
        r == decoded_stream_config(packet.negotiated@, settings, numbers),
{
    let doc = packet.negotiated.as_str();
    if !document_parses(doc) {
        return Err(StreamConfigDecodeError::InvalidNegotiatedDocument);
    }
    let view_resolution = match document_u32_pair(doc, "view_resolution") {
        Some(v) => Some(Resolution { width: v.0, height: v.1 }),
        None => None,
    };
    let fields = NegotiatedFields {
        view_resolution,
        refresh_rate_hint: numbers.refresh_rate_hint,
        game_audio_sample_rate: document_u32(doc, "game_audio_sample_rate"),
        enable_foveated_encoding: document_bool(doc, "enable_foveated_encoding"),
        use_multimodal_protocol: document_bool(doc, "use_multimodal_protocol"),
        use_full_range: document_bool(doc, "use_full_range"),
        encoding_gamma: numbers.encoding_gamma,
        enable_hdr: document_bool(doc, "enable_hdr"),
        wired: document_bool(doc, "wired"),
    };
    stream_config_from_fields(fields, settings)
}

/// A negotiated document without `enable_hdr` decodes with HDR off, and one
/// without `encoding_gamma` decodes with a gamma of 1.0.
pub proof fn lemma_negotiated_defaults(
    doc: Seq<char>,
    settings: StreamSettings,
    numbers: NegotiatedNumbers,
)
    requires
        decoded_stream_config(doc, settings, numbers) is Ok,
    ensures
        json_bool_at(doc, "enable_hdr"@) is None ==> !decoded_stream_config(
            doc,
            settings,
            numbers,
        )->Ok_0.negotiated_config.enable_hdr,
        numbers.encoding_gamma is None ==> decoded_stream_config(
            doc,
            settings,
            numbers,
        )->Ok_0.negotiated_config.encoding_gamma == F32_ONE_BITS,
{
}

} // verus!
