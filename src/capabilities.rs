use vstd::prelude::*;
use crate::document::{
    document_bool, document_parses, json_bool_at, json_parses, text_from_utf8, utf8_text,
};
use crate::stream_config::Resolution;
use crate::float_bits::{
    byte_of_negative_f32, is_negative_bits, is_negative_f32, lemma_negative_byte_round_trip,
    neg_byte_f32, negative_bits_byte, negative_byte_bits, F32_ONE_BITS,
};

verus! {

/// The capability packet that every server version understands. Each entry of
/// `supported_refresh_rates_plus_extra_data` is the bit pattern of a binary32
/// value: the non-negative ones are refresh rates, the negative ones carry the
/// bytes of the full capability document, one byte each as its negation.
pub struct VideoStreamingCapabilitiesLegacy {
    pub default_view_resolution: Resolution,
    pub supported_refresh_rates_plus_extra_data: Vec<u32>,
    pub microphone_sample_rate: u32,
}

/// What the client can do. Refresh rates and the encoding gamma are binary32
/// bit patterns.
pub struct VideoStreamingCapabilities {
    pub default_view_resolution: Resolution,
    pub supported_refresh_rates: Vec<u32>,
    pub microphone_sample_rate: u32,
    pub supports_foveated_encoding: bool,
    pub encoder_high_profile: bool,
    pub encoder_10_bits: bool,
    pub encoder_av1: bool,
    pub multimodal_protocol: bool,
    pub prefer_10bit: bool,
    pub prefer_full_range: bool,
    pub preferred_encoding_gamma: u32,
    pub prefer_hdr: bool,
}

/// The legacy entries for `rates` followed by the negated bytes of `doc`.
pub open spec fn legacy_entries(rates: Seq<u32>, doc: Seq<u8>) -> Seq<u32> {
    rates + doc.map_values(|b: u8| neg_byte_f32(b))
}

/// The entries of `s` that are not negative: the refresh rates.
pub open spec fn rates_part(s: Seq<u32>) -> Seq<u32>
    decreases s.len(),
{
    if s.len() == 0 {
        Seq::empty()
    } else if is_negative_f32(s.last()) {
        rates_part(s.drop_last())
    } else {
        rates_part(s.drop_last()).push(s.last())
    }
}

/// The bytes that the negative entries of `s` carry, in order.
pub open spec fn smuggled_part(s: Seq<u32>) -> Seq<u8>
    decreases s.len(),
{
    if s.len() == 0 {
        Seq::empty()
    } else if is_negative_f32(s.last()) {
        smuggled_part(s.drop_last()).push(byte_of_negative_f32(s.last()))
    } else {
        smuggled_part(s.drop_last())
    }
}

/// `o`'s value, or `d` where it has none.
pub open spec fn or_bool(o: Option<bool>, d: bool) -> bool {
    match o {
        Some(v) => v,
        None => d,
    }
}

/// `o`'s value, or `d` where it has none.
pub open spec fn or_u32(o: Option<u32>, d: u32) -> u32 {
    match o {
        Some(v) => v,
        None => d,
    }
}

/// Whether `legacy` is the legacy form of `caps` with the serialized capability
/// document `doc` smuggled in.
pub open spec fn is_legacy_encoding(
    legacy: VideoStreamingCapabilitiesLegacy,
    caps: VideoStreamingCapabilities,
    doc: Seq<u8>,
) -> bool {
    &&& legacy.default_view_resolution == caps.default_view_resolution
    &&& legacy.microphone_sample_rate == caps.microphone_sample_rate
    &&& legacy.supported_refresh_rates_plus_extra_data@ == legacy_entries(
        caps.supported_refresh_rates@,
        doc,
    )
}

/// The extended fields of a capability document, each `None` where the
/// document lacks it.
#[derive(PartialEq, Eq, Structural, Debug, Clone, Copy)]
pub struct CapabilityFields {
    pub supports_foveated_encoding: Option<bool>,
    pub encoder_high_profile: Option<bool>,
    pub encoder_10_bits: Option<bool>,
    pub encoder_av1: Option<bool>,
    pub multimodal_protocol: Option<bool>,
    pub prefer_10bit: Option<bool>,
    pub prefer_full_range: Option<bool>,
    pub preferred_encoding_gamma: Option<u32>,
    pub prefer_hdr: Option<bool>,
}

/// The extended fields that the document `text` states, with `gamma` as the
/// caller read its `preferred_encoding_gamma`.
pub open spec fn document_fields(text: Seq<char>, gamma: Option<u32>) -> CapabilityFields {
    CapabilityFields {
        supports_foveated_encoding: json_bool_at(text, "supports_foveated_encoding"@),
        encoder_high_profile: json_bool_at(text, "encoder_high_profile"@),
        encoder_10_bits: json_bool_at(text, "encoder_10_bits"@),
        encoder_av1: json_bool_at(text, "encoder_av1"@),
        multimodal_protocol: json_bool_at(text, "multimodal_protocol"@),
        prefer_10bit: json_bool_at(text, "prefer_10bit"@),
        prefer_full_range: json_bool_at(text, "prefer_full_range"@),
        preferred_encoding_gamma: gamma,
        prefer_hdr: json_bool_at(text, "prefer_hdr"@),
    }
}

/// Whether the extended fields of `caps` are those of `f`, with the default for
/// each field that `f` lacks.
pub open spec fn has_extensions(caps: VideoStreamingCapabilities, f: CapabilityFields) -> bool {
    &&& caps.supports_foveated_encoding == or_bool(f.supports_foveated_encoding, true)
    &&& caps.encoder_high_profile == or_bool(f.encoder_high_profile, true)
    &&& caps.encoder_10_bits == or_bool(f.encoder_10_bits, true)
    &&& caps.encoder_av1 == or_bool(f.encoder_av1, true)
    &&& caps.multimodal_protocol == or_bool(f.multimodal_protocol, false)
    &&& caps.prefer_10bit == or_bool(f.prefer_10bit, false)
    &&& caps.prefer_full_range == or_bool(f.prefer_full_range, true)
    &&& caps.preferred_encoding_gamma == or_u32(f.preferred_encoding_gamma, F32_ONE_BITS)
    &&& caps.prefer_hdr == or_bool(f.prefer_hdr, false)
}

/// A document that states no extended field.
pub open spec fn no_fields() -> CapabilityFields {
    CapabilityFields {
        supports_foveated_encoding: None,
        encoder_high_profile: None,
        encoder_10_bits: None,
        encoder_av1: None,
        multimodal_protocol: None,
        prefer_10bit: None,
        prefer_full_range: None,
        preferred_encoding_gamma: None,
        prefer_hdr: None,
    }
}

/// The extended fields that the smuggled bytes `bytes` state, with `gamma` as
/// the caller read the document's `preferred_encoding_gamma`. Bytes that are not
/// UTF-8, or a text that is not a JSON document, state none.
pub open spec fn smuggled_fields(bytes: Seq<u8>, gamma: Option<u32>) -> CapabilityFields {
    match utf8_text(bytes) {
        Some(text) => if json_parses(text) {
            document_fields(text, gamma)
        } else {
            no_fields()
        },
        None => no_fields(),
    }
}

/// Whether `caps` is what `legacy` decodes to, where the caller read the
/// smuggled document's `preferred_encoding_gamma` as `gamma`.
pub open spec fn is_decoding(
    caps: VideoStreamingCapabilities,
    legacy: VideoStreamingCapabilitiesLegacy,
    gamma: Option<u32>,
) -> bool {
    &&& caps.default_view_resolution == legacy.default_view_resolution
    &&& caps.microphone_sample_rate == legacy.microphone_sample_rate
    &&& caps.supported_refresh_rates@ == rates_part(
        legacy.supported_refresh_rates_plus_extra_data@,
    )
    &&& has_extensions(
        caps,
        smuggled_fields(smuggled_part(legacy.supported_refresh_rates_plus_extra_data@), gamma),
    )
}

/// Builds a capability record from the legacy fields, the refresh rates and the
/// extended fields read from the document, each missing one at its default.
pub fn capabilities_from_fields(
    default_view_resolution: Resolution,
    supported_refresh_rates: Vec<u32>,
    microphone_sample_rate: u32,
    fields: CapabilityFields,
) -> (r: VideoStreamingCapabilities)
    ensures
        r.default_view_resolution == default_view_resolution,
        r.supported_refresh_rates@ == supported_refresh_rates@,
        r.microphone_sample_rate == microphone_sample_rate,
        has_extensions(r, fields),
{
    VideoStreamingCapabilities {
        default_view_resolution,
        supported_refresh_rates,
        microphone_sample_rate,
        supports_foveated_encoding: bool_or(fields.supports_foveated_encoding, true),
        encoder_high_profile: bool_or(fields.encoder_high_profile, true),
        encoder_10_bits: bool_or(fields.encoder_10_bits, true),
        encoder_av1: bool_or(fields.encoder_av1, true),
        multimodal_protocol: bool_or(fields.multimodal_protocol, false),
        prefer_10bit: bool_or(fields.prefer_10bit, false),
        prefer_full_range: bool_or(fields.prefer_full_range, true),
        preferred_encoding_gamma: u32_or(fields.preferred_encoding_gamma, F32_ONE_BITS),
        prefer_hdr: bool_or(fields.prefer_hdr, false),
    }
}

/// Whether two capability records hold the same values.
pub open spec fn same_capabilities(a: VideoStreamingCapabilities, b: VideoStreamingCapabilities) -> bool {
    &&& a.default_view_resolution == b.default_view_resolution
    &&& a.supported_refresh_rates@ == b.supported_refresh_rates@
    &&& a.microphone_sample_rate == b.microphone_sample_rate
    &&& a.supports_foveated_encoding == b.supports_foveated_encoding
    &&& a.encoder_high_profile == b.encoder_high_profile
    &&& a.encoder_10_bits == b.encoder_10_bits
    &&& a.encoder_av1 == b.encoder_av1
    &&& a.multimodal_protocol == b.multimodal_protocol
    &&& a.prefer_10bit == b.prefer_10bit
    &&& a.prefer_full_range == b.prefer_full_range
    &&& a.preferred_encoding_gamma == b.preferred_encoding_gamma
    &&& a.prefer_hdr == b.prefer_hdr
}

/// Whether no entry of `s` is negative, so that it smuggles no byte.
pub open spec fn no_smuggled_bytes(s: Seq<u32>) -> bool {
    forall|i: int| 0 <= i < s.len() ==> !is_negative_f32(#[trigger] s[i])
}

/// Whether every extended field of `caps` holds its default.
pub open spec fn has_default_extensions(caps: VideoStreamingCapabilities) -> bool {
    &&& caps.supports_foveated_encoding
    &&& caps.encoder_high_profile
    &&& caps.encoder_10_bits
    &&& caps.encoder_av1
    &&& !caps.multimodal_protocol
    &&& !caps.prefer_10bit
    &&& caps.prefer_full_range
    &&& caps.preferred_encoding_gamma == F32_ONE_BITS
    &&& !caps.prefer_hdr
}

/// Builds the legacy packet for `caps`: the refresh rates verbatim, then every
/// byte of `document`, the serialized capability record, as its negation.
pub fn encode_video_streaming_capabilities(
    caps: &VideoStreamingCapabilities,
    document: &[u8],
) -> (r: VideoStreamingCapabilitiesLegacy)
    requires
        caps.supported_refresh_rates@.len() + document@.len() <= usize::MAX,
    ensures
        is_legacy_encoding(r, *caps, document@),
{
    let mut entries: Vec<u32> = Vec::new();
    let mut i: usize = 0;
    while i < caps.supported_refresh_rates.len()
        invariant
            i <= caps.supported_refresh_rates@.len(),
            entries@ == caps.supported_refresh_rates@.subrange(0, i as int),
        decreases caps.supported_refresh_rates@.len() - i,
    {
        entries.push(caps.supported_refresh_rates[i]);
        proof {
            assert(caps.supported_refresh_rates@.subrange(0, i as int + 1)
                =~= caps.supported_refresh_rates@.subrange(0, i as int).push(
                caps.supported_refresh_rates@[i as int],
            ));
        }
        i = i + 1;
    }
    let mut j: usize = 0;
    proof {
        assert(caps.supported_refresh_rates@.subrange(0, i as int) =~= caps.supported_refresh_rates@);
        assert(entries@ =~= legacy_entries(caps.supported_refresh_rates@, document@.subrange(0, 0)));
    }
    while j < document.len()
        invariant
            j <= document@.len(),
            entries@ == legacy_entries(caps.supported_refresh_rates@, document@.subrange(0, j as int)),
        decreases document@.len() - j,
    {
        let bits = negative_byte_bits(document[j]);
        entries.push(bits);
        proof {
            assert(legacy_entries(caps.supported_refresh_rates@, document@.subrange(0, j as int + 1))
                =~= legacy_entries(caps.supported_refresh_rates@, document@.subrange(0, j as int)).push(
                bits,
            ));
        }
        j = j + 1;
    }
    proof {
        assert(document@.subrange(0, j as int) =~= document@);
    }
    VideoStreamingCapabilitiesLegacy {
        default_view_resolution: caps.default_view_resolution,
        supported_refresh_rates_plus_extra_data: entries,
        microphone_sample_rate: caps.microphone_sample_rate,
    }
}

/// Splits legacy entries into the refresh rates and the smuggled document bytes.
pub fn split_legacy_entries(entries: &Vec<u32>) -> (r: (Vec<u32>, Vec<u8>))
    ensures
        r.0@ == rates_part(entries@),
        r.1@ == smuggled_part(entries@),
{
    let mut rates: Vec<u32> = Vec::new();
    let mut bytes: Vec<u8> = Vec::new();
    let mut i: usize = 0;
    while i < entries.len()
        invariant
            i <= entries@.len(),
            rates@ == rates_part(entries@.subrange(0, i as int)),
            bytes@ == smuggled_part(entries@.subrange(0, i as int)),
        decreases entries@.len() - i,
    {
        let x = entries[i];
        proof {
            let s1 = entries@.subrange(0, i as int + 1);
            assert(s1.drop_last() =~= entries@.subrange(0, i as int));
            assert(s1.last() == x);
        }
        if is_negative_bits(x) {
            bytes.push(negative_bits_byte(x));
        } else {
            rates.push(x);
        }
        i = i + 1;
    }
    proof {
        assert(entries@.subrange(0, i as int) =~= entries@);
    }
    (rates, bytes)
}

/// Reads a legacy capability packet. The non-negative entries are the refresh
/// rates; the negative ones spell the capability document, whose extended fields
/// are read where present and take their defaults where not. `document_gamma` is
/// the document's `preferred_encoding_gamma` as the caller read it (numbers of
/// that kind do not enter this library). Never fails: smuggled bytes that are
/// not UTF-8, or a text that is not a JSON document, count as no document.
pub fn decode_video_streaming_capabilities(
    legacy: &VideoStreamingCapabilitiesLegacy,
    document_gamma: Option<u32>,
) -> (r: VideoStreamingCapabilities)
    ensures
        is_decoding(r, *legacy, document_gamma),
        ({
            let bytes = smuggled_part(legacy.supported_refresh_rates_plus_extra_data@);
            match utf8_text(bytes) {
                Some(text) => !json_parses(text) ==> has_default_extensions(r),
                None => has_default_extensions(r),
            }
        }),
        no_smuggled_bytes(legacy.supported_refresh_rates_plus_extra_data@) ==> has_default_extensions(r)
            && r.supported_refresh_rates@ == legacy.supported_refresh_rates_plus_extra_data@,
{
    proof {
        if no_smuggled_bytes(legacy.supported_refresh_rates_plus_extra_data@) {
            lemma_parts_of_rates(legacy.supported_refresh_rates_plus_extra_data@);
        }
    }
    let (rates, bytes) = split_legacy_entries(&legacy.supported_refresh_rates_plus_extra_data);
    let absent = CapabilityFields {
        supports_foveated_encoding: None,
        encoder_high_profile: None,
        encoder_10_bits: None,
        encoder_av1: None,
        multimodal_protocol: None,
        prefer_10bit: None,
        prefer_full_range: None,
        preferred_encoding_gamma: None,
        prefer_hdr: None,
    };
    let fields = match text_from_utf8(bytes) {
        None => absent,
        Some(text) => {
            let doc = text.as_str();
            if document_parses(doc) {
                CapabilityFields {
                    supports_foveated_encoding: document_bool(doc, "supports_foveated_encoding"),
                    encoder_high_profile: document_bool(doc, "encoder_high_profile"),
                    encoder_10_bits: document_bool(doc, "encoder_10_bits"),
                    encoder_av1: document_bool(doc, "encoder_av1"),
                    multimodal_protocol: document_bool(doc, "multimodal_protocol"),
                    prefer_10bit: document_bool(doc, "prefer_10bit"),
                    prefer_full_range: document_bool(doc, "prefer_full_range"),
                    preferred_encoding_gamma: document_gamma,
                    prefer_hdr: document_bool(doc, "prefer_hdr"),
                }
            } else {
                absent
            }
        },
    };
    capabilities_from_fields(
        legacy.default_view_resolution,
        rates,
        legacy.microphone_sample_rate,
        fields,
    )
}

/// Computes `or_u32(o, d)`.
pub fn u32_or(o: Option<u32>, d: u32) -> (r: u32)
    ensures
        r == or_u32(o, d),
{
    match o {
        Some(v) => v,
        None => d,
    }
}

/// Computes `or_bool(o, d)`.
pub fn bool_or(o: Option<bool>, d: bool) -> (r: bool)
    ensures
        r == or_bool(o, d),
{
    match o {
        Some(v) => v,
        None => d,
    }
}

proof fn lemma_parts_of_rates(rates: Seq<u32>)
    requires
        forall|i: int| 0 <= i < rates.len() ==> !is_negative_f32(#[trigger] rates[i]),
    ensures
        rates_part(rates) == rates,
        smuggled_part(rates) == Seq::<u8>::empty(),
    decreases rates.len(),
{
    if rates.len() > 0 {
        lemma_parts_of_rates(rates.drop_last());
        assert(rates.drop_last().push(rates.last()) =~= rates);
    }
}

/// The smuggling round trip: where the refresh rates are not negative and the
/// document has no zero byte, the legacy entries split back into exactly the
/// refresh rates and the document.
pub proof fn lemma_legacy_entries_round_trip(rates: Seq<u32>, doc: Seq<u8>)
    requires
        forall|i: int| 0 <= i < rates.len() ==> !is_negative_f32(#[trigger] rates[i]),
        forall|i: int| 0 <= i < doc.len() ==> #[trigger] doc[i] != 0,
    ensures
        rates_part(legacy_entries(rates, doc)) == rates,
        smuggled_part(legacy_entries(rates, doc)) == doc,
    decreases doc.len(),
{
    if doc.len() == 0 {
        assert(legacy_entries(rates, doc) =~= rates);
        lemma_parts_of_rates(rates);
    } else {
        let prev = doc.drop_last();
        lemma_legacy_entries_round_trip(rates, prev);
        let s = legacy_entries(rates, doc);
        assert(s.drop_last() =~= legacy_entries(rates, prev));
        assert(s.last() == neg_byte_f32(doc.last()));
        lemma_negative_byte_round_trip(doc.last());
        assert(prev.push(doc.last()) =~= doc);
    }
}

/// Decoding undoes encoding: where `legacy` encodes `caps` with the document
/// `doc`, `doc` is the UTF-8 text of a JSON document `text` stating every
/// extended field of `caps`, and the caller reads back `caps`'s gamma, the
/// decoded record is `caps`.
pub proof fn lemma_capabilities_round_trip(
    caps: VideoStreamingCapabilities,
    doc: Seq<u8>,
    text: Seq<char>,
    legacy: VideoStreamingCapabilitiesLegacy,
    decoded: VideoStreamingCapabilities,
)
    requires
        forall|i: int|
            0 <= i < caps.supported_refresh_rates@.len() ==> !is_negative_f32(
                #[trigger] caps.supported_refresh_rates@[i],
            ),
        forall|i: int| 0 <= i < doc.len() ==> #[trigger] doc[i] != 0,
        utf8_text(doc) == Some(text),
        json_parses(text),
        json_bool_at(text, "supports_foveated_encoding"@) == Some(caps.supports_foveated_encoding),
        json_bool_at(text, "encoder_high_profile"@) == Some(caps.encoder_high_profile),
        json_bool_at(text, "encoder_10_bits"@) == Some(caps.encoder_10_bits),
        json_bool_at(text, "encoder_av1"@) == Some(caps.encoder_av1),
        json_bool_at(text, "multimodal_protocol"@) == Some(caps.multimodal_protocol),
        json_bool_at(text, "prefer_10bit"@) == Some(caps.prefer_10bit),
        json_bool_at(text, "prefer_full_range"@) == Some(caps.prefer_full_range),
        json_bool_at(text, "prefer_hdr"@) == Some(caps.prefer_hdr),
        is_legacy_encoding(legacy, caps, doc),
        is_decoding(decoded, legacy, Some(caps.preferred_encoding_gamma)),
    ensures
        same_capabilities(decoded, caps),
{
    lemma_legacy_entries_round_trip(caps.supported_refresh_rates@, doc);
}

} // verus!
