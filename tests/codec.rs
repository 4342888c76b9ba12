use alvr_client_protocol::capabilities::{
    capabilities_from_fields, decode_video_streaming_capabilities,
    encode_video_streaming_capabilities, split_legacy_entries,
    CapabilityFields, VideoStreamingCapabilities, VideoStreamingCapabilitiesLegacy,
};
use alvr_client_protocol::float_bits::{
    is_negative_bits, negative_bits_byte, negative_byte_bits, F32_ONE_BITS,
};
use alvr_client_protocol::stream_config::Resolution;

fn sample_caps() -> VideoStreamingCapabilities {
    VideoStreamingCapabilities {
        default_view_resolution: Resolution { width: 1832, height: 1920 },
        supported_refresh_rates: vec![72.0f32.to_bits(), 90.0f32.to_bits(), 120.0f32.to_bits()],
        microphone_sample_rate: 44100,
        supports_foveated_encoding: false,
        encoder_high_profile: true,
        encoder_10_bits: false,
        encoder_av1: false,
        multimodal_protocol: true,
        prefer_10bit: true,
        prefer_full_range: false,
        preferred_encoding_gamma: 2.2f32.to_bits(),
        prefer_hdr: true,
    }
}

fn sample_document() -> Vec<u8> {
    br#"{"supports_foveated_encoding":false,"encoder_high_profile":true,"encoder_10_bits":false,"encoder_av1":false,"multimodal_protocol":true,"prefer_10bit":true,"prefer_full_range":false,"preferred_encoding_gamma":2.2,"prefer_hdr":true}"#
        .to_vec()
}

#[test]
fn negative_byte_bits_match_f32_negation() {
    for b in 0..=255u8 {
        assert_eq!(negative_byte_bits(b), (-(b as f32)).to_bits(), "byte {b}");
    }
}

#[test]
fn negative_bits_byte_matches_f32_cast() {
    let values = [-1.0f32, -0.5, -1.5, -97.9, -128.0, -200.25, -255.0, -255.9, -256.0, -1000.0, f32::NEG_INFINITY, -1e-30];
    for v in values {
        let bits = v.to_bits();
        assert!(is_negative_bits(bits));
        assert_eq!(negative_bits_byte(bits), (-v) as u8, "value {v}");
    }
    assert!(!is_negative_bits((-0.0f32).to_bits()));
    assert!(!is_negative_bits(0.0f32.to_bits()));
    assert!(!is_negative_bits(90.0f32.to_bits()));
    assert!(!is_negative_bits(f32::NAN.to_bits()));
    assert!(!is_negative_bits((-f32::NAN).to_bits()));
}

#[test]
fn encode_appends_negated_document_bytes() {
    let caps = sample_caps();
    let doc = b"{}".to_vec();
    let legacy = encode_video_streaming_capabilities(&caps, &doc);
    let floats: Vec<f32> = legacy
        .supported_refresh_rates_plus_extra_data
        .iter()
        .map(|b| f32::from_bits(*b))
        .collect();
    assert_eq!(floats, vec![72.0, 90.0, 120.0, -123.0, -125.0]);
    assert_eq!(legacy.default_view_resolution, Resolution { width: 1832, height: 1920 });
    assert_eq!(legacy.microphone_sample_rate, 44100);
}

#[test]
fn split_separates_rates_and_bytes() {
    let entries = vec![90.0f32.to_bits(), (-65.0f32).to_bits(), 60.0f32.to_bits(), (-66.0f32).to_bits()];
    let (rates, bytes) = split_legacy_entries(&entries);
    assert_eq!(rates, vec![90.0f32.to_bits(), 60.0f32.to_bits()]);
    assert_eq!(bytes, b"AB".to_vec());
}

#[test]
fn capabilities_round_trip() {
    let caps = sample_caps();
    let legacy = encode_video_streaming_capabilities(&caps, &sample_document());
    let decoded = decode_video_streaming_capabilities(&legacy, Some(2.2f32.to_bits()));
    assert_eq!(decoded.default_view_resolution, caps.default_view_resolution);
    assert_eq!(decoded.supported_refresh_rates, caps.supported_refresh_rates);
    assert_eq!(decoded.microphone_sample_rate, caps.microphone_sample_rate);
    assert_eq!(decoded.supports_foveated_encoding, false);
    assert_eq!(decoded.encoder_high_profile, true);
    assert_eq!(decoded.encoder_10_bits, false);
    assert_eq!(decoded.encoder_av1, false);
    assert_eq!(decoded.multimodal_protocol, true);
    assert_eq!(decoded.prefer_10bit, true);
    assert_eq!(decoded.prefer_full_range, false);
    assert_eq!(decoded.preferred_encoding_gamma, 2.2f32.to_bits());
    assert_eq!(decoded.prefer_hdr, true);
}

#[test]
fn legacy_payload_decodes_to_defaults() {
    let legacy = VideoStreamingCapabilitiesLegacy {
        default_view_resolution: Resolution { width: 1024, height: 1024 },
        supported_refresh_rates_plus_extra_data: vec![72.0f32.to_bits(), 90.0f32.to_bits()],
        microphone_sample_rate: 48000,
    };
    let decoded = decode_video_streaming_capabilities(&legacy, None);
    assert_eq!(decoded.supported_refresh_rates, vec![72.0f32.to_bits(), 90.0f32.to_bits()]);
    assert!(decoded.supports_foveated_encoding);
    assert!(decoded.encoder_high_profile);
    assert!(decoded.encoder_10_bits);
    assert!(decoded.encoder_av1);
    assert!(!decoded.multimodal_protocol);
    assert!(!decoded.prefer_10bit);
    assert!(decoded.prefer_full_range);
    assert_eq!(decoded.preferred_encoding_gamma, 1.0f32.to_bits());
    assert!(!decoded.prefer_hdr);
}

#[test]
fn unparsable_document_counts_as_absent() {
    let caps = sample_caps();
    let legacy = encode_video_streaming_capabilities(&caps, b"not json");
    let decoded = decode_video_streaming_capabilities(&legacy, None);
    assert!(decoded.supports_foveated_encoding);
    assert!(!decoded.prefer_hdr);
    assert_eq!(decoded.supported_refresh_rates, caps.supported_refresh_rates);
}

#[test]
fn partial_document_mixes_values_and_defaults() {
    let caps = sample_caps();
    let legacy = encode_video_streaming_capabilities(&caps, br#"{"encoder_av1":false,"prefer_hdr":true}"#);
    let decoded = decode_video_streaming_capabilities(&legacy, None);
    assert!(!decoded.encoder_av1);
    assert!(decoded.prefer_hdr);
    assert!(decoded.encoder_10_bits);
    assert!(decoded.prefer_full_range);
}

#[test]
fn invalid_utf8_decodes_to_defaults() {
    let legacy = VideoStreamingCapabilitiesLegacy {
        default_view_resolution: Resolution { width: 1, height: 1 },
        supported_refresh_rates_plus_extra_data: vec![
            90.0f32.to_bits(),
            (-255.0f32).to_bits(),
            (-254.0f32).to_bits(),
        ],
        microphone_sample_rate: 1,
    };
    let d = decode_video_streaming_capabilities(&legacy, Some(2.2f32.to_bits()));
    assert_eq!(d.supported_refresh_rates, vec![90.0f32.to_bits()]);
    assert!(d.supports_foveated_encoding);
    assert!(d.encoder_high_profile);
    assert!(d.encoder_10_bits);
    assert!(d.encoder_av1);
    assert!(!d.multimodal_protocol);
    assert!(!d.prefer_10bit);
    assert!(d.prefer_full_range);
    assert_eq!(d.preferred_encoding_gamma, 1.0f32.to_bits());
    assert!(!d.prefer_hdr);
}

#[test]
fn truncated_document_ignores_callers_gamma() {
    let caps = sample_caps();
    let doc = sample_document();
    let legacy = encode_video_streaming_capabilities(&caps, &doc[..doc.len() - 1]);
    let d = decode_video_streaming_capabilities(&legacy, Some(2.2f32.to_bits()));
    assert_eq!(d.preferred_encoding_gamma, 1.0f32.to_bits());
    assert!(d.supports_foveated_encoding);
    assert!(!d.multimodal_protocol);
    assert_eq!(d.supported_refresh_rates, caps.supported_refresh_rates);
}

#[test]
fn capability_fields_take_defaults() {
    let none = CapabilityFields {
        supports_foveated_encoding: None,
        encoder_high_profile: None,
        encoder_10_bits: Some(false),
        encoder_av1: None,
        multimodal_protocol: Some(true),
        prefer_10bit: None,
        prefer_full_range: None,
        preferred_encoding_gamma: None,
        prefer_hdr: None,
    };
    let c = capabilities_from_fields(Resolution { width: 2, height: 3 }, vec![], 16000, none);
    assert!(c.supports_foveated_encoding);
    assert!(c.encoder_high_profile);
    assert!(!c.encoder_10_bits);
    assert!(c.encoder_av1);
    assert!(c.multimodal_protocol);
    assert!(!c.prefer_10bit);
    assert!(c.prefer_full_range);
    assert_eq!(c.preferred_encoding_gamma, F32_ONE_BITS);
    assert!(!c.prefer_hdr);
    assert_eq!(c.microphone_sample_rate, 16000);
}
