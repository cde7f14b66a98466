use niri_hdr::edid::{generate_hdr_config, HdrEdidCapabilities, HdrStaticMetadata};
use niri_hdr::ieee::Binary32;

fn b32(v: f32) -> Binary32 {
    Binary32 { bits: v.to_bits() }
}

fn metadata(max: f32, pq: bool, hlg: bool) -> HdrStaticMetadata {
    HdrStaticMetadata {
        desired_content_max_luminance: b32(max),
        desired_content_max_frame_avg_luminance: b32(603.7),
        desired_content_min_luminance: b32(0.051),
        type1: true,
        traditional_sdr: true,
        traditional_hdr: false,
        pq,
        hlg,
    }
}

#[test]
fn display_without_hdr_luminance_has_no_capabilities() {
    assert!(HdrEdidCapabilities::from_edid(&metadata(0.0, true, false)).is_none());
    assert!(HdrEdidCapabilities::from_edid(&metadata(-0.0, true, false)).is_none());
}

#[test]
fn capabilities_copy_the_metadata() {
    let caps = HdrEdidCapabilities::from_edid(&metadata(1015.2, true, true)).unwrap();
    assert_eq!(caps.max_luminance, b32(1015.2));
    assert_eq!(caps.min_luminance, b32(0.051));
    assert_eq!(caps.max_fall, b32(603.7));
    assert!(caps.supports_pq);
    assert!(caps.supports_hlg);
    assert!(caps.supports_hdr10);
    // Any non-zero luminance counts, even a tiny one.
    assert!(HdrEdidCapabilities::from_edid(&metadata(f32::MIN_POSITIVE, false, false)).is_some());
}

fn config_for(pq: bool, hlg: bool) -> String {
    let caps = HdrEdidCapabilities::from_edid(&metadata(1015.2, pq, hlg)).unwrap();
    generate_hdr_config(
        "DP-3",
        &caps,
        &format!("{}", 1015.2f32),
        &format!("{}", 0.051f32),
        &format!("{}", 603.7f32),
    )
}

#[test]
fn suggested_config_block() {
    let expected = "output \"DP-3\" {\n    hdr {\n        enabled true\n        max-luminance 1015.2\n        min-luminance 0.051\n        max-cll 1015.2\n        max-fall 603.7\n        transfer-function pq\n    }\n}";
    assert_eq!(config_for(true, false), expected);
}

#[test]
fn suggested_transfer_function_is_hlg_only_without_pq() {
    assert!(config_for(false, true).contains("transfer-function hlg\n"));
    assert!(config_for(true, true).contains("transfer-function pq\n"));
    assert!(config_for(false, false).contains("transfer-function pq\n"));
}
