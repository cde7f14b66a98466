use niri_hdr::icc::{
    bt2020_primaries, d50_whitepoint, d65_whitepoint, icc_parse_would_panic, parse_icc_bytes,
    srgb_primaries, tag_signature, ColorSpaceType, IccError, IccVersion, IccXyz, ProfileClass,
    Rational, RenderingIntent,
};

fn put_u32(data: &mut [u8], at: usize, v: u32) {
    data[at..at + 4].copy_from_slice(&v.to_be_bytes());
}

fn put_i32(data: &mut [u8], at: usize, v: i32) {
    data[at..at + 4].copy_from_slice(&v.to_be_bytes());
}

/// A header with the `acsp` signature, a `mntr`/`RGB ` v4 profile.
fn header() -> Vec<u8> {
    let mut d = vec![0u8; 128];
    put_u32(&mut d, 8, 0x04300000);
    d[12..16].copy_from_slice(b"mntr");
    d[16..20].copy_from_slice(b"RGB ");
    d[20..24].copy_from_slice(b"XYZ ");
    d[36..40].copy_from_slice(b"acsp");
    put_u32(&mut d, 64, 1);
    d
}

/// A profile whose tags are the given (signature, body) pairs, laid out after
/// the tag table in order.
fn profile(tags: &[(&[u8; 4], Vec<u8>)]) -> Vec<u8> {
    let mut d = header();
    d.extend_from_slice(&(tags.len() as u32).to_be_bytes());
    let table_start = d.len();
    d.resize(table_start + 12 * tags.len(), 0);
    for (i, (sig, body)) in tags.iter().enumerate() {
        let offset = d.len();
        d.extend_from_slice(body);
        let e = table_start + 12 * i;
        d[e..e + 4].copy_from_slice(&sig[..]);
        put_u32(&mut d, e + 4, offset as u32);
        put_u32(&mut d, e + 8, body.len() as u32);
    }
    d
}

fn xyz_body(x: i32, y: i32, z: i32) -> Vec<u8> {
    let mut b = vec![0u8; 20];
    b[0..4].copy_from_slice(b"XYZ ");
    put_i32(&mut b, 8, x);
    put_i32(&mut b, 12, y);
    put_i32(&mut b, 16, z);
    b
}

fn desc_body(text: &[u8], count: u32) -> Vec<u8> {
    let mut b = vec![0u8; 12];
    b[0..4].copy_from_slice(b"desc");
    put_u32(&mut b, 8, count);
    b.extend_from_slice(text);
    b
}

fn fixed(num: i64) -> Rational {
    Rational { num, den: 65536 }
}

fn xyz(x: i64, y: i64, z: i64) -> IccXyz {
    IccXyz { x: fixed(x), y: fixed(y), z: fixed(z) }
}

fn dec(x: i64, y: i64, z: i64) -> IccXyz {
    IccXyz {
        x: Rational { num: x, den: 10000 },
        y: Rational { num: y, den: 10000 },
        z: Rational { num: z, den: 10000 },
    }
}

#[test]
fn parses_primaries_white_point_and_description() {
    let data = profile(&[
        (b"rXYZ", xyz_body(28564, 14531, 1000)),
        (b"gXYZ", xyz_body(25253, 46981, 6598)),
        (b"bXYZ", xyz_body(9373, 4025, 46633)),
        (b"wtpt", xyz_body(63190, 65536, 54061)),
        (b"desc", desc_body(b"My Display\0\0", 13)),
    ]);
    assert!(!icc_parse_would_panic(&data));
    let p = parse_icc_bytes(&data).unwrap();
    assert!(matches!(p.version, IccVersion::V4));
    assert!(matches!(p.profile_class, ProfileClass::Monitor));
    assert!(matches!(p.color_space, ColorSpaceType::Rgb));
    assert_eq!(p.rendering_intent, RenderingIntent::RelativeColorimetric);
    assert_eq!(p.primaries[0], xyz(28564, 14531, 1000));
    assert_eq!(p.primaries[1], xyz(25253, 46981, 6598));
    assert_eq!(p.primaries[2], xyz(9373, 4025, 46633));
    assert_eq!(p.white_point, xyz(63190, 65536, 54061));
    assert_eq!(p.description, "My Display");
}

#[test]
fn negative_fixed_point_values_keep_their_sign() {
    let data = profile(&[(b"rXYZ", xyz_body(-65536, -1, i32::MIN))]);
    let p = parse_icc_bytes(&data).unwrap();
    assert_eq!(p.primaries[0], xyz(-65536, -1, i32::MIN as i64));
    assert_eq!(p.white_point, xyz(0, 0, 0));
}

#[test]
fn missing_primaries_fall_back_to_srgb_and_d65() {
    let data = profile(&[(b"wtpt", xyz_body(63190, 65536, 54061))]);
    let p = parse_icc_bytes(&data).unwrap();
    assert_eq!(p.primaries, srgb_primaries());
    assert_eq!(p.white_point, d65_whitepoint());
    assert_eq!(p.description, "");
}

#[test]
fn red_primary_with_zero_x_falls_back_to_srgb() {
    let data = profile(&[
        (b"rXYZ", xyz_body(0, 14531, 1000)),
        (b"gXYZ", xyz_body(25253, 46981, 6598)),
    ]);
    let p = parse_icc_bytes(&data).unwrap();
    assert_eq!(p.primaries, srgb_primaries());
    assert_eq!(p.white_point, d65_whitepoint());
}

#[test]
fn later_tags_overwrite_earlier_ones() {
    let data = profile(&[
        (b"rXYZ", xyz_body(1, 2, 3)),
        (b"rXYZ", xyz_body(4, 5, 6)),
        (b"desc", desc_body(b"first", 5)),
        (b"desc", desc_body(b"second", 6)),
    ]);
    let p = parse_icc_bytes(&data).unwrap();
    assert_eq!(p.primaries[0], xyz(4, 5, 6));
    assert_eq!(p.description, "second");
}

#[test]
fn short_xyz_tag_keeps_the_previous_value() {
    let mut short = xyz_body(9, 9, 9);
    short.truncate(19);
    let data = profile(&[(b"rXYZ", xyz_body(1, 2, 3)), (b"rXYZ", short)]);
    let p = parse_icc_bytes(&data).unwrap();
    assert_eq!(p.primaries[0], xyz(1, 2, 3));
}

#[test]
fn tag_past_the_end_is_ignored() {
    let mut data = profile(&[(b"rXYZ", xyz_body(1, 2, 3)), (b"gXYZ", xyz_body(7, 8, 9))]);
    // Point the green tag one byte past the end of the data.
    let len = data.len() as u32;
    put_u32(&mut data, 132 + 12 + 4, len - 19);
    let p = parse_icc_bytes(&data).unwrap();
    assert_eq!(p.primaries[0], xyz(1, 2, 3));
    assert_eq!(p.primaries[1], xyz(0, 0, 0));
}

#[test]
fn description_count_is_cut_at_the_tag_end() {
    let data = profile(&[(b"rXYZ", xyz_body(1, 2, 3)), (b"desc", desc_body(b"Panel\0", 1000))]);
    let p = parse_icc_bytes(&data).unwrap();
    assert_eq!(p.description, "Panel");
}

#[test]
fn description_count_shorter_than_the_text() {
    let data = profile(&[(b"rXYZ", xyz_body(1, 2, 3)), (b"desc", desc_body(b"Panel", 3))]);
    let p = parse_icc_bytes(&data).unwrap();
    assert_eq!(p.description, "Pan");
}

#[test]
fn description_of_another_type_is_ignored() {
    let mut body = desc_body(b"Unicode", 7);
    body[0..4].copy_from_slice(b"mluc");
    let data = profile(&[(b"rXYZ", xyz_body(1, 2, 3)), (b"desc", body)]);
    let p = parse_icc_bytes(&data).unwrap();
    assert_eq!(p.description, "");
}

#[test]
fn description_with_invalid_utf8_is_replaced() {
    let data = profile(&[(b"rXYZ", xyz_body(1, 2, 3)), (b"desc", desc_body(b"A\xffB\0", 4))]);
    let p = parse_icc_bytes(&data).unwrap();
    assert_eq!(p.description, "A\u{FFFD}B");
}

#[test]
fn version_class_space_and_intent_variants() {
    let mut data = profile(&[(b"rXYZ", xyz_body(1, 2, 3))]);
    put_u32(&mut data, 8, 0x02400000);
    data[12..16].copy_from_slice(b"scnr");
    data[16..20].copy_from_slice(b"CMYK");
    put_u32(&mut data, 64, 7);
    let p = parse_icc_bytes(&data).unwrap();
    assert!(matches!(p.version, IccVersion::V2));
    assert!(matches!(p.profile_class, ProfileClass::Other(s) if &s == b"scnr"));
    assert!(matches!(p.color_space, ColorSpaceType::Other(s) if &s == b"CMYK"));
    assert_eq!(p.rendering_intent, RenderingIntent::Unknown);

    put_u32(&mut data, 8, 0x02200000);
    assert_eq!(parse_icc_bytes(&data).unwrap().version, IccVersion::V2);
    put_u32(&mut data, 8, 0x04000000);
    assert_eq!(parse_icc_bytes(&data).unwrap().version, IccVersion::V4);
    put_u32(&mut data, 8, 0x05000000);
    assert_eq!(parse_icc_bytes(&data).unwrap().version, IccVersion::Other(0x05000000));
    for (raw, intent) in [
        (0, RenderingIntent::Perceptual),
        (1, RenderingIntent::RelativeColorimetric),
        (2, RenderingIntent::Saturation),
        (3, RenderingIntent::AbsoluteColorimetric),
    ] {
        put_u32(&mut data, 64, raw);
        assert_eq!(parse_icc_bytes(&data).unwrap().rendering_intent, intent);
    }
}

#[test]
fn too_small_profile_is_refused() {
    let data = vec![0u8; 100];
    assert!(!icc_parse_would_panic(&data));
    assert!(matches!(parse_icc_bytes(&data), Err(IccError::TooSmall(100))));
}

#[test]
fn wrong_signature_is_refused() {
    let mut data = profile(&[]);
    data[36..40].copy_from_slice(b"abcd");
    assert!(matches!(parse_icc_bytes(&data), Err(IccError::InvalidSignature(s)) if &s == b"abcd"));
}

#[test]
fn tag_table_beyond_the_data_is_refused() {
    let mut data = profile(&[(b"rXYZ", xyz_body(1, 2, 3))]);
    put_u32(&mut data, 128, 1000);
    assert!(!icc_parse_would_panic(&data));
    assert!(matches!(parse_icc_bytes(&data), Err(IccError::TagTableOutOfBounds)));
}

#[test]
fn inputs_that_would_index_out_of_bounds_are_detected() {
    let mut truncated = header();
    truncated.extend_from_slice(&[0, 0]);
    assert!(icc_parse_would_panic(&truncated));

    let mut tiny = xyz_body(1, 2, 3);
    tiny.truncate(4);
    assert!(icc_parse_would_panic(&profile(&[(b"wtpt", tiny.clone())])));
    // A short tag of another signature is harmless.
    assert!(!icc_parse_would_panic(&profile(&[(b"desc", tiny)])));
}

#[test]
fn standard_constants() {
    assert_eq!(
        srgb_primaries(),
        [dec(6400, 3300, 300), dec(3000, 6000, 1000), dec(1500, 600, 7900)]
    );
    assert_eq!(
        bt2020_primaries(),
        [dec(7080, 2920, 0), dec(1700, 7970, 330), dec(1310, 460, 8230)]
    );
    assert_eq!(d65_whitepoint(), dec(3127, 3290, 3583));
    assert_eq!(d50_whitepoint(), dec(3457, 3585, 2958));
    assert_eq!(6400.0f64 / 10000.0, 0.64);
}

#[test]
fn tag_signature_takes_the_first_four_bytes() {
    assert_eq!(tag_signature(b"rXYZextra"), *b"rXYZ");
}
