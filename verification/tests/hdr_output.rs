use niri_hdr::hdr_output::{
    HdrOutputRenderElement, HdrTreatment, HdrWrappedElement, UniformSetting, UniformValue,
};
use niri_hdr::ieee::Binary32;

fn b32(v: f32) -> Binary32 {
    Binary32 { bits: v.to_bits() }
}

fn matrix(rows: [[f32; 3]; 3]) -> [[Binary32; 3]; 3] {
    rows.map(|r| r.map(b32))
}

fn pairs(u: &[UniformSetting]) -> Vec<(&'static str, UniformValue)> {
    u.iter().map(|s| (s.name, s.value)).collect()
}

#[test]
fn conversion_element_installs_conversion_program_and_uniforms() {
    let inner = 42u8;
    let corner = vec![UniformSetting { name: "corner_scale", value: UniformValue::Float(b32(1.0)) }];
    let icc = matrix([[1.0, 2.0, 3.0], [4.0, 5.0, 6.0], [7.0, 8.0, 9.0]]);
    let e = HdrWrappedElement::new(
        &inner,
        "convert",
        "passthrough",
        HdrTreatment::Convert,
        b32(203.0),
        b32(1000.0),
        b32(1.2),
        1,
        2,
        true,
        icc,
        corner,
    );
    assert_eq!(*e.inner(), 42);
    let expected = vec![
        ("u_sdr_brightness_nits", UniformValue::Float(b32(203.0))),
        ("u_max_nits", UniformValue::Float(b32(1000.0))),
        ("u_sdr_color_intensity", UniformValue::Float(b32(1.2))),
        ("u_gamut_mapping_mode", UniformValue::Int(1)),
        ("u_transfer_function", UniformValue::Int(2)),
        ("u_icc_enabled", UniformValue::Int(1)),
        (
            "u_icc_matrix",
            UniformValue::Mat3([1.0, 4.0, 7.0, 2.0, 5.0, 8.0, 3.0, 6.0, 9.0].map(b32)),
        ),
        ("corner_scale", UniformValue::Float(b32(1.0))),
    ];
    assert_eq!(pairs(&e.conversion_uniforms()), expected);
    let (program, uniforms) = e.shader_override();
    assert_eq!(*program, "convert");
    assert_eq!(pairs(&uniforms), expected);
}

#[test]
fn passthrough_element_installs_passthrough_program_without_uniforms() {
    let inner = ();
    let e = HdrWrappedElement::new(
        &inner,
        1u32,
        2u32,
        HdrTreatment::Passthrough,
        b32(203.0),
        b32(1000.0),
        b32(1.0),
        0,
        0,
        false,
        matrix([[1.0, 0.0, 0.0], [0.0, 1.0, 0.0], [0.0, 0.0, 1.0]]),
        Vec::new(),
    );
    let (program, uniforms) = e.shader_override();
    assert_eq!(*program, 2);
    assert!(uniforms.is_empty());
}

#[test]
fn output_element_needs_a_program() {
    assert!(HdrOutputRenderElement::<u8, u32, ()>::from_frame(None, 1, b32(1.0), b32(1.0), b32(1.0), ())
        .is_none());
    let e = HdrOutputRenderElement::from_frame(Some(9u32), 3u8, b32(300.0), b32(800.0), b32(1.5), 0u64)
        .unwrap();
    assert_eq!(*e.inner(), 3);
    assert_eq!(*e.damage(), 0);
    let (program, uniforms) = e.shader_override().unwrap();
    assert_eq!(*program, 9);
    assert_eq!(
        pairs(&uniforms),
        vec![
            ("u_sdr_brightness_nits", UniformValue::Float(b32(300.0))),
            ("u_max_nits", UniformValue::Float(b32(800.0))),
            ("u_sdr_color_intensity", UniformValue::Float(b32(1.5))),
        ]
    );
}

#[test]
fn output_element_without_program_draws_nothing() {
    let e: HdrOutputRenderElement<u8, u32, ()> =
        HdrOutputRenderElement::new(1, None, b32(1.0), b32(1.0), b32(1.0), ());
    assert!(e.shader_override().is_none());
}

#[test]
fn disabled_icc_correction_is_reported_as_off() {
    let inner = ();
    let e = HdrWrappedElement::new(
        &inner,
        1u32,
        2u32,
        HdrTreatment::Convert,
        b32(203.0),
        b32(1000.0),
        b32(1.0),
        0,
        1,
        false,
        matrix([[1.0, 0.0, 0.0], [0.0, 1.0, 0.0], [0.0, 0.0, 1.0]]),
        Vec::new(),
    );
    let u = pairs(&e.conversion_uniforms());
    assert_eq!(u.len(), 7);
    assert_eq!(u[5], ("u_icc_enabled", UniformValue::Int(0)));
    assert_eq!(
        u[6],
        (
            "u_icc_matrix",
            UniformValue::Mat3([1.0, 0.0, 0.0, 0.0, 1.0, 0.0, 0.0, 0.0, 1.0].map(b32))
        )
    );
}
