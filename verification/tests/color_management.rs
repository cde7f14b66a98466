use niri_hdr::color_management::{
    image_description_for_hdr_output, ColorManagementState, ColorPrimaries, ImageDescription,
    TransferFunction,
};
use niri_hdr::ieee::Binary64;

fn nits(v: f64) -> Binary64 {
    Binary64 { bits: v.to_bits() }
}

fn hdr(max: f64) -> ImageDescription {
    image_description_for_hdr_output(nits(max), nits(0.01), nits(max), nits(400.0), true, false, true)
}

#[test]
fn default_description() {
    let d = ImageDescription::default();
    assert_eq!(d.transfer_function, TransferFunction::Srgb);
    assert_eq!(d.primaries, ColorPrimaries::Srgb);
    assert_eq!(f64::from_bits(d.max_luminance.bits), 1000.0);
    assert_eq!(f64::from_bits(d.min_luminance.bits), 0.005);
    assert_eq!(f64::from_bits(d.max_cll.bits), 1000.0);
    assert_eq!(f64::from_bits(d.max_fall.bits), 400.0);
    assert!(d.mastering_display_primaries.is_none());
    assert!(d.mastering_white_point.is_none());
}

#[test]
fn hdr_output_description_prefers_pq_over_hlg() {
    let d = image_description_for_hdr_output(
        nits(800.0),
        nits(0.001),
        nits(700.0),
        nits(400.0),
        true,
        true,
        true,
    );
    assert_eq!(d.transfer_function, TransferFunction::Pq);
    assert_eq!(d.primaries, ColorPrimaries::BT2020);
    assert_eq!(d.max_luminance, nits(800.0));
    assert_eq!(d.min_luminance, nits(0.001));
    assert_eq!(d.max_cll, nits(700.0));
    assert_eq!(d.max_fall, nits(400.0));
    assert!(d.mastering_display_primaries.is_none());

    let hlg = image_description_for_hdr_output(
        nits(1.0),
        nits(0.0),
        nits(1.0),
        nits(1.0),
        false,
        true,
        false,
    );
    assert_eq!(hlg.transfer_function, TransferFunction::Hlg);
    assert_eq!(hlg.primaries, ColorPrimaries::Srgb);
    let sdr = image_description_for_hdr_output(
        nits(1.0),
        nits(0.0),
        nits(1.0),
        nits(1.0),
        false,
        false,
        false,
    );
    assert_eq!(sdr.transfer_function, TransferFunction::Srgb);
}

#[test]
fn new_state_has_no_descriptions() {
    let s: ColorManagementState<u32> = ColorManagementState::new();
    assert!(s.get_output_image_description(1).is_none());
    assert!(s.get_surface_image_description(1).is_none());
}

#[test]
fn output_descriptions_read_back() {
    let mut s: ColorManagementState<u32> = ColorManagementState::new();
    s.set_output_global(7);
    s.set_output_image_description(1, hdr(800.0));
    s.set_output_image_description(2, hdr(600.0));
    assert_eq!(s.get_output_image_description(1).unwrap().max_luminance, nits(800.0));
    assert_eq!(s.get_output_image_description(2).unwrap().max_luminance, nits(600.0));
    s.set_output_image_description(1, hdr(1000.0));
    assert_eq!(s.get_output_image_description(1).unwrap().max_luminance, nits(1000.0));
    // Outputs and surfaces are kept apart.
    assert!(s.get_surface_image_description(1).is_none());
    s.output_removed(1);
    assert!(s.get_output_image_description(1).is_none());
    assert_eq!(s.get_output_image_description(2).unwrap().max_luminance, nits(600.0));
}

#[test]
fn surface_descriptions_read_back_and_remove() {
    let mut s: ColorManagementState<u32> = ColorManagementState::new();
    s.set_surface_image_description(5, hdr(500.0));
    s.set_output_image_description(5, hdr(900.0));
    assert_eq!(s.get_surface_image_description(5).unwrap().max_luminance, nits(500.0));
    s.remove_surface_image_description(5);
    assert!(s.get_surface_image_description(5).is_none());
    assert_eq!(s.get_output_image_description(5).unwrap().max_luminance, nits(900.0));
    // Removing what is not there changes nothing.
    s.remove_surface_image_description(6);
    s.output_removed(6);
    assert!(s.get_output_image_description(5).is_some());
}
