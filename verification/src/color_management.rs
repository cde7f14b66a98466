//! Colour descriptions of outputs and surfaces (wp-color-management-v1 state).

use std::collections::HashMap;

use vstd::prelude::*;

use crate::ieee::Binary64;

verus! {

broadcast use vstd::std_specs::hash::group_hash_axioms;

/// Supported transfer functions (trafos).
#[derive(Debug, Clone, Copy, PartialEq, Eq, Structural)]
pub enum TransferFunction {
    Srgb,
    SrgbLinear,
    Pq,
    Hlg,
    Gamma22,
    Gamma28,
    ExtSrgb,
    Linear,
}

/// Supported colour primaries.
#[derive(Debug, Clone, Copy, PartialEq, Eq, Structural)]
pub enum ColorPrimaries {
    Srgb,
    BT2020,
    DisplayP3,
    AdobeRgb,
    ProPhotoRgb,
    Xyz,
    DciP3,
}

/// An image description representing a colour space. Luminances are in cd/m²;
/// mastering primaries and white point are CIE 1931 xy chromaticities.
#[derive(Debug, Clone)]
pub struct ImageDescription {
    pub transfer_function: TransferFunction,
    pub primaries: ColorPrimaries,
    pub max_luminance: Binary64,
    pub min_luminance: Binary64,
    pub max_cll: Binary64,
    pub max_fall: Binary64,
    pub mastering_display_primaries: Option<[Binary64; 8]>,
    pub mastering_white_point: Option<[Binary64; 2]>,
}

/// The default description: sRGB, with 1000 cd/m² peak, 0.005 cd/m² black,
/// 1000 cd/m² MaxCLL and 400 cd/m² MaxFALL.
pub open spec fn spec_default_description() -> ImageDescription {
    ImageDescription {
        transfer_function: TransferFunction::Srgb,
        primaries: ColorPrimaries::Srgb,
        max_luminance: Binary64 { bits: 0x408f400000000000 },
        min_luminance: Binary64 { bits: 0x3f747ae147ae147b },
        max_cll: Binary64 { bits: 0x408f400000000000 },
        max_fall: Binary64 { bits: 0x4079000000000000 },
        mastering_display_primaries: None,
        mastering_white_point: None,
    }
}

impl Default for ImageDescription {
    fn default() -> (r: Self)
        ensures
            r == spec_default_description(),
    {
        ImageDescription {
            transfer_function: TransferFunction::Srgb,
            primaries: ColorPrimaries::Srgb,
            max_luminance: Binary64 { bits: 0x408f400000000000 },
            min_luminance: Binary64 { bits: 0x3f747ae147ae147b },
            max_cll: Binary64 { bits: 0x408f400000000000 },
            max_fall: Binary64 { bits: 0x4079000000000000 },
            mastering_display_primaries: None,
            mastering_white_point: None,
        }
    }
}

/// The transfer function that an HDR output's flags select: PQ before HLG,
/// sRGB when neither is set.
pub open spec fn spec_hdr_transfer_function(is_pq: bool, is_hlg: bool) -> TransferFunction {
    if is_pq {
        TransferFunction::Pq
    } else if is_hlg {
        TransferFunction::Hlg
    } else {
        TransferFunction::Srgb
    }
}

/// The PQ flag alone selects PQ, whatever the HLG flag; HLG is chosen only
/// without PQ; with neither flag the output stays sRGB. The choice depends on
/// the two flags alone, and PQ or HLG is chosen exactly when one of them is set.
pub proof fn law_hdr_transfer_function(is_pq: bool, is_hlg: bool)
    ensures
        is_pq ==> spec_hdr_transfer_function(is_pq, is_hlg) == TransferFunction::Pq,
        !is_pq && is_hlg ==> spec_hdr_transfer_function(is_pq, is_hlg) == TransferFunction::Hlg,
        !is_pq && !is_hlg ==> spec_hdr_transfer_function(is_pq, is_hlg)
            == TransferFunction::Srgb,
        (spec_hdr_transfer_function(is_pq, is_hlg) == TransferFunction::Srgb) <==> (!is_pq
            && !is_hlg),
{
}

/// Helper to produce an image description for an HDR output.
pub fn image_description_for_hdr_output(
    max_luminance: Binary64,
    min_luminance: Binary64,
    max_cll: Binary64,
    max_fall: Binary64,
    is_pq: bool,
    is_hlg: bool,
    is_bt2020: bool,
) -> (r: ImageDescription)
    ensures
        r.transfer_function == spec_hdr_transfer_function(is_pq, is_hlg),
        is_pq ==> r.transfer_function == TransferFunction::Pq,
        !is_pq && is_hlg ==> r.transfer_function == TransferFunction::Hlg,
        !is_pq && !is_hlg ==> r.transfer_function == TransferFunction::Srgb,
        r.primaries == (if is_bt2020 {
            ColorPrimaries::BT2020
        } else {
            ColorPrimaries::Srgb
        }),
        r.max_luminance == max_luminance,
        r.min_luminance == min_luminance,
        r.max_cll == max_cll,
        r.max_fall == max_fall,
        r.mastering_display_primaries is None,
        r.mastering_white_point is None,
{
    let transfer_function = if is_pq {
        TransferFunction::Pq
    } else if is_hlg {
        TransferFunction::Hlg
    } else {
        TransferFunction::Srgb
    };
    ImageDescription {
        transfer_function,
        primaries: if is_bt2020 {
            ColorPrimaries::BT2020
        } else {
            ColorPrimaries::Srgb
        },
        max_luminance,
        min_luminance,
        max_cll,
        max_fall,
        mastering_display_primaries: None,
        mastering_white_point: None,
    }
}


/// The colour-management state of the compositor: the manager global, and
/// the image descriptions of outputs and of surfaces. Outputs and surfaces are
/// named by the integer handles that the compositor gives them; `G` is the
/// handle of the protocol global.
pub struct ColorManagementState<G> {
    /// Global ID for the wp_color_manager_v1 global (once created).
    global: Option<G>,
    /// Per-output colour descriptions derived from EDID + config.
    output_image_descriptions: HashMap<u64, ImageDescription>,
    /// Per-surface image descriptions set by clients.
    surface_image_descriptions: HashMap<u64, ImageDescription>,
}

/// What a `get_*_image_description` call returns: the description stored for
/// `key`, if any.
pub open spec fn lookup(m: Map<u64, ImageDescription>, key: u64) -> Option<ImageDescription> {
    if m.contains_key(key) {
        Some(m[key])
    } else {
        None
    }
}

impl<G> ColorManagementState<G> {
    /// The manager global, once set.
    pub closed spec fn global(&self) -> Option<G> {
        self.global
    }

    /// The description of each output that has one.
    pub closed spec fn outputs(&self) -> Map<u64, ImageDescription> {
        self.output_image_descriptions@
    }

    /// The description of each surface that has one.
    pub closed spec fn surfaces(&self) -> Map<u64, ImageDescription> {
        self.surface_image_descriptions@
    }

    pub fn new() -> (s: Self)
        ensures
            s.global() is None,
            s.outputs() == Map::<u64, ImageDescription>::empty(),
            s.surfaces() == Map::<u64, ImageDescription>::empty(),
    {
        Self {
            global: None,
            output_image_descriptions: HashMap::new(),
            surface_image_descriptions: HashMap::new(),
        }
    }

    pub fn set_output_global(&mut self, global: G)
        ensures
            final(self).global() == Some(global),
            final(self).outputs() == old(self).outputs(),
            final(self).surfaces() == old(self).surfaces(),
    {
        self.global = Some(global);
    }

    pub fn set_output_image_description(&mut self, output: u64, desc: ImageDescription)
        ensures
            final(self).outputs() == old(self).outputs().insert(output, desc),
            final(self).surfaces() == old(self).surfaces(),
            final(self).global() == old(self).global(),
    {
        self.output_image_descriptions.insert(output, desc);
    }

    pub fn get_output_image_description(&self, output: u64) -> (r: Option<&ImageDescription>)
        ensures
            r matches Some(v) ==> lookup(self.outputs(), output) == Some(*v),
            r is None ==> lookup(self.outputs(), output) is None,
    {
        self.output_image_descriptions.get(&output)
    }

    pub fn set_surface_image_description(&mut self, surface: u64, desc: ImageDescription)
        ensures
            final(self).surfaces() == old(self).surfaces().insert(surface, desc),
            final(self).outputs() == old(self).outputs(),
            final(self).global() == old(self).global(),
    {
        self.surface_image_descriptions.insert(surface, desc);
    }

    pub fn get_surface_image_description(&self, surface: u64) -> (r: Option<&ImageDescription>)
        ensures
            r matches Some(v) ==> lookup(self.surfaces(), surface) == Some(*v),
            r is None ==> lookup(self.surfaces(), surface) is None,
    {
        self.surface_image_descriptions.get(&surface)
    }

    pub fn remove_surface_image_description(&mut self, surface: u64)
        ensures
            final(self).surfaces() == old(self).surfaces().remove(surface),
            final(self).outputs() == old(self).outputs(),
            final(self).global() == old(self).global(),
    {
        self.surface_image_descriptions.remove(&surface);
    }

    pub fn output_removed(&mut self, output: u64)
        ensures
            final(self).outputs() == old(self).outputs().remove(output),
            final(self).surfaces() == old(self).surfaces(),
            final(self).global() == old(self).global(),
    {
        self.output_image_descriptions.remove(&output);
    }
}


/// A new state has no description for any output or surface.
pub proof fn law_new_state_is_empty<G>(s: ColorManagementState<G>, output: u64, surface: u64)
    requires
        s.outputs() == Map::<u64, ImageDescription>::empty(),
        s.surfaces() == Map::<u64, ImageDescription>::empty(),
    ensures
        lookup(s.outputs(), output) is None,
        lookup(s.surfaces(), surface) is None,
{
}

/// After an output's description is set, reading it gives that description;
/// every other output reads as before.
pub proof fn law_output_set_then_get<G>(
    before: ColorManagementState<G>,
    after: ColorManagementState<G>,
    output: u64,
    desc: ImageDescription,
    other: u64,
)
    requires
        after.outputs() == before.outputs().insert(output, desc),
    ensures
        lookup(after.outputs(), output) == Some(desc),
        other != output ==> lookup(after.outputs(), other) == lookup(before.outputs(), other),
{
}

/// After a surface's description is set, reading it gives that description;
/// every other surface reads as before.
pub proof fn law_surface_set_then_get<G>(
    before: ColorManagementState<G>,
    after: ColorManagementState<G>,
    surface: u64,
    desc: ImageDescription,
    other: u64,
)
    requires
        after.surfaces() == before.surfaces().insert(surface, desc),
    ensures
        lookup(after.surfaces(), surface) == Some(desc),
        other != surface ==> lookup(after.surfaces(), other) == lookup(before.surfaces(), other),
{
}

/// After a surface's description is removed, the surface has none; every
/// other surface reads as before.
pub proof fn law_surface_remove_then_get<G>(
    before: ColorManagementState<G>,
    after: ColorManagementState<G>,
    surface: u64,
    other: u64,
)
    requires
        after.surfaces() == before.surfaces().remove(surface),
    ensures
        lookup(after.surfaces(), surface) is None,
        other != surface ==> lookup(after.surfaces(), other) == lookup(before.surfaces(), other),
{
}

/// After an output is removed, it has no description; every other output
/// reads as before.
pub proof fn law_output_removed_then_get<G>(
    before: ColorManagementState<G>,
    after: ColorManagementState<G>,
    output: u64,
    other: u64,
)
    requires
        after.outputs() == before.outputs().remove(output),
    ensures
        lookup(after.outputs(), output) is None,
        other != output ==> lookup(after.outputs(), other) == lookup(before.outputs(), other),
{
}

/// Setting a description and then removing it leaves the same descriptions as
/// removing it straight away: nothing of the set description remains.
pub proof fn law_set_then_remove_forgets(
    m: Map<u64, ImageDescription>,
    key: u64,
    desc: ImageDescription,
)
    ensures
        m.insert(key, desc).remove(key) == m.remove(key),
{
    assert(m.insert(key, desc).remove(key) =~= m.remove(key));
}

/// Setting the same key twice keeps only the second description.
pub proof fn law_last_set_wins(
    m: Map<u64, ImageDescription>,
    key: u64,
    first: ImageDescription,
    second: ImageDescription,
)
    ensures
        m.insert(key, first).insert(key, second) == m.insert(key, second),
{
    assert(m.insert(key, first).insert(key, second) =~= m.insert(key, second));
}


/// Implemented by the compositor state that owns the colour-management state.
pub trait ColorManagementHandler<G> {
    fn color_management_state(&mut self) -> &mut ColorManagementState<G>;
}

} // verus!
