//! Shader set-up of the HDR render elements.
//!
//! An HDR element draws its inner element with the default texture program
//! overridden: the SDR→HDR conversion program with its parameters, or the
//! passthrough program for content that is already HDR. The conversion
//! program also applies the display's ICC correction matrix when that is
//! enabled, and clips rounded corners; an element that is not clipped passes
//! the program's no-op corner uniforms. This module decides which program and
//! which uniforms an element installs; drawing is done by the renderer.

use vstd::prelude::*;

use crate::ieee::Binary32;

verus! {

/// Which HDR treatment to apply to an element.
#[derive(Debug, Clone, Copy, PartialEq, Eq, Structural)]
pub enum HdrTreatment {
    /// Apply SDR->HDR conversion (sRGB to PQ, gamut expansion, etc.)
    Convert,
    /// Pass content through as-is (content is already HDR-native)
    Passthrough,
}

/// The value given to a shader uniform.
#[derive(Debug, Clone, Copy, PartialEq)]
pub enum UniformValue {
    Float(Binary32),
    Int(i32),
    /// A 3×3 matrix, its nine entries in column-major order.
    Mat3([Binary32; 9]),
}

/// A uniform value as contracts see it.
pub enum UniformValueView {
    Float(Binary32),
    Int(i32),
    Mat3(Seq<Binary32>),
}

pub open spec fn value_view(v: UniformValue) -> UniformValueView {
    match v {
        UniformValue::Float(f) => UniformValueView::Float(f),
        UniformValue::Int(i) => UniformValueView::Int(i),
        UniformValue::Mat3(m) => UniformValueView::Mat3(m@),
    }
}

/// A uniform that a program override sets.
#[derive(Debug, Clone, Copy)]
pub struct UniformSetting {
    pub name: &'static str,
    pub value: UniformValue,
}

/// A uniform setting as a (name, value) pair.
pub open spec fn setting_view(u: UniformSetting) -> (Seq<char>, UniformValueView) {
    (u.name@, value_view(u.value))
}

pub open spec fn settings_view(v: Seq<UniformSetting>) -> Seq<(Seq<char>, UniformValueView)> {
    v.map_values(|u: UniformSetting| setting_view(u))
}

proof fn lemma_settings_view_concat(a: Seq<UniformSetting>, b: Seq<UniformSetting>)
    ensures
        settings_view(a + b) == settings_view(a) + settings_view(b),
{
    assert(settings_view(a + b) =~= settings_view(a) + settings_view(b));
}

/// Append copies of `extra` to `r`.
fn append_settings(r: &mut Vec<UniformSetting>, extra: &Vec<UniformSetting>)
    ensures
        final(r)@ == old(r)@ + extra@,
{
    let ghost start = r@;
    let mut i: usize = 0;
    while i < extra.len()
        invariant
            i <= extra@.len(),
            r@ == start + extra@.subrange(0, i as int),
        decreases extra@.len() - i,
    {
        r.push(extra[i]);
        i = i + 1;
        assert(r@ =~= start + extra@.subrange(0, i as int));
    }
    assert(extra@.subrange(0, i as int) =~= extra@);
}

/// The entries of the row-major matrix `m` in column-major order.
pub open spec fn column_major(m: [[Binary32; 3]; 3]) -> Seq<Binary32> {
    seq![
        m@[0]@[0], m@[1]@[0], m@[2]@[0],
        m@[0]@[1], m@[1]@[1], m@[2]@[1],
        m@[0]@[2], m@[1]@[2], m@[2]@[2],
    ]
}

/// The ICC uniforms of the conversion program: whether the correction is
/// enabled (1 or 0), and the correction matrix, column-major.
pub open spec fn spec_icc_uniforms(enabled: bool, m: [[Binary32; 3]; 3]) -> Seq<
    (Seq<char>, UniformValueView),
> {
    seq![
        ("u_icc_enabled"@, UniformValueView::Int(if enabled { 1 } else { 0 })),
        ("u_icc_matrix"@, UniformValueView::Mat3(column_major(m))),
    ]
}

/// The uniforms of the SDR→HDR conversion program.
pub open spec fn spec_conversion_uniforms(
    sdr_brightness_nits: Binary32,
    max_nits: Binary32,
    sdr_color_intensity: Binary32,
    gamut_mapping_mode: i32,
    transfer_function: i32,
) -> Seq<(Seq<char>, UniformValueView)> {
    seq![
        ("u_sdr_brightness_nits"@, UniformValueView::Float(sdr_brightness_nits)),
        ("u_max_nits"@, UniformValueView::Float(max_nits)),
        ("u_sdr_color_intensity"@, UniformValueView::Float(sdr_color_intensity)),
        ("u_gamut_mapping_mode"@, UniformValueView::Int(gamut_mapping_mode)),
        ("u_transfer_function"@, UniformValueView::Int(transfer_function)),
    ]
}

/// The uniforms of the offscreen HDR output program.
pub open spec fn spec_output_uniforms(
    sdr_brightness_nits: Binary32,
    max_nits: Binary32,
    sdr_color_intensity: Binary32,
) -> Seq<(Seq<char>, UniformValueView)> {
    seq![
        ("u_sdr_brightness_nits"@, UniformValueView::Float(sdr_brightness_nits)),
        ("u_max_nits"@, UniformValueView::Float(max_nits)),
        ("u_sdr_color_intensity"@, UniformValueView::Float(sdr_color_intensity)),
    ]
}

/// The three brightness uniforms that both programs take.
fn brightness_uniforms(
    sdr_brightness_nits: Binary32,
    max_nits: Binary32,
    sdr_color_intensity: Binary32,
) -> (r: Vec<UniformSetting>)
    ensures
        settings_view(r@) == spec_output_uniforms(sdr_brightness_nits, max_nits, sdr_color_intensity),
{
    let mut r = Vec::new();
    r.push(
        UniformSetting {
            name: "u_sdr_brightness_nits",
            value: UniformValue::Float(sdr_brightness_nits),
        },
    );
    r.push(UniformSetting { name: "u_max_nits", value: UniformValue::Float(max_nits) });
    r.push(
        UniformSetting {
            name: "u_sdr_color_intensity",
            value: UniformValue::Float(sdr_color_intensity),
        },
    );
    assert(settings_view(r@) =~= spec_output_uniforms(
        sdr_brightness_nits,
        max_nits,
        sdr_color_intensity,
    ));
    r
}

/// Wraps an output render element to apply the HDR shader when drawn: the
/// tone mapping is applied per element, directly in the compositor's single
/// render pass. `E` is the wrapped element, `P` a texture program.
pub struct HdrWrappedElement<'a, E, P> {
    inner: &'a E,
    conversion_program: P,
    passthrough_program: P,
    treatment: HdrTreatment,
    sdr_brightness_nits: Binary32,
    max_nits: Binary32,
    sdr_color_intensity: Binary32,
    gamut_mapping_mode: i32,
    transfer_function: i32,
    /// Whether the display's ICC correction replaces the BT.2020 matrix.
    icc_enabled: bool,
    /// The ICC correction matrix, row-major (`output[i] = sum(m[i][j] * input[j])`).
    icc_matrix: [[Binary32; 3]; 3],
    /// The conversion program's no-op corner-clipping uniforms, passed for an
    /// element that is not clipped.
    corner_uniforms: Vec<UniformSetting>,
}

impl<'a, E, P> HdrWrappedElement<'a, E, P> {
    pub closed spec fn spec_inner(&self) -> &'a E {
        self.inner
    }

    pub closed spec fn spec_treatment(&self) -> HdrTreatment {
        self.treatment
    }

    pub closed spec fn spec_conversion_program(&self) -> P {
        self.conversion_program
    }

    pub closed spec fn spec_passthrough_program(&self) -> P {
        self.passthrough_program
    }

    /// The conversion parameters: SDR brightness, peak brightness, SDR colour
    /// intensity, gamut-mapping mode and transfer function.
    pub closed spec fn spec_parameters(&self) -> (Binary32, Binary32, Binary32, i32, i32) {
        (
            self.sdr_brightness_nits,
            self.max_nits,
            self.sdr_color_intensity,
            self.gamut_mapping_mode,
            self.transfer_function,
        )
    }

    /// Whether the ICC correction is enabled, and its row-major matrix.
    pub closed spec fn spec_icc(&self) -> (bool, [[Binary32; 3]; 3]) {
        (self.icc_enabled, self.icc_matrix)
    }

    /// The no-op corner-clipping uniforms.
    pub closed spec fn spec_corner_uniforms(&self) -> Seq<UniformSetting> {
        self.corner_uniforms@
    }

    /// Each conversion uniform carries the parameter of its name: the five
    /// conversion parameters as the element was built with them, the ICC
    /// switch as 1 or 0, the ICC matrix with entry `(i, j)` at `3 * j + i`,
    /// then the corner uniforms with their names and values.
    pub proof fn law_conversion_uniforms_carry_parameters(&self, v: Seq<UniformSetting>)
        requires
            settings_view(v) == self.spec_uniforms(),
        ensures
            v.len() == 7 + self.spec_corner_uniforms().len(),
            v[0].name@ == "u_sdr_brightness_nits"@,
            v[0].value == UniformValue::Float(self.spec_parameters().0),
            v[1].name@ == "u_max_nits"@,
            v[1].value == UniformValue::Float(self.spec_parameters().1),
            v[2].name@ == "u_sdr_color_intensity"@,
            v[2].value == UniformValue::Float(self.spec_parameters().2),
            v[3].name@ == "u_gamut_mapping_mode"@,
            v[3].value == UniformValue::Int(self.spec_parameters().3),
            v[4].name@ == "u_transfer_function"@,
            v[4].value == UniformValue::Int(self.spec_parameters().4),
            v[5].name@ == "u_icc_enabled"@,
            v[5].value == UniformValue::Int(if self.spec_icc().0 { 1 } else { 0 }),
            v[6].name@ == "u_icc_matrix"@,
            v[6].value matches UniformValue::Mat3(m) && forall|i: int, j: int|
                0 <= i < 3 && 0 <= j < 3 ==> m@[3 * j + i] == self.spec_icc().1@[i]@[j],
            settings_view(v.subrange(7, v.len() as int)) == settings_view(
                self.spec_corner_uniforms(),
            ),
    {
        let u = self.spec_uniforms();
        assert(settings_view(v).len() == v.len());
        assert(u.len() == 7 + self.corner_uniforms@.len());
        assert forall|i: int| 0 <= i < v.len() implies settings_view(v)[i] == setting_view(
            #[trigger] v[i],
        ) by {}
        assert(setting_view(v[6]) == u[6]);
        assert(settings_view(v.subrange(7, v.len() as int)) =~= settings_view(
            self.corner_uniforms@,
        )) by {
            assert forall|i: int| 0 <= i < self.corner_uniforms@.len() implies settings_view(
                v.subrange(7, v.len() as int),
            )[i] == settings_view(self.corner_uniforms@)[i] by {
                assert(setting_view(v[7 + i]) == u[7 + i]);
            }
        }
    }

    /// The uniforms that the conversion program is given: the five conversion
    /// parameters, the two ICC uniforms, then the corner uniforms.
    pub closed spec fn spec_uniforms(&self) -> Seq<(Seq<char>, UniformValueView)> {
        spec_conversion_uniforms(
            self.sdr_brightness_nits,
            self.max_nits,
            self.sdr_color_intensity,
            self.gamut_mapping_mode,
            self.transfer_function,
        ) + spec_icc_uniforms(self.icc_enabled, self.icc_matrix) + settings_view(
            self.corner_uniforms@,
        )
    }

    pub fn new(
        inner: &'a E,
        conversion_program: P,
        passthrough_program: P,
        treatment: HdrTreatment,
        sdr_brightness_nits: Binary32,
        max_nits: Binary32,
        sdr_color_intensity: Binary32,
        gamut_mapping_mode: i32,
        transfer_function: i32,
        icc_enabled: bool,
        icc_matrix: [[Binary32; 3]; 3],
        corner_uniforms: Vec<UniformSetting>,
    ) -> (r: Self)
        ensures
            r.spec_inner() == inner,
            r.spec_conversion_program() == conversion_program,
            r.spec_passthrough_program() == passthrough_program,
            r.spec_treatment() == treatment,
            r.spec_parameters() == (
                sdr_brightness_nits,
                max_nits,
                sdr_color_intensity,
                gamut_mapping_mode,
                transfer_function,
            ),
            r.spec_icc() == (icc_enabled, icc_matrix),
            r.spec_corner_uniforms() == corner_uniforms@,
            r.spec_uniforms() == spec_conversion_uniforms(
                sdr_brightness_nits,
                max_nits,
                sdr_color_intensity,
                gamut_mapping_mode,
                transfer_function,
            ) + spec_icc_uniforms(icc_enabled, icc_matrix) + settings_view(corner_uniforms@),
    {
        Self {
            inner,
            conversion_program,
            passthrough_program,
            treatment,
            sdr_brightness_nits,
            max_nits,
            sdr_color_intensity,
            gamut_mapping_mode,
            transfer_function,
            icc_enabled,
            icc_matrix,
            corner_uniforms,
        }
    }

    /// The wrapped element.
    pub fn inner(&self) -> (r: &'a E)
        ensures
            r == self.spec_inner(),
    {
        self.inner
    }

    /// The uniforms of the SDR→HDR conversion program.
    pub fn conversion_uniforms(&self) -> (r: Vec<UniformSetting>)
        ensures
            settings_view(r@) == self.spec_uniforms(),
            r@.len() == 7 + self.spec_corner_uniforms().len(),
            r@[0].name@ == "u_sdr_brightness_nits"@,
            r@[0].value == UniformValue::Float(self.spec_parameters().0),
            r@[1].name@ == "u_max_nits"@,
            r@[1].value == UniformValue::Float(self.spec_parameters().1),
            r@[2].name@ == "u_sdr_color_intensity"@,
            r@[2].value == UniformValue::Float(self.spec_parameters().2),
            r@[3].name@ == "u_gamut_mapping_mode"@,
            r@[3].value == UniformValue::Int(self.spec_parameters().3),
            r@[4].name@ == "u_transfer_function"@,
            r@[4].value == UniformValue::Int(self.spec_parameters().4),
            r@[5].name@ == "u_icc_enabled"@,
            r@[5].value == UniformValue::Int(if self.spec_icc().0 { 1 } else { 0 }),
            r@[6].name@ == "u_icc_matrix"@,
    {
        let mut r = brightness_uniforms(
            self.sdr_brightness_nits,
            self.max_nits,
            self.sdr_color_intensity,
        );
        let m = self.icc_matrix;
        let columns = [
            m[0][0],
            m[1][0],
            m[2][0],
            m[0][1],
            m[1][1],
            m[2][1],
            m[0][2],
            m[1][2],
            m[2][2],
        ];
        let enabled: i32 = if self.icc_enabled {
            1
        } else {
            0
        };
        let mut rest = Vec::new();
        rest.push(
            UniformSetting {
                name: "u_gamut_mapping_mode",
                value: UniformValue::Int(self.gamut_mapping_mode),
            },
        );
        rest.push(
            UniformSetting {
                name: "u_transfer_function",
                value: UniformValue::Int(self.transfer_function),
            },
        );
        rest.push(UniformSetting { name: "u_icc_enabled", value: UniformValue::Int(enabled) });
        rest.push(UniformSetting { name: "u_icc_matrix", value: UniformValue::Mat3(columns) });
        let ghost first = r@;
        append_settings(&mut r, &rest);
        let ghost second = r@;
        append_settings(&mut r, &self.corner_uniforms);
        proof {
            assert(columns@ =~= column_major(m));
            assert(settings_view(rest@) =~= seq![
                ("u_gamut_mapping_mode"@, UniformValueView::Int(self.gamut_mapping_mode)),
                ("u_transfer_function"@, UniformValueView::Int(self.transfer_function)),
            ] + spec_icc_uniforms(self.icc_enabled, m));
            lemma_settings_view_concat(first, rest@);
            lemma_settings_view_concat(second, self.corner_uniforms@);
            assert(spec_conversion_uniforms(
                self.sdr_brightness_nits,
                self.max_nits,
                self.sdr_color_intensity,
                self.gamut_mapping_mode,
                self.transfer_function,
            ) =~= spec_output_uniforms(self.sdr_brightness_nits, self.max_nits, self.sdr_color_intensity)
                + seq![
                ("u_gamut_mapping_mode"@, UniformValueView::Int(self.gamut_mapping_mode)),
                ("u_transfer_function"@, UniformValueView::Int(self.transfer_function)),
            ]);
            assert(settings_view(r@) =~= self.spec_uniforms());
            self.law_conversion_uniforms_carry_parameters(r@);
        }
        r
    }

    /// The program override to install before drawing the inner element: the
    /// conversion program with its uniforms, or the passthrough program with
    /// none.
    pub fn shader_override(&self) -> (r: (&P, Vec<UniformSetting>))
        ensures
            self.spec_treatment() == HdrTreatment::Convert ==> {
                &&& *r.0 == self.spec_conversion_program()
                &&& settings_view(r.1@) == self.spec_uniforms()
                &&& r.1@.len() == 7 + self.spec_corner_uniforms().len()
                &&& r.1@[0].name@ == "u_sdr_brightness_nits"@
                &&& r.1@[0].value == UniformValue::Float(self.spec_parameters().0)
                &&& r.1@[1].name@ == "u_max_nits"@
                &&& r.1@[1].value == UniformValue::Float(self.spec_parameters().1)
                &&& r.1@[2].name@ == "u_sdr_color_intensity"@
                &&& r.1@[2].value == UniformValue::Float(self.spec_parameters().2)
                &&& r.1@[3].name@ == "u_gamut_mapping_mode"@
                &&& r.1@[3].value == UniformValue::Int(self.spec_parameters().3)
                &&& r.1@[4].name@ == "u_transfer_function"@
                &&& r.1@[4].value == UniformValue::Int(self.spec_parameters().4)
                &&& r.1@[5].name@ == "u_icc_enabled"@
                &&& r.1@[5].value == UniformValue::Int(if self.spec_icc().0 { 1 } else { 0 })
                &&& r.1@[6].name@ == "u_icc_matrix"@
            },
            self.spec_treatment() == HdrTreatment::Passthrough ==> {
                &&& *r.0 == self.spec_passthrough_program()
                &&& r.1@.len() == 0
            },
    {
        match self.treatment {
            HdrTreatment::Convert => (&self.conversion_program, self.conversion_uniforms()),
            HdrTreatment::Passthrough => (&self.passthrough_program, Vec::new()),
        }
    }
}

/// An element that draws an offscreen HDR texture through the HDR output
/// program. `T` is the texture element, `P` a texture program, `D` the damage
/// history of the offscreen passes.
pub struct HdrOutputRenderElement<T, P, D> {
    inner: T,
    program: Option<P>,
    sdr_brightness_nits: Binary32,
    max_nits: Binary32,
    sdr_color_intensity: Binary32,
    /// Accumulated damage history from the offscreen render passes.
    damage: D,
}

impl<T, P, D> HdrOutputRenderElement<T, P, D> {
    pub closed spec fn spec_inner(&self) -> T {
        self.inner
    }

    pub closed spec fn spec_program(&self) -> Option<P> {
        self.program
    }

    pub closed spec fn spec_damage(&self) -> D {
        self.damage
    }

    /// The program parameters: SDR brightness, peak brightness and SDR colour
    /// intensity.
    pub closed spec fn spec_parameters(&self) -> (Binary32, Binary32, Binary32) {
        (self.sdr_brightness_nits, self.max_nits, self.sdr_color_intensity)
    }

    /// Each output-program uniform carries the parameter of its name.
    pub proof fn law_output_uniforms_carry_parameters(&self, v: Seq<UniformSetting>)
        requires
            settings_view(v) == self.spec_uniforms(),
        ensures
            v.len() == 3,
            v[0].name@ == "u_sdr_brightness_nits"@,
            v[0].value == UniformValue::Float(self.spec_parameters().0),
            v[1].name@ == "u_max_nits"@,
            v[1].value == UniformValue::Float(self.spec_parameters().1),
            v[2].name@ == "u_sdr_color_intensity"@,
            v[2].value == UniformValue::Float(self.spec_parameters().2),
    {
        assert(settings_view(v).len() == v.len());
        assert forall|i: int| 0 <= i < v.len() implies settings_view(v)[i] == setting_view(
            #[trigger] v[i],
        ) by {}
    }

    /// The uniforms that the output program is given.
    pub closed spec fn spec_uniforms(&self) -> Seq<(Seq<char>, UniformValueView)> {
        spec_output_uniforms(self.sdr_brightness_nits, self.max_nits, self.sdr_color_intensity)
    }

    pub fn new(
        texture: T,
        program: Option<P>,
        sdr_brightness_nits: Binary32,
        max_nits: Binary32,
        sdr_color_intensity: Binary32,
        damage: D,
    ) -> (r: Self)
        ensures
            r.spec_inner() == texture,
            r.spec_program() == program,
            r.spec_damage() == damage,
            r.spec_parameters() == (sdr_brightness_nits, max_nits, sdr_color_intensity),
            r.spec_uniforms() == spec_output_uniforms(
                sdr_brightness_nits,
                max_nits,
                sdr_color_intensity,
            ),
    {
        Self {
            inner: texture,
            program,
            sdr_brightness_nits,
            max_nits,
            sdr_color_intensity,
            damage,
        }
    }

    /// An element for the HDR output program that the frame's shaders hold, if
    /// they hold one; `empty_damage` is an empty damage history.
    pub fn from_frame(
        program: Option<P>,
        inner: T,
        sdr_brightness_nits: Binary32,
        max_nits: Binary32,
        sdr_color_intensity: Binary32,
        empty_damage: D,
    ) -> (r: Option<Self>)
        ensures
            r is None <==> program is None,
            r matches Some(e) ==> {
                &&& e.spec_inner() == inner
                &&& e.spec_program() == program
                &&& e.spec_damage() == empty_damage
                &&& e.spec_parameters() == (sdr_brightness_nits, max_nits, sdr_color_intensity)
                &&& e.spec_uniforms() == spec_output_uniforms(
                    sdr_brightness_nits,
                    max_nits,
                    sdr_color_intensity,
                )
            },
    {
        if program.is_none() {
            return None;
        }
        Some(
            Self {
                inner,
                program,
                sdr_brightness_nits,
                max_nits,
                sdr_color_intensity,
                damage: empty_damage,
            },
        )
    }

    /// The texture element.
    pub fn inner(&self) -> (r: &T)
        ensures
            *r == self.spec_inner(),
    {
        &self.inner
    }

    /// The damage history.
    pub fn damage(&self) -> (r: &D)
        ensures
            *r == self.spec_damage(),
    {
        &self.damage
    }

    /// The program override to install before drawing the texture, or `None`
    /// when there is no program (the element then draws nothing).
    pub fn shader_override(&self) -> (r: Option<(&P, Vec<UniformSetting>)>)
        ensures
            r is None <==> self.spec_program() is None,
            r matches Some((p, u)) ==> {
                &&& self.spec_program() == Some(*p)
                &&& settings_view(u@) == self.spec_uniforms()
                &&& u@.len() == 3
                &&& u@[0].value == UniformValue::Float(self.spec_parameters().0)
                &&& u@[1].value == UniformValue::Float(self.spec_parameters().1)
                &&& u@[2].value == UniformValue::Float(self.spec_parameters().2)
            },
    {
        match &self.program {
            None => None,
            Some(program) => {
                let u = brightness_uniforms(
                    self.sdr_brightness_nits,
                    self.max_nits,
                    self.sdr_color_intensity,
                );
                proof {
                    self.law_output_uniforms_carry_parameters(u@);
                }
                Some((program, u))
            },
        }
    }
}

} // verus!
