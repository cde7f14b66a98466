//! Minimal ICC profile parser for colour-accurate rendering.
//!
//! Extracts the header fields, the colour primaries, the white point and the
//! ASCII description from ICC v2/v4 profiles, working directly on the bytes of
//! the profile.

use vstd::prelude::*;
use vstd::string::*;

verus! {

/// A real number held exactly as `num / den`, with `den > 0`.
///
/// Values read from a profile are s15Fixed16Number values (`den == 65536`);
/// the standard constants of this module are decimal (`den == 10000`).
#[derive(Debug, Clone, Copy, PartialEq, Eq, Structural)]
pub struct Rational {
    pub num: i64,
    pub den: u32,
}

impl Rational {
    pub open spec fn wf(self) -> bool {
        self.den > 0
    }
}

/// Big-endian unsigned 32-bit value stored at `d[i..i + 4]`.
pub open spec fn be_u32(d: Seq<u8>, i: int) -> u32 {
    (d[i] as int * 0x1000000 + d[i + 1] as int * 0x10000 + d[i + 2] as int * 0x100
        + d[i + 3] as int) as u32
}

/// Read a big-endian `u32` from `data[at..at + 4]`.
fn read_be_u32(data: &[u8], at: usize) -> (r: u32)
    requires
        at + 4 <= data@.len(),
    ensures
        r == be_u32(data@, at as int),
{
    (data[at] as u32) * 0x1000000 + (data[at + 1] as u32) * 0x10000 + (data[at + 2] as u32)
        * 0x100 + (data[at + 3] as u32)
}

/// Signed value of the big-endian two's-complement 32-bit integer at `d[i..i + 4]`.
pub open spec fn be_i32(d: Seq<u8>, i: int) -> int {
    let u = be_u32(d, i) as int;
    if u >= 0x8000_0000 {
        u - 0x1_0000_0000
    } else {
        u
    }
}

/// The s15Fixed16Number stored at `d[i..i + 4]`.
pub open spec fn fixed16_at(d: Seq<u8>, i: int) -> Rational {
    Rational { num: be_i32(d, i) as i64, den: 65536 }
}

/// The XYZ number (three s15Fixed16Number values) stored at `d[i..i + 12]`.
pub open spec fn xyz_at(d: Seq<u8>, i: int) -> IccXyz {
    IccXyz { x: fixed16_at(d, i), y: fixed16_at(d, i + 4), z: fixed16_at(d, i + 8) }
}

/// The value zero, in the profile's fixed-point scale.
pub open spec fn zero_fixed() -> Rational {
    Rational { num: 0, den: 65536 }
}

pub open spec fn zero_xyz() -> IccXyz {
    IccXyz { x: zero_fixed(), y: zero_fixed(), z: zero_fixed() }
}

/// Convert an s15Fixed16Number (16.16 fixed point) to an exact rational;
/// fewer than four bytes read as zero.
fn fixed16_to_rational(bytes: &[u8]) -> (r: Rational)
    ensures
        bytes@.len() >= 4 ==> r == fixed16_at(bytes@, 0),
        bytes@.len() < 4 ==> r == zero_fixed(),
{
    if bytes.len() < 4 {
        return Rational { num: 0, den: 65536 };
    }
    let u = read_be_u32(bytes, 0);
    let num: i64 = if u >= 0x8000_0000 {
        u as i64 - 0x1_0000_0000
    } else {
        u as i64
    };
    Rational { num, den: 65536 }
}

/// XYZ tristimulus value as stored in ICC profiles (three s15Fixed16Number
/// values), or one of the standard constants of this module.
#[derive(Debug, Clone, Copy, PartialEq, Eq, Structural)]
pub struct IccXyz {
    pub x: Rational,
    pub y: Rational,
    pub z: Rational,
}

impl IccXyz {
    pub open spec fn wf(self) -> bool {
        self.x.wf() && self.y.wf() && self.z.wf()
    }

    /// Parse XYZ from 12 bytes (3 × s15Fixed16Number).
    fn from_bytes(data: &[u8]) -> (r: Option<Self>)
        ensures
            data@.len() < 12 ==> r is None,
            data@.len() >= 12 ==> r == Some(xyz_at(data@, 0)),
    {
        if data.len() < 12 {
            return None;
        }
        let x = fixed16_to_rational(&data[0..4]);
        let y = fixed16_to_rational(&data[4..8]);
        let z = fixed16_to_rational(&data[8..12]);
        proof {
            assert(data@.subrange(0, 4)[0] == data@[0]);
            assert(data@.subrange(4, 8)[0] == data@[4]);
            assert(data@.subrange(8, 12)[0] == data@[8]);
        }
        Some(IccXyz { x, y, z })
    }
}

/// Convert a 4-byte signature to an array.
pub fn tag_signature(bytes: &[u8]) -> (r: [u8; 4])
    requires
        bytes@.len() >= 4,
    ensures
        r@ == bytes@.subrange(0, 4),
{
    let r = [bytes[0], bytes[1], bytes[2], bytes[3]];
    assert(r@ =~= bytes@.subrange(0, 4));
    r
}


#[derive(Debug, Clone, Copy, PartialEq, Eq, Structural)]
pub enum IccVersion {
    V2,
    V4,
    Other(u32),
}

#[derive(Debug, Clone, Copy)]
pub enum ProfileClass {
    Monitor,
    Other([u8; 4]),
}

#[derive(Debug, Clone, Copy)]
pub enum ColorSpaceType {
    Rgb,
    Other([u8; 4]),
}

#[derive(Debug, Clone, Copy, PartialEq, Eq, Structural)]
pub enum RenderingIntent {
    Perceptual,
    RelativeColorimetric,
    Saturation,
    AbsoluteColorimetric,
    Unknown,
}

/// The ICC version that a header's version field denotes.
pub open spec fn spec_version(raw: u32) -> IccVersion {
    if raw == 0x02200000 || raw == 0x02400000 {
        IccVersion::V2
    } else if raw == 0x04000000 || raw == 0x04300000 {
        IccVersion::V4
    } else {
        IccVersion::Other(raw)
    }
}

fn version_from_raw(raw: u32) -> (r: IccVersion)
    ensures
        r == spec_version(raw),
{
    match raw {
        0x02200000 => IccVersion::V2,
        0x02400000 => IccVersion::V2,
        0x04000000 => IccVersion::V4,
        0x04300000 => IccVersion::V4,
        v => IccVersion::Other(v),
    }
}

/// The rendering intent that a header's intent field denotes.
pub open spec fn spec_rendering_intent(raw: u32) -> RenderingIntent {
    if raw == 0 {
        RenderingIntent::Perceptual
    } else if raw == 1 {
        RenderingIntent::RelativeColorimetric
    } else if raw == 2 {
        RenderingIntent::Saturation
    } else if raw == 3 {
        RenderingIntent::AbsoluteColorimetric
    } else {
        RenderingIntent::Unknown
    }
}

fn rendering_intent_from_raw(raw: u32) -> (r: RenderingIntent)
    ensures
        r == spec_rendering_intent(raw),
{
    match raw {
        0 => RenderingIntent::Perceptual,
        1 => RenderingIntent::RelativeColorimetric,
        2 => RenderingIntent::Saturation,
        3 => RenderingIntent::AbsoluteColorimetric,
        _ => RenderingIntent::Unknown,
    }
}

/// The four-byte signature spelled by `a b c d`.
pub open spec fn sig(a: u8, b: u8, c: u8, d: u8) -> Seq<u8> {
    seq![a, b, c, d]
}

/// `acsp`: the profile file signature.
pub open spec fn sig_acsp() -> Seq<u8> {
    sig(0x61, 0x63, 0x73, 0x70)
}

/// `mntr`: the display-device profile class.
pub open spec fn sig_mntr() -> Seq<u8> {
    sig(0x6d, 0x6e, 0x74, 0x72)
}

/// `RGB `: the RGB colour space.
pub open spec fn sig_rgb() -> Seq<u8> {
    sig(0x52, 0x47, 0x42, 0x20)
}

/// `rXYZ`: the red colorant tag.
pub open spec fn sig_rxyz() -> Seq<u8> {
    sig(0x72, 0x58, 0x59, 0x5a)
}

/// `gXYZ`: the green colorant tag.
pub open spec fn sig_gxyz() -> Seq<u8> {
    sig(0x67, 0x58, 0x59, 0x5a)
}

/// `bXYZ`: the blue colorant tag.
pub open spec fn sig_bxyz() -> Seq<u8> {
    sig(0x62, 0x58, 0x59, 0x5a)
}

/// `wtpt`: the media white point tag.
pub open spec fn sig_wtpt() -> Seq<u8> {
    sig(0x77, 0x74, 0x70, 0x74)
}

/// `desc`: the profile description tag, and its text type.
pub open spec fn sig_desc() -> Seq<u8> {
    sig(0x64, 0x65, 0x73, 0x63)
}

/// Whether the signature `s` is `a b c d`.
fn sig_is(s: &[u8; 4], a: u8, b: u8, c: u8, d: u8) -> (r: bool)
    ensures
        r == (s@ == sig(a, b, c, d)),
{
    let r = s[0] == a && s[1] == b && s[2] == c && s[3] == d;
    proof {
        if r {
            assert(s@ =~= sig(a, b, c, d));
        } else {
            assert(s@ != sig(a, b, c, d)) by {
                if s@ == sig(a, b, c, d) {
                    assert(s@[0] == a && s@[1] == b && s@[2] == c && s@[3] == d);
                }
            }
        }
    }
    r
}

/// The profile class that a header's class signature denotes.
pub open spec fn class_matches(raw: Seq<u8>, c: ProfileClass) -> bool {
    if raw == sig_mntr() {
        c == ProfileClass::Monitor
    } else {
        c matches ProfileClass::Other(s) && s@ == raw
    }
}

/// The colour space that a header's colour-space signature denotes.
pub open spec fn color_space_matches(raw: Seq<u8>, c: ColorSpaceType) -> bool {
    if raw == sig_rgb() {
        c == ColorSpaceType::Rgb
    } else {
        c matches ColorSpaceType::Other(s) && s@ == raw
    }
}


/// The decimal constant `n / 10000`.
pub open spec fn dec(n: i64) -> Rational {
    Rational { num: n, den: 10000 }
}

pub open spec fn dec_xyz(x: i64, y: i64, z: i64) -> IccXyz {
    IccXyz { x: dec(x), y: dec(y), z: dec(z) }
}

/// Standard sRGB primaries (R, G, B).
pub open spec fn spec_srgb_primaries() -> Seq<IccXyz> {
    seq![dec_xyz(6400, 3300, 300), dec_xyz(3000, 6000, 1000), dec_xyz(1500, 600, 7900)]
}

/// Standard BT.2020 primaries (R, G, B).
pub open spec fn spec_bt2020_primaries() -> Seq<IccXyz> {
    seq![dec_xyz(7080, 2920, 0), dec_xyz(1700, 7970, 330), dec_xyz(1310, 460, 8230)]
}

/// D65 white point.
pub open spec fn spec_d65_whitepoint() -> IccXyz {
    dec_xyz(3127, 3290, 3583)
}

/// D50 white point (ICC PCS illuminant).
pub open spec fn spec_d50_whitepoint() -> IccXyz {
    dec_xyz(3457, 3585, 2958)
}

fn decimal_xyz(x: i64, y: i64, z: i64) -> (r: IccXyz)
    ensures
        r == dec_xyz(x, y, z),
{
    IccXyz {
        x: Rational { num: x, den: 10000 },
        y: Rational { num: y, den: 10000 },
        z: Rational { num: z, den: 10000 },
    }
}

/// Standard sRGB primaries.
pub fn srgb_primaries() -> (r: [IccXyz; 3])
    ensures
        r@ == spec_srgb_primaries(),
{
    let r = [
        decimal_xyz(6400, 3300, 300),
        decimal_xyz(3000, 6000, 1000),
        decimal_xyz(1500, 600, 7900),
    ];
    assert(r@ =~= spec_srgb_primaries());
    r
}

/// Standard BT.2020 primaries.
pub fn bt2020_primaries() -> (r: [IccXyz; 3])
    ensures
        r@ == spec_bt2020_primaries(),
{
    let r = [
        decimal_xyz(7080, 2920, 0),
        decimal_xyz(1700, 7970, 330),
        decimal_xyz(1310, 460, 8230),
    ];
    assert(r@ =~= spec_bt2020_primaries());
    r
}

/// D65 white point.
pub fn d65_whitepoint() -> (r: IccXyz)
    ensures
        r == spec_d65_whitepoint(),
{
    decimal_xyz(3127, 3290, 3583)
}

/// D50 white point (ICC PCS illuminant).
pub fn d50_whitepoint() -> (r: IccXyz)
    ensures
        r == spec_d50_whitepoint(),
{
    decimal_xyz(3457, 3585, 2958)
}


/// Number of entries that the tag table declares.
pub open spec fn tag_count(d: Seq<u8>) -> int {
    be_u32(d, 128) as int
}

/// Where entry `k` of the tag table starts.
pub open spec fn entry_base(k: int) -> int {
    132 + 12 * k
}

pub open spec fn entry_sig(d: Seq<u8>, k: int) -> Seq<u8> {
    d.subrange(entry_base(k), entry_base(k) + 4)
}

pub open spec fn entry_offset(d: Seq<u8>, k: int) -> int {
    be_u32(d, entry_base(k) + 4) as int
}

pub open spec fn entry_size(d: Seq<u8>, k: int) -> int {
    be_u32(d, entry_base(k) + 8) as int
}

/// What the tags read so far have set: the colorants, the white point and
/// the bytes of the ASCII description.
pub struct TagScan {
    pub red: IccXyz,
    pub green: IccXyz,
    pub blue: IccXyz,
    pub white: IccXyz,
    pub description: Option<Seq<u8>>,
}

pub open spec fn initial_scan() -> TagScan {
    TagScan {
        red: zero_xyz(),
        green: zero_xyz(),
        blue: zero_xyz(),
        white: zero_xyz(),
        description: None,
    }
}

/// An XYZ tag at `off` of `size` bytes: its value when it holds one (8 bytes of
/// type header, then 12 bytes), else the value set before.
pub open spec fn updated_xyz(d: Seq<u8>, off: int, size: int, prev: IccXyz) -> IccXyz {
    if size - 8 >= 12 {
        xyz_at(d, off + 8)
    } else {
        prev
    }
}

/// The description bytes of a `desc` tag at `off` of `size` bytes: the ASCII
/// count at `off + 8` bytes, cut at the end of the tag.
pub open spec fn desc_bytes(d: Seq<u8>, off: int, size: int) -> Seq<u8> {
    let start = off + 12;
    let want = start + be_u32(d, off + 8) as int;
    let end = if want < off + size {
        want
    } else {
        off + size
    };
    d.subrange(start, end)
}

/// The effect of tag-table entry `k` on the scan so far. A tag that runs past
/// the end of the data is ignored; of the others, later tags overwrite earlier
/// ones.
pub open spec fn apply_tag(d: Seq<u8>, st: TagScan, k: int) -> TagScan {
    let off = entry_offset(d, k);
    let size = entry_size(d, k);
    let s = entry_sig(d, k);
    if off + size > d.len() {
        st
    } else if s == sig_rxyz() {
        TagScan { red: updated_xyz(d, off, size, st.red), ..st }
    } else if s == sig_gxyz() {
        TagScan { green: updated_xyz(d, off, size, st.green), ..st }
    } else if s == sig_bxyz() {
        TagScan { blue: updated_xyz(d, off, size, st.blue), ..st }
    } else if s == sig_wtpt() {
        TagScan { white: updated_xyz(d, off, size, st.white), ..st }
    } else if s == sig_desc() && size > 12 && d.subrange(off, off + 4) == sig_desc() {
        TagScan { description: Some(desc_bytes(d, off, size)), ..st }
    } else {
        st
    }
}

/// The scan after the first `n` entries of the tag table.
pub open spec fn scan_tags(d: Seq<u8>, n: nat) -> TagScan
    decreases n,
{
    if n == 0 {
        initial_scan()
    } else {
        apply_tag(d, scan_tags(d, (n - 1) as nat), n - 1)
    }
}

pub open spec fn is_xyz_sig(s: Seq<u8>) -> bool {
    s == sig_rxyz() || s == sig_gxyz() || s == sig_bxyz() || s == sig_wtpt()
}

/// Entry `k` is an XYZ tag within the data but shorter than its 8-byte type
/// header: slicing past its header fails.
pub open spec fn tag_panics(d: Seq<u8>, k: int) -> bool {
    &&& entry_offset(d, k) + entry_size(d, k) <= d.len()
    &&& entry_size(d, k) < 8
    &&& is_xyz_sig(entry_sig(d, k))
}

/// The header is long enough and carries the `acsp` signature.
pub open spec fn header_valid(d: Seq<u8>) -> bool {
    d.len() >= 128 && d.subrange(36, 40) == sig_acsp()
}

/// The tag table lies within the data.
pub open spec fn tag_table_fits(d: Seq<u8>) -> bool {
    132 + 12 * tag_count(d) <= d.len()
}

/// The inputs on which reading the profile fails by a bounds violation: a valid
/// header without a tag count, or a tag table with a truncated XYZ tag.
pub open spec fn icc_parse_panics(d: Seq<u8>) -> bool {
    &&& header_valid(d)
    &&& (d.len() < 132 || (tag_table_fits(d) && exists|k: int|
        0 <= k < tag_count(d) && #[trigger] tag_panics(d, k)))
}

/// Name for the text that `String::from_utf8_lossy` makes of `bytes`.
pub uninterp spec fn utf8_lossy(bytes: Seq<u8>) -> Seq<char>;

/// `s` without its trailing NUL characters.
pub open spec fn trim_trailing_nul(s: Seq<char>) -> Seq<char>
    decreases s.len(),
{
    if s.len() > 0 && s.last() == '\0' {
        trim_trailing_nul(s.drop_last())
    } else {
        s
    }
}

/// The profile description that a finished scan yields.
pub open spec fn spec_description(st: TagScan) -> Seq<char> {
    match st.description {
        None => Seq::empty(),
        Some(b) => trim_trailing_nul(utf8_lossy(b)),
    }
}


/// Calls `String::from_utf8_lossy` and takes the owned text. Its result is a
/// function of the bytes alone, named `utf8_lossy`; on valid UTF-8 std
/// documents it to be the decoded text. What it makes of invalid sequences
/// (U+FFFD replacement) is left unsaid here.
#[verifier::external_body]
fn decode_utf8_lossy(bytes: &[u8]) -> (s: String)
    ensures
        s@ == utf8_lossy(bytes@),
        vstd::utf8::valid_utf8(bytes@) ==> s@ == vstd::utf8::decode_utf8(bytes@),
{
    String::from_utf8_lossy(bytes).into_owned()
}

/// `s` without its trailing NUL characters.
fn trim_trailing_nuls(s: String) -> (r: String)
    ensures
        r@ == trim_trailing_nul(s@),
{
    let text = s.as_str();
    let mut n = text.unicode_len();
    assert(text@.subrange(0, n as int) =~= text@);
    while n > 0 && text.get_char(n - 1) == '\0'
        invariant
            n <= text@.len(),
            trim_trailing_nul(text@) == trim_trailing_nul(text@.subrange(0, n as int)),
        decreases n,
    {
        proof {
            let cur = text@.subrange(0, n as int);
            assert(cur.drop_last() =~= text@.subrange(0, n - 1));
        }
        n = n - 1;
    }
    String::from_str(text.substring_char(0, n))
}


/// Parsed ICC profile data relevant to colour management.
#[derive(Debug, Clone)]
pub struct IccProfile {
    pub version: IccVersion,
    pub profile_class: ProfileClass,
    pub color_space: ColorSpaceType,
    pub primaries: [IccXyz; 3],
    pub white_point: IccXyz,
    pub description: String,
    pub rendering_intent: RenderingIntent,
}

/// Why a profile was refused.
#[derive(Debug, Clone, Copy)]
pub enum IccError {
    /// The data is shorter than the 128-byte header; holds its length.
    TooSmall(usize),
    /// The file signature at bytes 36..40 is not `acsp`; holds it.
    InvalidSignature([u8; 4]),
    /// The tag table extends beyond the end of the data.
    TagTableOutOfBounds,
}

/// The profile that the bytes `d` (with a valid header and a tag table that
/// fits) describe. When the red colorant has a zero X (none was found), the
/// primaries and white point are those of sRGB and D65.
pub open spec fn profile_matches(d: Seq<u8>, p: IccProfile) -> bool {
    let st = scan_tags(d, tag_count(d) as nat);
    &&& p.version == spec_version(be_u32(d, 8))
    &&& class_matches(d.subrange(12, 16), p.profile_class)
    &&& color_space_matches(d.subrange(16, 20), p.color_space)
    &&& p.rendering_intent == spec_rendering_intent(be_u32(d, 64))
    &&& if st.red.x.num == 0 {
        &&& p.primaries@ == spec_srgb_primaries()
        &&& p.white_point == spec_d65_whitepoint()
    } else {
        &&& p.primaries@ == seq![st.red, st.green, st.blue]
        &&& p.white_point == st.white
    }
    &&& p.description@ == spec_description(st)
}

proof fn lemma_xyz_in_subrange(d: Seq<u8>, a: int, b: int)
    requires
        0 <= a,
        a + 12 <= b <= d.len(),
    ensures
        xyz_at(d.subrange(a, b), 0) == xyz_at(d, a),
{
    let s = d.subrange(a, b);
    assert forall|i: int| 0 <= i < 12 implies s[i] == d[a + i] by {}
}


/// What the tags read so far have set, as the parser holds it: the colorants,
/// the white point, and where the description text lies.
#[derive(Clone, Copy)]
struct ScanState {
    red: IccXyz,
    green: IccXyz,
    blue: IccXyz,
    white: IccXyz,
    desc_range: Option<(usize, usize)>,
}

spec fn state_matches(d: Seq<u8>, st: ScanState, ts: TagScan) -> bool {
    &&& st.red == ts.red
    &&& st.green == ts.green
    &&& st.blue == ts.blue
    &&& st.white == ts.white
    &&& match st.desc_range {
        None => ts.description is None,
        Some((a, b)) => a <= b <= d.len() && ts.description == Some(d.subrange(a as int, b as int)),
    }
}

/// The XYZ tag occupying `data[off..end]`: its value, or `prev` when the tag is
/// too short to hold one.
fn update_xyz(data: &[u8], off: usize, end: usize, prev: IccXyz) -> (r: IccXyz)
    requires
        off + 8 <= end <= data@.len(),
    ensures
        r == updated_xyz(data@, off as int, end - off, prev),
{
    let r = IccXyz::from_bytes(&data[off + 8..end]).unwrap_or(prev);
    proof {
        if end - off >= 20 {
            lemma_xyz_in_subrange(data@, off + 8, end as int);
        }
    }
    r
}

/// Apply entry `k` of the tag table to the scan so far.
fn scan_entry(data: &[u8], k: usize, st: ScanState) -> (r: ScanState)
    requires
        header_valid(data@),
        tag_table_fits(data@),
        k < tag_count(data@),
        !tag_panics(data@, k as int),
    ensures
        forall|ts: TagScan| #[trigger]
            state_matches(data@, st, ts) ==> state_matches(data@, r, apply_tag(data@, ts, k as int)),
{
    let ghost d = data@;
    let len = data.len();
    let base = 132 + 12 * k;
    let tag_sig = tag_signature(&data[base..base + 4]);
    let offset = read_be_u32(data, base + 4);
    let size = read_be_u32(data, base + 8);
    assert(tag_sig@ =~= entry_sig(d, k as int));
    if (offset as u64) + (size as u64) > len as u64 {
        return st;
    }
    let off = offset as usize;
    let end = off + size as usize;
    let mut r = st;
    if sig_is(&tag_sig, 0x72, 0x58, 0x59, 0x5a) {
        r.red = update_xyz(data, off, end, st.red);
    } else if sig_is(&tag_sig, 0x67, 0x58, 0x59, 0x5a) {
        r.green = update_xyz(data, off, end, st.green);
    } else if sig_is(&tag_sig, 0x62, 0x58, 0x59, 0x5a) {
        r.blue = update_xyz(data, off, end, st.blue);
    } else if sig_is(&tag_sig, 0x77, 0x74, 0x70, 0x74) {
        r.white = update_xyz(data, off, end, st.white);
    } else if sig_is(&tag_sig, 0x64, 0x65, 0x73, 0x63) {
        // Profile description: ASCII count (4 bytes), then the text.
        if size > 12 {
            let desc_type = tag_signature(&data[off..off + 4]);
            assert(desc_type@ =~= d.subrange(off as int, off + 4));
            if sig_is(&desc_type, 0x64, 0x65, 0x73, 0x63) {
                let ascii_count = read_be_u32(data, off + 8);
                let start = off + 12;
                let want = (start as u64) + (ascii_count as u64);
                let stop = if want < end as u64 {
                    want as usize
                } else {
                    end
                };
                r.desc_range = Some((start, stop));
            }
        }
    }
    r
}

/// Parse an ICC profile from its bytes.
pub fn parse_icc_bytes(data: &[u8]) -> (r: Result<IccProfile, IccError>)
    requires
        !icc_parse_panics(data@),
    ensures
        data@.len() < 128 ==> (r matches Err(IccError::TooSmall(n)) && n == data@.len()),
        data@.len() >= 128 && !header_valid(data@) ==> (r matches Err(
            IccError::InvalidSignature(s),
        ) && s@ == data@.subrange(36, 40)),
        header_valid(data@) && !tag_table_fits(data@) ==> (r matches Err(
            IccError::TagTableOutOfBounds,
        )),
        header_valid(data@) && tag_table_fits(data@) ==> (r matches Ok(p) && profile_matches(
            data@,
            p,
        )),
{
    let ghost d = data@;
    let len = data.len();
    if len < 128 {
        return Err(IccError::TooSmall(len));
    }
    // Header (128 bytes).

    let version_raw = read_be_u32(data, 8);
    let profile_class_raw = tag_signature(&data[12..16]);
    let color_space_raw = tag_signature(&data[16..20]);
    let signature = tag_signature(&data[36..40]);
    assert(signature@ =~= d.subrange(36, 40));
    assert(profile_class_raw@ =~= d.subrange(12, 16));
    assert(color_space_raw@ =~= d.subrange(16, 20));
    if !sig_is(&signature, 0x61, 0x63, 0x73, 0x70) {
        return Err(IccError::InvalidSignature(signature));
    }
    let version = version_from_raw(version_raw);
    let profile_class = if sig_is(&profile_class_raw, 0x6d, 0x6e, 0x74, 0x72) {
        ProfileClass::Monitor
    } else {
        ProfileClass::Other(profile_class_raw)
    };
    let color_space = if sig_is(&color_space_raw, 0x52, 0x47, 0x42, 0x20) {
        ColorSpaceType::Rgb
    } else {
        ColorSpaceType::Other(color_space_raw)
    };
    let rendering_intent = rendering_intent_from_raw(read_be_u32(data, 64));

    // Tag table: count, then (signature, offset, size) entries.
    let count = read_be_u32(data, 128);
    if (len as u64) < 132 + (count as u64) * 12 {
        return Err(IccError::TagTableOutOfBounds);
    }
    let count = count as usize;

    let zero = Rational { num: 0, den: 65536 };
    let zero_xyz = IccXyz { x: zero, y: zero, z: zero };
    let mut st = ScanState {
        red: zero_xyz,
        green: zero_xyz,
        blue: zero_xyz,
        white: zero_xyz,
        desc_range: None,
    };
    let mut k: usize = 0;
    while k < count
        invariant
            d == data@,
            header_valid(d),
            tag_table_fits(d),
            count == tag_count(d),
            forall|j: int| 0 <= j < count ==> !#[trigger] tag_panics(d, j),
            k <= count,
            state_matches(d, st, scan_tags(d, k as nat)),
        decreases count - k,
    {
        st = scan_entry(data, k, st);
        k = k + 1;
    }

    // If primaries were not found in the profile, fall back to sRGB.
    let (primaries, white_point) = if st.red.x.num == 0 {
        (srgb_primaries(), d65_whitepoint())
    } else {
        let p = [st.red, st.green, st.blue];
        assert(p@ =~= seq![st.red, st.green, st.blue]);
        (p, st.white)
    };
    let description = match st.desc_range {
        None => String::new(),
        Some((start, stop)) => trim_trailing_nuls(decode_utf8_lossy(&data[start..stop])),
    };
    Ok(
        IccProfile {
            version,
            profile_class,
            color_space,
            primaries,
            white_point,
            description,
            rendering_intent,
        },
    )
}


/// Whether reading these bytes as a profile would index past their end: a
/// valid header with no room for the tag count, or an XYZ tag shorter than its
/// type header. Callers test this before `parse_icc_bytes`.
pub fn icc_parse_would_panic(data: &[u8]) -> (r: bool)
    ensures
        r == icc_parse_panics(data@),
        r ==> data@.len() >= 128 && data@.subrange(36, 40) == sig_acsp(),
        r && data@.len() >= 132 ==> exists|k: int|
            #![trigger entry_sig(data@, k)]
            0 <= k < tag_count(data@) && entry_offset(data@, k) + entry_size(data@, k)
                <= data@.len() && entry_size(data@, k) < 8 && is_xyz_sig(entry_sig(data@, k)),
        (forall|k: int|
            #![trigger entry_sig(data@, k)]
            0 <= k < tag_count(data@) && is_xyz_sig(entry_sig(data@, k)) ==> entry_size(data@, k)
                >= 8) && data@.len() >= 132 ==> !r,
{
    let ghost d = data@;
    let len = data.len();
    if len < 128 {
        return false;
    }
    let signature = tag_signature(&data[36..40]);
    assert(signature@ =~= d.subrange(36, 40));
    if !sig_is(&signature, 0x61, 0x63, 0x73, 0x70) {
        return false;
    }
    if len < 132 {
        return true;
    }
    let count = read_be_u32(data, 128);
    if (len as u64) < 132 + (count as u64) * 12 {
        return false;
    }
    let count = count as usize;
    let mut k: usize = 0;
    while k < count
        invariant
            d == data@,
            len == d.len(),
            header_valid(d),
            tag_table_fits(d),
            count == tag_count(d),
            k <= count,
            forall|j: int| 0 <= j < k ==> !#[trigger] tag_panics(d, j),
        decreases count - k,
    {
        let base = 132 + 12 * k;
        let tag_sig = tag_signature(&data[base..base + 4]);
        assert(tag_sig@ =~= entry_sig(d, k as int));
        let offset = read_be_u32(data, base + 4);
        let size = read_be_u32(data, base + 8);
        if (offset as u64) + (size as u64) <= len as u64 && size < 8 && (sig_is(
            &tag_sig,
            0x72,
            0x58,
            0x59,
            0x5a,
        ) || sig_is(&tag_sig, 0x67, 0x58, 0x59, 0x5a) || sig_is(&tag_sig, 0x62, 0x58, 0x59, 0x5a)
            || sig_is(&tag_sig, 0x77, 0x74, 0x70, 0x74)) {
            assert(tag_panics(d, k as int));
            return true;
        }
        k = k + 1;
    }
    false
}

/// A parsed profile never reports a red primary with a zero X: the sRGB
/// fallback replaces such primaries.
pub proof fn lemma_parsed_red_x_nonzero(d: Seq<u8>, p: IccProfile)
    requires
        profile_matches(d, p),
    ensures
        p.primaries@[0].x.num != 0,
        p.primaries@.len() == 3,
{
}

/// Every value a parsed profile reports has a positive denominator.
pub proof fn lemma_parsed_values_wf(d: Seq<u8>, p: IccProfile)
    requires
        profile_matches(d, p),
    ensures
        forall|i: int| 0 <= i < 3 ==> (#[trigger] p.primaries@[i]).wf(),
        p.white_point.wf(),
{
    lemma_scan_wf(d, tag_count(d) as nat);
}

proof fn lemma_scan_wf(d: Seq<u8>, n: nat)
    ensures
        scan_tags(d, n).red.wf(),
        scan_tags(d, n).green.wf(),
        scan_tags(d, n).blue.wf(),
        scan_tags(d, n).white.wf(),
    decreases n,
{
    if n > 0 {
        lemma_scan_wf(d, (n - 1) as nat);
    }
}

} // verus!

verus! {

/// Exactly the v2.2 and v2.4 version fields are reported as V2 and exactly the
/// v4.0 and v4.3 fields as V4; every other field is reported as it stands.
pub proof fn law_version_field(raw: u32)
    ensures
        spec_version(raw) == IccVersion::V2 <==> (raw == 0x02200000 || raw == 0x02400000),
        spec_version(raw) == IccVersion::V4 <==> (raw == 0x04000000 || raw == 0x04300000),
        spec_version(raw) matches IccVersion::Other(v) ==> v == raw,
        !(raw == 0x02200000 || raw == 0x02400000 || raw == 0x04000000 || raw == 0x04300000)
            ==> spec_version(raw) == IccVersion::Other(raw),
{
}

/// A parsed profile is reported as V4 only if its major version byte (byte 8)
/// is 4, and as V2 only if it is 2; any other version is the field itself.
pub proof fn law_parsed_version_major_byte(d: Seq<u8>, p: IccProfile)
    requires
        d.len() >= 128,
        profile_matches(d, p),
    ensures
        p.version == IccVersion::V4 ==> d[8] == 4 && (d[9] == 0x00 || d[9] == 0x30) && d[10]
            == 0 && d[11] == 0,
        p.version == IccVersion::V2 ==> d[8] == 2 && (d[9] == 0x20 || d[9] == 0x40) && d[10]
            == 0 && d[11] == 0,
        p.version matches IccVersion::Other(v) ==> v == be_u32(d, 8),
{
    law_version_field(be_u32(d, 8));
    let v = be_u32(d, 8) as int;
    assert(v == d[8] as int * 0x1000000 + d[9] as int * 0x10000 + d[10] as int * 0x100
        + d[11] as int);
}

/// Intent fields 0 to 3 are the four ICC rendering intents in their order;
/// every other field is reported as unknown.
pub proof fn law_rendering_intent_field(raw: u32)
    ensures
        spec_rendering_intent(raw) == RenderingIntent::Perceptual <==> raw == 0,
        spec_rendering_intent(raw) == RenderingIntent::RelativeColorimetric <==> raw == 1,
        spec_rendering_intent(raw) == RenderingIntent::Saturation <==> raw == 2,
        spec_rendering_intent(raw) == RenderingIntent::AbsoluteColorimetric <==> raw == 3,
        spec_rendering_intent(raw) == RenderingIntent::Unknown <==> raw > 3,
{
}

} // verus!

verus! {

/// Only a missing tag count or an XYZ tag shorter than its 8-byte type header
/// makes the parser index past the data. An entry of at least 8 bytes never
/// does, however it ends (a tag that ends exactly at the end of the data
/// included), nor does an entry of any other signature; and a profile whose
/// XYZ entries all have 8 bytes or more, with room for the tag count, is read
/// without fault.
pub proof fn law_parse_panics_only_on_short_xyz_tags(d: Seq<u8>, k: int)
    ensures
        entry_size(d, k) >= 8 ==> !tag_panics(d, k),
        !is_xyz_sig(entry_sig(d, k)) ==> !tag_panics(d, k),
        entry_offset(d, k) + entry_size(d, k) > d.len() ==> !tag_panics(d, k),
        tag_panics(d, k) <==> (entry_offset(d, k) + entry_size(d, k) <= d.len() && entry_size(d, k)
            < 8 && (entry_sig(d, k) == sig_rxyz() || entry_sig(d, k) == sig_gxyz() || entry_sig(d, k)
            == sig_bxyz() || entry_sig(d, k) == sig_wtpt())),
        d.len() >= 132 && (forall|j: int|
            0 <= j < tag_count(d) && is_xyz_sig(#[trigger] entry_sig(d, j)) ==> entry_size(d, j)
                >= 8) ==> !icc_parse_panics(d),
        icc_parse_panics(d) ==> d.len() >= 128 && d.subrange(36, 40) == sig_acsp(),
{
    if d.len() >= 132 && (forall|j: int|
        0 <= j < tag_count(d) && is_xyz_sig(#[trigger] entry_sig(d, j)) ==> entry_size(d, j) >= 8) {
        assert forall|j: int| 0 <= j < tag_count(d) implies !#[trigger] tag_panics(d, j) by {
            assert(is_xyz_sig(entry_sig(d, j)) ==> entry_size(d, j) >= 8);
        }
    }
}

} // verus!

verus! {

/// Colorant `which` of a scan: 0 red, 1 green, 2 blue, 3 white point.
pub open spec fn scan_colorant(st: TagScan, which: int) -> IccXyz {
    if which == 0 {
        st.red
    } else if which == 1 {
        st.green
    } else if which == 2 {
        st.blue
    } else {
        st.white
    }
}

/// The tag signature of colorant `which`: `rXYZ`, `gXYZ`, `bXYZ`, `wtpt`.
pub open spec fn colorant_sig(which: int) -> Seq<u8> {
    if which == 0 {
        seq![0x72u8, 0x58, 0x59, 0x5a]
    } else if which == 1 {
        seq![0x67u8, 0x58, 0x59, 0x5a]
    } else if which == 2 {
        seq![0x62u8, 0x58, 0x59, 0x5a]
    } else {
        seq![0x77u8, 0x74, 0x70, 0x74]
    }
}

/// Entry `j` is a tag of colorant `which` that lies within the data and holds
/// a value (8 bytes of type header, then 12 bytes).
pub open spec fn entry_sets_colorant(d: Seq<u8>, j: int, which: int) -> bool {
    &&& entry_sig(d, j) == colorant_sig(which)
    &&& entry_offset(d, j) + entry_size(d, j) <= d.len()
    &&& entry_size(d, j) >= 20
}

/// Entry `j` is a `desc` tag of text type `desc` that lies within the data and
/// is longer than its 12-byte header.
pub open spec fn entry_sets_description(d: Seq<u8>, j: int) -> bool {
    &&& entry_sig(d, j) == seq![0x64u8, 0x65, 0x73, 0x63]
    &&& entry_offset(d, j) + entry_size(d, j) <= d.len()
    &&& entry_size(d, j) > 12
    &&& d.subrange(entry_offset(d, j), entry_offset(d, j) + 4) == seq![0x64u8, 0x65, 0x73, 0x63]
}

proof fn lemma_sigs_distinct()
    ensures
        sig_rxyz() != sig_gxyz(),
        sig_rxyz() != sig_bxyz(),
        sig_rxyz() != sig_wtpt(),
        sig_gxyz() != sig_bxyz(),
        sig_gxyz() != sig_wtpt(),
        sig_bxyz() != sig_wtpt(),
        sig_desc() != sig_rxyz(),
        sig_desc() != sig_gxyz(),
        sig_desc() != sig_bxyz(),
        sig_desc() != sig_wtpt(),
{
    assert(sig_rxyz()[0] != sig_gxyz()[0]);
    assert(sig_rxyz()[0] != sig_bxyz()[0]);
    assert(sig_rxyz()[0] != sig_wtpt()[0]);
    assert(sig_gxyz()[0] != sig_bxyz()[0]);
    assert(sig_gxyz()[0] != sig_wtpt()[0]);
    assert(sig_bxyz()[0] != sig_wtpt()[0]);
    assert(sig_desc()[0] != sig_rxyz()[0]);
    assert(sig_desc()[0] != sig_gxyz()[0]);
    assert(sig_desc()[0] != sig_bxyz()[0]);
    assert(sig_desc()[0] != sig_wtpt()[0]);
}

/// A tag-table entry that does not set colorant `which` leaves it as it was.
proof fn lemma_entry_keeps_colorant(d: Seq<u8>, st: TagScan, j: int, which: int)
    requires
        0 <= which < 4,
        !entry_sets_colorant(d, j, which),
    ensures
        scan_colorant(apply_tag(d, st, j), which) == scan_colorant(st, which),
{
    lemma_sigs_distinct();
    assert(colorant_sig(0) == sig_rxyz());
    assert(colorant_sig(1) == sig_gxyz());
    assert(colorant_sig(2) == sig_bxyz());
    assert(colorant_sig(3) == sig_wtpt());
}

/// After the first `n` tag-table entries, each colorant (red, green, blue,
/// white point) is the XYZ value of the last entry among them that is a tag of
/// that colorant, within the data and holding a value.
pub proof fn law_colorant_is_last_valid_tag(d: Seq<u8>, n: nat, k: int, which: int)
    requires
        0 <= which < 4,
        0 <= k < n,
        entry_sets_colorant(d, k, which),
        forall|j: int| k < j < n ==> !#[trigger] entry_sets_colorant(d, j, which),
    ensures
        scan_colorant(scan_tags(d, n), which) == xyz_at(d, entry_offset(d, k) + 8),
    decreases n,
{
    lemma_sigs_distinct();
    assert(colorant_sig(0) == sig_rxyz());
    assert(colorant_sig(1) == sig_gxyz());
    assert(colorant_sig(2) == sig_bxyz());
    assert(colorant_sig(3) == sig_wtpt());
    if n - 1 == k {
    } else {
        law_colorant_is_last_valid_tag(d, (n - 1) as nat, k, which);
        lemma_entry_keeps_colorant(d, scan_tags(d, (n - 1) as nat), n - 1, which);
    }
}

/// Without any such entry, the colorant stays zero.
pub proof fn law_colorant_without_tag_is_zero(d: Seq<u8>, n: nat, which: int)
    requires
        0 <= which < 4,
        forall|j: int| 0 <= j < n ==> !#[trigger] entry_sets_colorant(d, j, which),
    ensures
        scan_colorant(scan_tags(d, n), which) == zero_xyz(),
    decreases n,
{
    if n > 0 {
        law_colorant_without_tag_is_zero(d, (n - 1) as nat, which);
        lemma_entry_keeps_colorant(d, scan_tags(d, (n - 1) as nat), n - 1, which);
    }
}

/// A tag-table entry that does not set the description leaves it as it was.
proof fn lemma_entry_keeps_description(d: Seq<u8>, st: TagScan, j: int)
    requires
        !entry_sets_description(d, j),
    ensures
        apply_tag(d, st, j).description == st.description,
{
    assert(sig_desc() == seq![0x64u8, 0x65, 0x73, 0x63]);
}

/// After the first `n` entries, the description bytes are those of the last
/// `desc` tag among them of text type `desc`, within the data and longer than
/// its header: from 12 bytes into the tag, as many as its ASCII count (at 8
/// bytes in) says, cut at the end of the tag.
pub proof fn law_description_is_last_valid_tag(d: Seq<u8>, n: nat, k: int)
    requires
        0 <= k < n,
        entry_sets_description(d, k),
        forall|j: int| k < j < n ==> !#[trigger] entry_sets_description(d, j),
    ensures
        ({
            let off = entry_offset(d, k);
            let size = entry_size(d, k);
            let count = be_u32(d, off + 8) as int;
            scan_tags(d, n).description == Some(
                d.subrange(
                    off + 12,
                    if off + 12 + count < off + size {
                        off + 12 + count
                    } else {
                        off + size
                    },
                ),
            )
        }),
    decreases n,
{
    lemma_sigs_distinct();
    assert(sig_desc() == seq![0x64u8, 0x65, 0x73, 0x63]);
    if n - 1 == k {
    } else {
        law_description_is_last_valid_tag(d, (n - 1) as nat, k);
        lemma_entry_keeps_description(d, scan_tags(d, (n - 1) as nat), n - 1);
    }
}

/// Without any such entry, there is no description.
pub proof fn law_description_without_tag_is_empty(d: Seq<u8>, n: nat)
    requires
        forall|j: int| 0 <= j < n ==> !#[trigger] entry_sets_description(d, j),
    ensures
        scan_tags(d, n).description is None,
    decreases n,
{
    assert(sig_desc() == seq![0x64u8, 0x65, 0x73, 0x63]);
    if n > 0 {
        law_description_without_tag_is_empty(d, (n - 1) as nat);
        lemma_entry_keeps_description(d, scan_tags(d, (n - 1) as nat), n - 1);
    }
}

} // verus!

verus! {

/// Trimming keeps a prefix of the text that does not end in NUL, and removes
/// only NUL characters.
pub proof fn law_trim_trailing_nul(s: Seq<char>)
    ensures
        trim_trailing_nul(s).len() <= s.len(),
        trim_trailing_nul(s) == s.subrange(0, trim_trailing_nul(s).len() as int),
        trim_trailing_nul(s).len() > 0 ==> trim_trailing_nul(s).last() != '\0',
        forall|i: int| trim_trailing_nul(s).len() <= i < s.len() ==> s[i] == '\0',
    decreases s.len(),
{
    if s.len() > 0 && s.last() == '\0' {
        law_trim_trailing_nul(s.drop_last());
        let t = trim_trailing_nul(s.drop_last());
        assert(s.drop_last().subrange(0, t.len() as int) =~= s.subrange(0, t.len() as int));
        assert forall|i: int| t.len() <= i < s.len() implies s[i] == '\0' by {
            if i < s.len() - 1 {
                assert(s.drop_last()[i] == s[i]);
            }
        }
    } else {
        assert(s.subrange(0, s.len() as int) =~= s);
    }
}

} // verus!

verus! {

/// A big-endian field is its four bytes weighted by 2^24, 2^16, 2^8 and 1,
/// with nothing lost; the signed reading agrees with it modulo 2^32, is
/// negative exactly when the top bit of the first byte is set, and lies in
/// the 32-bit two's-complement range.
pub proof fn law_big_endian_fields(d: Seq<u8>, i: int)
    requires
        0 <= i,
        i + 4 <= d.len(),
    ensures
        be_u32(d, i) as int == d[i] as int * 16777216 + d[i + 1] as int * 65536 + d[i + 2] as int
            * 256 + d[i + 3] as int,
        be_i32(d, i) == be_u32(d, i) as int || be_i32(d, i) == be_u32(d, i) as int - 4294967296,
        be_i32(d, i) < 0 <==> d[i] >= 0x80,
        -2147483648 <= be_i32(d, i) < 2147483648,
        fixed16_at(d, i).num == be_i32(d, i),
        fixed16_at(d, i).den == 65536,
{
}

} // verus!
