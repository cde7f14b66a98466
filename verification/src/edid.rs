//! EDID-based display capability detection for HDR auto-configuration.
//!
//! Takes the HDR capabilities from a display's EDID (CTA-861 HDR Static
//! Metadata block) and builds the suggested HDR configuration block.

use vstd::prelude::*;
use vstd::string::*;

use crate::ieee::{law_binary32_zero, Binary32};

verus! {

/// The HDR static metadata of a display, as its EDID decoder reports it.
/// Luminances are in cd/m².
#[derive(Debug, Clone, Copy)]
pub struct HdrStaticMetadata {
    pub desired_content_max_luminance: Binary32,
    pub desired_content_max_frame_avg_luminance: Binary32,
    pub desired_content_min_luminance: Binary32,
    pub type1: bool,
    pub traditional_sdr: bool,
    pub traditional_hdr: bool,
    pub pq: bool,
    pub hlg: bool,
}

/// HDR capabilities extracted from a display's EDID.
#[derive(Debug, Clone, Copy)]
pub struct HdrEdidCapabilities {
    /// Display's desired content max luminance (cd/m²).
    /// Maps to `hdr.max_luminance` / `hdr.max_cll`.
    pub max_luminance: Binary32,
    /// Display's desired content min luminance (cd/m²).
    /// Maps to `hdr.min_luminance`.
    pub min_luminance: Binary32,
    /// Display's desired max frame-average luminance (cd/m²).
    /// Maps to `hdr.max_fall`.
    pub max_fall: Binary32,
    /// Whether the display supports PQ (ST 2084) EOTF.
    pub supports_pq: bool,
    /// Whether the display supports HLG (ARIB STD-B67) EOTF.
    pub supports_hlg: bool,
    /// Whether the display supports HDR10 (Type 1 static metadata).
    pub supports_hdr10: bool,
}

impl HdrEdidCapabilities {
    /// Extract HDR capabilities from a display's HDR static metadata.
    ///
    /// Returns `None` if the display does not advertise HDR support
    /// (its desired max luminance is 0).
    pub fn from_edid(hdr: &HdrStaticMetadata) -> (r: Option<Self>)
        ensures
            r is None <==> hdr.desired_content_max_luminance.spec_is_zero(),
            r is None <==> hdr.desired_content_max_luminance.bits & 0x7fff_ffff == 0,
            r matches Some(c) ==> {
                &&& c.max_luminance == hdr.desired_content_max_luminance
                &&& c.min_luminance == hdr.desired_content_min_luminance
                &&& c.max_fall == hdr.desired_content_max_frame_avg_luminance
                &&& c.supports_pq == hdr.pq
                &&& c.supports_hlg == hdr.hlg
                &&& c.supports_hdr10 == hdr.type1
            },
    {
        // A zero max luminance means the display doesn't advertise HDR capabilities.
        proof {
            law_binary32_zero(hdr.desired_content_max_luminance);
        }
        if hdr.desired_content_max_luminance.is_zero() {
            return None;
        }
        Some(
            Self {
                max_luminance: hdr.desired_content_max_luminance,
                min_luminance: hdr.desired_content_min_luminance,
                max_fall: hdr.desired_content_max_frame_avg_luminance,
                supports_pq: hdr.pq,
                supports_hlg: hdr.hlg,
                supports_hdr10: hdr.type1,
            },
        )
    }
}

/// The transfer function that the suggested configuration names: HLG only
/// for a display with HLG and without PQ.
pub open spec fn spec_config_transfer_function(caps: HdrEdidCapabilities) -> Seq<char> {
    if caps.supports_hlg && !caps.supports_pq {
        "hlg"@
    } else {
        "pq"@
    }
}

/// The suggested KDL block for `connector`, given the text of the luminances
/// and the name of the transfer function.
#[verifier::opaque]
pub open spec fn spec_hdr_config(
    connector: Seq<char>,
    max_luminance: Seq<char>,
    min_luminance: Seq<char>,
    max_fall: Seq<char>,
    transfer_function: Seq<char>,
) -> Seq<char> {
    "output \""@ + connector + "\" {\n    hdr {\n        enabled true\n        max-luminance "@
        + max_luminance + "\n        min-luminance "@ + min_luminance + "\n        max-cll "@
        + max_luminance + "\n        max-fall "@ + max_fall + "\n        transfer-function "@
        + transfer_function + "\n    }\n}"@
}

/// The suggested block, built piece by piece.
fn build_hdr_config(
    connector: &str,
    max_luminance: &str,
    min_luminance: &str,
    max_fall: &str,
    tf: &str,
) -> (r: String)
    ensures
        r@ == spec_hdr_config(connector@, max_luminance@, min_luminance@, max_fall@, tf@),
{
    let mut r = String::from_str("output \"");
    r.append(connector);
    r.append("\" {\n    hdr {\n        enabled true\n        max-luminance ");
    r.append(max_luminance);
    r.append("\n        min-luminance ");
    r.append(min_luminance);
    r.append("\n        max-cll ");
    r.append(max_luminance);
    r.append("\n        max-fall ");
    r.append(max_fall);
    r.append("\n        transfer-function ");
    r.append(tf);
    r.append("\n    }\n}");
    proof {
        reveal(spec_hdr_config);
    }
    r
}

/// Generate a recommended HDR config block (KDL) from EDID capabilities.
///
/// `max_luminance`, `min_luminance` and `max_fall` are the decimal text of the
/// corresponding capabilities; MaxCLL is suggested equal to the max luminance.
pub fn generate_hdr_config(
    connector: &str,
    caps: &HdrEdidCapabilities,
    max_luminance: &str,
    min_luminance: &str,
    max_fall: &str,
) -> (r: String)
    ensures
        r@ == spec_hdr_config(
            connector@,
            max_luminance@,
            min_luminance@,
            max_fall@,
            spec_config_transfer_function(*caps),
        ),
        r@.subrange(0, 8) == seq!['o', 'u', 't', 'p', 'u', 't', ' ', '"'],
        r@.subrange(8, 8 + connector@.len() as int) == connector@,
        r@.subrange(8 + connector@.len() as int, 11 + connector@.len() as int) == seq![
            '"',
            ' ',
            '{',
        ],
        caps.supports_pq ==> r@.subrange(r@.len() - 10, r@.len() - 8) == seq!['p', 'q'],
        caps.supports_hlg && !caps.supports_pq ==> r@.subrange(r@.len() - 11, r@.len() - 8)
            == seq!['h', 'l', 'g'],
{
    let tf = if caps.supports_hlg && !caps.supports_pq {
        "hlg"
    } else {
        "pq"
    };
    let r = build_hdr_config(connector, max_luminance, min_luminance, max_fall, tf);
    proof {
        law_config_text(connector@, max_luminance@, min_luminance@, max_fall@, tf@);
        law_config_transfer_function(*caps);
    }
    r
}

} // verus!

verus! {

/// The suggested block opens with `output "`, the whole connector name and
/// `" {`; it ends with the transfer-function line and two closing braces; and,
/// line by line, it enables HDR and gives max luminance, min luminance, MaxCLL
/// (the max luminance again), MaxFALL and the transfer function.
pub proof fn law_config_text(
    connector: Seq<char>,
    max_luminance: Seq<char>,
    min_luminance: Seq<char>,
    max_fall: Seq<char>,
    transfer_function: Seq<char>,
)
    ensures
        ({
            let r = spec_hdr_config(
                connector,
                max_luminance,
                min_luminance,
                max_fall,
                transfer_function,
            );
            &&& r.subrange(0, 8) == seq!['o', 'u', 't', 'p', 'u', 't', ' ', '"']
            &&& r.subrange(8, 8 + connector.len() as int) == connector
            &&& r.subrange(8 + connector.len() as int, 11 + connector.len() as int) == seq!['"', ' ', '{']
            &&& r.subrange(r.len() - 8 - transfer_function.len(), r.len() - 8)
                == transfer_function
            &&& r.subrange(r.len() - 8, r.len() as int) == seq![
                '\n',
                ' ',
                ' ',
                ' ',
                ' ',
                '}',
                '\n',
                '}',
            ]
            &&& r == "output \""@ + connector + "\" {\n"@ + "    hdr {\n"@
                + "        enabled true\n"@ + "        max-luminance "@ + max_luminance + "\n"@
                + "        min-luminance "@ + min_luminance + "\n"@ + "        max-cll "@
                + max_luminance + "\n"@ + "        max-fall "@ + max_fall + "\n"@
                + "        transfer-function "@ + transfer_function + "\n"@ + "    }\n"@ + "}"@
        }),
{
    reveal(spec_hdr_config);
    reveal_strlit("output \"");
    reveal_strlit("\" {\n    hdr {\n        enabled true\n        max-luminance ");
    reveal_strlit("\n        min-luminance ");
    reveal_strlit("\n        max-cll ");
    reveal_strlit("\n        max-fall ");
    reveal_strlit("\n        transfer-function ");
    reveal_strlit("\n    }\n}");
    reveal_strlit("\" {\n");
    reveal_strlit("    hdr {\n");
    reveal_strlit("        enabled true\n");
    reveal_strlit("        max-luminance ");
    reveal_strlit("\n");
    reveal_strlit("        min-luminance ");
    reveal_strlit("        max-cll ");
    reveal_strlit("        max-fall ");
    reveal_strlit("        transfer-function ");
    reveal_strlit("    }\n");
    reveal_strlit("}");
    let r = spec_hdr_config(connector, max_luminance, min_luminance, max_fall, transfer_function);
    let lines = "output \""@ + connector + "\" {\n"@ + "    hdr {\n"@ + "        enabled true\n"@
        + "        max-luminance "@ + max_luminance + "\n"@ + "        min-luminance "@
        + min_luminance + "\n"@ + "        max-cll "@ + max_luminance + "\n"@
        + "        max-fall "@ + max_fall + "\n"@ + "        transfer-function "@
        + transfer_function + "\n"@ + "    }\n"@ + "}"@;
    assert(r =~= lines);
    assert(r.subrange(0, 8) =~= seq!['o', 'u', 't', 'p', 'u', 't', ' ', '"']);
    assert(r.subrange(8, 8 + connector.len() as int) =~= connector);
    assert(r.subrange(8 + connector.len() as int, 11 + connector.len() as int) =~= seq!['"', ' ', '{']);
    assert(r.subrange(r.len() - 8 - transfer_function.len(), r.len() - 8) =~= transfer_function);
    assert(r.subrange(r.len() - 8, r.len() as int) =~= seq![
        '\n',
        ' ',
        ' ',
        ' ',
        ' ',
        '}',
        '\n',
        '}',
    ]);
}

/// The suggested transfer function is HLG exactly for a display with HLG and
/// without PQ, and PQ otherwise.
pub proof fn law_config_transfer_function(caps: HdrEdidCapabilities)
    ensures
        caps.supports_pq ==> spec_config_transfer_function(caps) == seq!['p', 'q'],
        !caps.supports_hlg ==> spec_config_transfer_function(caps) == seq!['p', 'q'],
        caps.supports_hlg && !caps.supports_pq ==> spec_config_transfer_function(caps) == seq![
            'h',
            'l',
            'g',
        ],
{
    reveal_strlit("hlg");
    reveal_strlit("pq");
    assert("pq"@ =~= seq!['p', 'q']);
    assert("hlg"@ =~= seq!['h', 'l', 'g']);
}

} // verus!
