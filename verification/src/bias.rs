//! The closed set of risk postures the oracle can publish, together with the
//! canonical byte label of each variant used by the commitment codec.

use vstd::prelude::*;

verus! {

/// Market risk posture published by the oracle.
#[derive(Clone, Copy, Debug, PartialEq, Eq, Structural)]
pub enum RiskBias {
    /// Low risk, bullish conditions.
    RiskOn,
    /// Moderate risk.
    Neutral,
    /// High risk, bearish conditions.
    RiskOff,
}

/// The canonical byte label of a bias variant: the variant's name in ASCII
/// ("RiskOn", "Neutral" or "RiskOff"). Commit-side and reveal-side encoders
/// must agree on it byte for byte.
pub open spec fn spec_bias_label(bias: RiskBias) -> Seq<u8> {
    match bias {
        RiskBias::RiskOn => seq![82u8, 105u8, 115u8, 107u8, 79u8, 110u8],
        RiskBias::Neutral => seq![78u8, 101u8, 117u8, 116u8, 114u8, 97u8, 108u8],
        RiskBias::RiskOff => seq![82u8, 105u8, 115u8, 107u8, 79u8, 102u8, 102u8],
    }
}

/// Returns the canonical byte label of `bias`.
pub fn bias_label(bias: RiskBias) -> (r: Vec<u8>)
    ensures
        r@ == spec_bias_label(bias),
{
    let mut out: Vec<u8> = Vec::new();
    match bias {
        RiskBias::RiskOn => {
            out.push(82);
            out.push(105);
            out.push(115);
            out.push(107);
            out.push(79);
            out.push(110);
        }
        RiskBias::Neutral => {
            out.push(78);
            out.push(101);
            out.push(117);
            out.push(116);
            out.push(114);
            out.push(97);
            out.push(108);
        }
        RiskBias::RiskOff => {
            out.push(82);
            out.push(105);
            out.push(115);
            out.push(107);
            out.push(79);
            out.push(102);
            out.push(102);
        }
    }
    proof {
        assert(out@ =~= spec_bias_label(bias));
    }
    out
}

} // verus!
