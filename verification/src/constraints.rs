//! Constraint extraction: the {min, max, step} range a leaf's step
//! metadata fixes, for consumers that need numeric bounds.

use vstd::prelude::*;
use crate::codec::{
    Decimal, decode_int, decode_step, pow10, spec_decode_int, spec_step_base, spec_step_exp,
    valid_hex_int,
};
use crate::property::{Binary, Item, Metadata, MetaView};
use crate::types::DomainValue;

verus! {

/// The raw coefficient a step byte encodes, in units of 10^-8: zero when
/// the base digit is zero.
pub open spec fn spec_step_coeff_e8(st: u8) -> int {
    spec_step_base(st) * pow10((spec_step_exp(st) + 8) as nat) as int
}

/// The coefficient the range derivation uses, in units of 10^-8: one when
/// the step byte is zero as a whole, else the raw coefficient.
pub open spec fn spec_range_coeff_e8(st: u8) -> int {
    if st == 0 {
        pow10(8) as int
    } else {
        spec_step_coeff_e8(st)
    }
}

/// Value constraints of a numeric property: the inclusive range and the
/// step between valid values.
#[derive(Clone, Copy, Debug, PartialEq, Eq, Structural)]
pub struct ValueConstraints {
    pub min: Decimal,
    pub max: Decimal,
    pub step: Decimal,
}

impl ValueConstraints {
    /// Constraints from explicit values.
    pub fn new(min: Decimal, max: Decimal, step: Decimal) -> (r: ValueConstraints)
        ensures
            r == (ValueConstraints { min, max, step }),
    {
        ValueConstraints { min, max, step }
    }

    /// Derive constraints from leaf metadata: only step metadata with
    /// well-formed hex bounds carries a range. The bounds are the decoded
    /// hex values scaled by the step coefficient, taken as one when the
    /// step byte is zero; the step is the raw coefficient.
    pub fn from_metadata(metadata: &Metadata) -> (r: Option<ValueConstraints>)
        ensures
            r is Some <==> (metadata@ matches MetaView::Step { min, max, .. }
                && valid_hex_int(min) && valid_hex_int(max)),
            r matches Some(c) ==> metadata@ matches MetaView::Step { step, min, max } && {
                &&& c.min.wf() && c.min.value_e8() == spec_decode_int(min) * spec_range_coeff_e8(
                    step)
                &&& c.max.wf() && c.max.value_e8() == spec_decode_int(max) * spec_range_coeff_e8(
                    step)
                &&& c.step.wf() && c.step.value_e8() == spec_step_coeff_e8(step)
            },
    {
        match metadata {
            Metadata::Binary(Binary::Step(bs)) => {
                let a = match decode_int(bs.min.as_str()) {
                    Ok(v) => v,
                    Err(_) => {
                        return None;
                    },
                };
                let b = match decode_int(bs.max.as_str()) {
                    Ok(v) => v,
                    Err(_) => {
                        return None;
                    },
                };
                let step = decode_step(bs.step);
                let rc = if bs.step == 0 {
                    Decimal::new(1, 0)
                } else {
                    step
                };
                proof {
                    crate::codec::lemma_pow10_le_15(8);
                    assert((a as i64) * rc.mant * pow10((rc.exp + 8) as nat) == (a as int) * (
                    rc.mant * pow10((rc.exp + 8) as nat))) by (nonlinear_arith);
                    assert((b as i64) * rc.mant * pow10((rc.exp + 8) as nat) == (b as int) * (
                    rc.mant * pow10((rc.exp + 8) as nat))) by (nonlinear_arith);
                    assert(-0x8_0000_0000_0000 <= (a as i64) * rc.mant <= 0x8_0000_0000_0000)
                        by (nonlinear_arith)
                        requires
                            -0x8000_0000 <= a <= 0x7FFF_FFFF,
                            0 <= rc.mant <= 15,
                    ;
                    assert(-0x8_0000_0000_0000 <= (b as i64) * rc.mant <= 0x8_0000_0000_0000)
                        by (nonlinear_arith)
                        requires
                            -0x8000_0000 <= b <= 0x7FFF_FFFF,
                            0 <= rc.mant <= 15,
                    ;
                }
                Some(ValueConstraints {
                    min: Decimal { mant: (a as i64) * rc.mant, exp: rc.exp },
                    max: Decimal { mant: (b as i64) * rc.mant, exp: rc.exp },
                    step,
                })
            },
            _ => None,
        }
    }

    /// Derive constraints from the metadata of a typed accessor.
    pub fn from_item<T: DomainValue>(item: &Item<T>) -> (r: Option<ValueConstraints>)
        ensures
            r is Some <==> (item@.meta matches MetaView::Step { min, max, .. }
                && valid_hex_int(min) && valid_hex_int(max)),
            r matches Some(c) ==> item@.meta matches MetaView::Step { step, min, max } && {
                &&& c.min.wf() && c.min.value_e8() == spec_decode_int(min) * spec_range_coeff_e8(
                    step)
                &&& c.max.wf() && c.max.value_e8() == spec_decode_int(max) * spec_range_coeff_e8(
                    step)
                &&& c.step.wf() && c.step.value_e8() == spec_step_coeff_e8(step)
            },
    {
        Self::from_metadata(&item.metadata)
    }
}

} // verus!
