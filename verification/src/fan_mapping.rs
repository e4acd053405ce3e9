//! Fan speed mapping on the legacy 1-to-7 scale, with the constraints a
//! consumer advertises for it.

use vstd::prelude::*;
use crate::codec::{Decimal, pow10};
use crate::constraints::ValueConstraints;

pub use crate::mapping::fan::{scale_to_auto_mode, scale_to_speed, speed_to_scale};

verus! {

/// The constraints of the legacy fan speed scale: 0 to 7 in steps of 1.
pub fn fan_speed_constraints() -> (r: ValueConstraints)
    ensures
        r.min.wf() && r.min.value_e8() == 0,
        r.max.wf() && r.max.value_e8() == 7 * pow10(8),
        r.step.wf() && r.step.value_e8() == 1 * pow10(8),
{
    ValueConstraints::new(Decimal::from_int(0), Decimal::from_int(7), Decimal::from_int(1))
}

} // verus!
