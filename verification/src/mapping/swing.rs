//! Swing mode mapping for air direction control.
//!
//! The boolean projection only distinguishes "both directions swing" from
//! "both directions auto"; intermediate discrete positions are not
//! representable in it.

use vstd::prelude::*;
use crate::types::{HorizontalDirection, VerticalDirection};

verus! {

/// Whether a vertical direction means that swing mode is on.
pub open spec fn spec_to_enabled(direction: Option<VerticalDirection>) -> bool {
    direction == Some(VerticalDirection::Swing)
}

/// Check whether swing mode is enabled, from the vertical direction.
pub fn to_enabled(direction: Option<VerticalDirection>) -> (r: bool)
    ensures
        r == spec_to_enabled(direction),
{
    matches!(direction, Some(VerticalDirection::Swing))
}

/// The direction pair a swing flag selects: both swing when enabled, both
/// auto when disabled.
pub open spec fn spec_from_enabled(enabled: bool) -> (VerticalDirection, HorizontalDirection) {
    if enabled {
        (VerticalDirection::Swing, HorizontalDirection::Swing)
    } else {
        (VerticalDirection::Auto, HorizontalDirection::Auto)
    }
}

/// Convert a swing flag to the direction pair it selects.
pub fn from_enabled(enabled: bool) -> (r: (VerticalDirection, HorizontalDirection))
    ensures
        r == spec_from_enabled(enabled),
{
    if enabled {
        (VerticalDirection::Swing, HorizontalDirection::Swing)
    } else {
        (VerticalDirection::Auto, HorizontalDirection::Auto)
    }
}

/// Law: the swing flag round-trips. Either flag value maps to a direction
/// pair whose vertical component maps back to the same flag.
pub proof fn lemma_swing_roundtrip(enabled: bool)
    ensures
        spec_to_enabled(Some(spec_from_enabled(enabled).0)) == enabled,
{
}

} // verus!
