//! Mode mapping under the names the accessory bridge uses.

pub use crate::mapping::mode::{from_target_state, to_current_state, to_target_state};
