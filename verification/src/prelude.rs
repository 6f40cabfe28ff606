//! The items most callers need.

pub use crate::trident::{BevyTridentArrow, BevyTridentAxis, BevyTridentCone};
pub use crate::viewcube::BevyViewCubePlugin;
