//! Concrete animatable value types: colors and transforms.

pub mod colors;
pub mod transform;
