use vstd::prelude::*;

pub mod anchored;
pub mod exclusion;
pub mod origin;
pub mod pattern;
pub mod value;
