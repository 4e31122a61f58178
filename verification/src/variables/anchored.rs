use vstd::prelude::*;

pub mod proxy;
pub mod scalar;
pub mod set;
