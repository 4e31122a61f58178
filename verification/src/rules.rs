use vstd::prelude::*;

pub mod rule;
pub mod rule_with_actions;
