use vstd::prelude::*;

pub mod frame;
pub mod ordering;
pub mod payload;
pub mod engine;
pub mod parametrizable;
pub mod nodes;
