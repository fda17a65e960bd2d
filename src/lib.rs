use vstd::prelude::*;

pub mod lcg;
pub mod control;
pub mod scheduler;
pub mod frame;
pub mod fanout;
