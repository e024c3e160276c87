//! The tunnel controller: one authenticated session, one local listener and
//! any number of forwarded connections, opened and torn down as a whole.

pub mod controller;
pub mod model;
pub mod theorems;
