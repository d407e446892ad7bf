//! The operations of the command line.

pub mod apply;
pub mod applygit;
