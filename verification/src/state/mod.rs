//! The program's state accounts and their byte layouts.
pub mod contributor;
pub mod fundraiser;
