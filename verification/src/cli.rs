//! The arguments of the top-level commands and the names they show for
//! their target platforms.

pub mod build_cmd;
pub mod clean;
pub mod create;
pub mod devices;
pub mod doctor;
pub mod package;
pub mod run;
