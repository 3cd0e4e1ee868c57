//! Verified core of the WaterUI command-line tool: template rendering,
//! backend path computation, Android and Apple toolchain rules, device
//! automation helpers, backend version selection and report assembly.

pub mod android;
pub mod backend;
pub mod candidates;
pub mod cli;
pub mod commands;
pub mod create;
pub mod device;
pub mod devices;
pub mod diff;
pub mod paths;
pub mod run;
pub mod scaffold;
pub mod templates;
pub mod text;
pub mod toolchain;
pub mod toolchain_error;
