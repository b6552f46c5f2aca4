//! A confirmation gate in front of a destructive disk-imaging command.
//!
//! Before a write to a raw output target is allowed, the target is resolved
//! to a block device, its contents are summarised in a warning, and the
//! user has to confirm with an explicit `y`. A target that is no block
//! device passes unasked; a target whose nature cannot be determined stops
//! the run.
//!
//! The library decides and renders; it runs no tool and reads no input.
//! `protocol` says what its caller is to do, step by step.

pub mod text;
pub mod style;
pub mod json;
pub mod device;
pub mod warning;
pub mod answer;
pub mod args;
pub mod gate;
pub mod protocol;

pub use crate::answer::process_answer;
pub use crate::args::{parse_arguments, plan, unparse_args, ActionPlan, Arguments, OverrideFlag};
pub use crate::device::{DeviceInfo, PartitionInfo, ResolveError};
pub use crate::gate::{GateError, QueryOutcome, Reply};
pub use crate::protocol::Command;
pub use crate::warning::generate_warning_text;
