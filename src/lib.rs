//! Validation, dispatch and error mapping for a JSON-RPC service that drives a
//! small monochrome display over I2C.
//!
//! A command is turned by [`dispatch::plan`] into the driver calls it makes
//! while it holds the display; the caller runs them under one lock and hands
//! the outcome to [`dispatch::complete`]. Errors are turned into responses by
//! [`error::OledError::translate`].

pub mod dispatch;
pub mod error;
pub mod font;
pub mod panel;
pub mod raster;
pub mod text;
pub mod validate;

pub use dispatch::{complete, plan, Command, Drawing, DriverOp};
pub use error::{ErrorData, OledError, RpcError};
pub use font::Font;
pub use validate::{validate, violations, Axis, Msg, Violation, WriteCommand};
