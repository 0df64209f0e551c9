//! Command-to-actuation core of a network-attached relay controller.
//!
//! A POST body is admitted by size, decoded into a [`command::Command`],
//! mapped to a [`command::Plan`], and a planned pulse is driven through the
//! guarded state machine of [`actuator`].
pub mod wire;

pub mod actuator;
pub mod command;
pub mod request;
