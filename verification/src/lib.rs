//! Instrument control over VISA sessions with the mandatory commands of IEEE 488.2, as
//! a protocol engine: the library classifies what the transport reports, says what the
//! transport is to be asked next, and reads the values out of what instruments answer.
//! It makes no transport call itself.
pub mod commands;
pub mod error;
pub mod instrument;
pub mod register;
pub mod resource_manager;
pub mod session;
pub mod text;
pub mod utility;
