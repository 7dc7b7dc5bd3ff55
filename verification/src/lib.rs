//! Protocol schema for one voice-assistant interaction turn: decoding an
//! inbound platform payload into an immutable request record, and encoding
//! an incrementally built response record back into a platform payload.

pub mod action;
pub mod command;
pub mod input;
pub mod output;
pub mod value;

pub use action::ActionType;
pub use input::BussinessInput;
pub use input::DecodeError;
pub use command::ResponseCommand;
pub use command::ResponseCommandType;
pub use output::BussinessOutput;
pub use value::Value;
