//! Prompt design, request shaping and response handling for an 8-bit
//! chiptune generator that talks to a text-to-audio model.

pub mod api_key;
pub mod codec;
pub mod design;
pub mod lyria;
pub mod server;
pub mod text;
