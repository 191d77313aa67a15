//! Declarations of the outside code that the library calls.
pub mod dash;
pub mod http_head;
pub mod random;
pub mod range;
pub mod text;
pub mod time;
