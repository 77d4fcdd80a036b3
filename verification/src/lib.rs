//! Control plane of a desktop shell: supervision of one worker process and a
//! relay for outbound HTTP calls, as decisions over plain values.

pub mod http;
pub mod lifecycle;
pub mod path;
pub mod supervisor;
pub mod text;
