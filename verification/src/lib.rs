//! Bootstrap of a pipeline that draws one static quad.
//!
//! Two loader tasks fetch the shader texts and hand them to a bounded
//! channel; the assembler drains the channel until it holds one text of each
//! stage; the builder compiles and links them and binds the program; scene
//! setup uploads the quad and its transforms; one draw follows.
//!
//! Whatever touches the host (the fetches, the suspension of tasks, the
//! graphics context, floating point) is left to the caller. Each component
//! here decides what is to be done next: it takes what the host reports and
//! answers with the next command. The order of the stages is kept by
//! values that only the stage before can hand out: shader sources come from
//! a complete assembler only, and a bound program from a finished build only.

pub mod message;
pub mod channel;
pub mod loader;
pub mod assembler;
pub mod builder;
pub mod upload;
pub mod scene;
