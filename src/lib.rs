//! Build orchestration core: output layout, cargo argument and environment
//! assembly, the linker-intent payload and the cargo event-stream parser.

pub mod error;
pub mod events;
pub mod features;
pub mod link;
pub mod path;
pub mod platform;
pub mod request;
pub mod text;
