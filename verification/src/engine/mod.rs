//! The engine: from commands to drawing instructions, and from instructions to a backend.

pub mod backend;
pub mod common;
pub mod engine;
pub mod font;
pub mod intr;
pub mod state;
pub mod vars;

pub use backend::ZplForgeBackend;
pub use common::ZplInstruction;
pub use engine::{compile, ZplEngine};
pub use font::FontManager;
pub use vars::Variables;
