//! Compiles a caret-prefixed label-description language into an ordered list of
//! absolute-coordinate drawing instructions, and hands those to a drawing backend.
//!
//! The crate is organised in layers. [`text`] holds character-level helpers and [`error`]
//! the diagnostics. [`tools`] is the run-length bitmap codec of the raw-graphic command.
//! [`ast`] is the command model and its grammar, and [`engine`] the modal state machine
//! that turns commands into instructions, together with the backend interface. [`forge`]
//! holds what raster backends decide before they draw, and [`raster`] decodes image files.

pub mod ast;
pub mod engine;
pub mod error;
pub mod forge;
pub mod raster;
pub mod text;
pub mod tools;

pub use engine::{compile, FontManager, Variables, ZplEngine, ZplForgeBackend, ZplInstruction};
pub use error::{ZplError, ZplResult};
