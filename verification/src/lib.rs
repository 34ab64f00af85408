//! Template-driven rendering of command-line help text.
//!
//! The crate builds a flat variable model from a command description,
//! expands a set of named section templates against that model, and lays
//! the expanded text out against the terminal width, unifying the blocks
//! of one help invocation to a common content width.

pub mod builder;
pub mod env;
pub mod expand;
pub mod model;
pub mod preset;
pub mod printer;
pub mod skin;
pub mod templates;
pub mod text;

pub use model::ArgKind;
pub use model::ArgModel;
pub use model::CommandModel;
pub use model::SubcommandModel;
pub use preset::StylePreset;
pub use printer::LumaClass;
pub use printer::Printer;
