//! Converts scene files authored in Blender into glTF interchange formats by
//! driving the external `blender` executable as a batch interpreter.
//!
//! The library holds the verified core: the model of file paths, the export
//! directive builder, the executable-discovery state machine, and the
//! directory-conversion pipeline. Every process launch and filesystem touch is
//! performed by the embedding application, which feeds the outcomes back into
//! the state machines defined here.

pub mod convert;
pub mod locator;
pub mod path;
pub mod pipeline;
pub mod script;

pub use convert::ConversionOptions;
pub use convert::Error;
pub use locator::BlenderExecutable;
pub use path::FilePath;
pub use script::OutputFormat;
