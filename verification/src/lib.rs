//! Rendering slide decks with the Quarto command-line tool.
//!
//! A document carries a YAML header between two `---` lines. This crate
//! validates that header, decides how a document is staged for the tool,
//! where the tool is looked for, what it is handed and where its output is
//! found, and words every failure. It does no input or output of its own:
//! the host decodes the header block, reads the environment, writes files
//! and starts processes, and reports what came of it.
//!
//! - [`header`]: the header validator.
//! - [`resolver`]: the candidate executables and the search path.
//! - [`runner`]: the runner capability and the run over the candidates.
//! - [`render`]: the orchestrator, step by step.
//! - [`transfer`]: handing a rendered file on and saving it.
//! - [`naming`], [`text`]: file names and characters.

pub mod header;
pub mod naming;
pub mod render;
pub mod resolver;
pub mod runner;
pub mod text;
pub mod transfer;
