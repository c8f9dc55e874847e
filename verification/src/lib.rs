//! A process-orchestration shim for external HTML-to-PDF and HTML-to-image
//! rendering tools.
//!
//! The library validates per-facade option tables, serializes them into
//! command-line tokens, computes collision-resistant output paths, and maps
//! the exit of the external process to a typed outcome. The embedding program
//! performs the actual process and filesystem work and feeds the results back
//! through the types of this crate.

mod app;
pub mod args;
pub mod img;
pub mod pdf;
pub mod runner;

pub use app::App;
pub use app::WkhtmlError;
pub use app::WkhtmlInput;
pub use img::ImgApp;
pub use img::ImgFormat;
pub use pdf::PdfApp;
pub use runner::Core;
pub use runner::ProcessOutcome;
pub use runner::RenderJob;
