//! Decision logic of a media download helper: what to ask of the downloader,
//! how to read its answer, and whether and how to transcode the result.
//!
//! Nothing here runs a tool or touches a file. The caller does that, as
//! [`pipeline::Pipeline`] tells it to.

pub mod download;
pub mod error;
pub mod media;
pub mod path;
pub mod pipeline;
pub mod processing;
pub mod request;
pub mod text;
pub mod tool;

pub use crate::download::{RequestedDownload, YtDlp, YtDlpJson};
pub use crate::error::Error;
pub use crate::media::{
    MediaSelector, MediaType, ParseMediaTypeError, ParseResolutionError, Resolution,
};
pub use crate::pipeline::Pipeline;
pub use crate::request::{Config, Download};
