//! Label print service core: request normalization, the renderer's data-file
//! format, configuration defaults, and the print pipeline's step-by-step
//! decisions, each with a verified contract. Process launching, filesystem
//! writes and the HTTP surface live outside this crate and drive the pipeline
//! through the step functions exported here.

pub mod config;
pub mod pipeline;
pub mod request;
pub mod yaml;
