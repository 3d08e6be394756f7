//! Conversion of HTML documents to PDF files through a headless browser:
//! paper sizes, path bookkeeping, job lists and the conversion session.

pub mod errors;
pub mod paper;
pub mod utils;
pub mod options;
pub mod jobs;
pub mod converter;
pub mod logging;
