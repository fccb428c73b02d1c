//! Native side of a desktop downloader shell: the chunk appender that lets
//! the web front end store a large binary payload on disk, one base64
//! chunk at a time.
//!
//! The library decodes each chunk and decides which file requests to make;
//! the host performs those requests and reports back how they went.
pub mod codec;
pub mod error;
pub mod appender;
pub mod laws;
