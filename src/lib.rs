//! A two-field record, its canonical pretty-printed JSON text, and a gzip
//! container around that text.

pub mod error;
pub mod gzip;
pub mod laws;
pub mod pipeline;
pub mod record;
pub mod text;

pub use error::DecodeError;
pub use pipeline::basic_gzip_str;
pub use record::TestJson;
