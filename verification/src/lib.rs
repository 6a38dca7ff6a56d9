//! Recovers the structural layout of a ZIP container from a seekable,
//! in-memory byte source: the end-of-central-directory record, the central
//! directory entries it points to, and the local file header of each entry
//! together with its raw payload.
//!
//! Nothing is decompressed and no archive is modified.

pub mod endian;
pub mod io;
pub mod read_ext;
pub mod zip_error;
pub mod zip_eocd;
pub mod zip_central_directory;
pub mod zip_local_file_header;
