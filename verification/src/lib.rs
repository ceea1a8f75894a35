//! Verified core of a small command-line client that uploads the image files
//! of a directory to a remote compression service and stores the compressed
//! bytes it gets back.
//!
//! The library holds everything the tool decides or computes: how the
//! command line is interpreted, how the credential file's contents are
//! produced and read back, which directory entries count as image files,
//! how the upload authorization header and the output file name are built,
//! what a response body means for the rest of a file's processing, and how
//! the compression ratio is computed and rendered. The thin shell that does
//! the actual file, environment and network work lives outside the library
//! and only hands plain values in and out.

pub mod args;
pub mod client;
pub mod paths;
pub mod report;
pub mod scanner;
pub mod store;
pub mod text;
