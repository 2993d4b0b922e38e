//! A confined directory archiver.
//!
//! Given a directory inside a trusted root (the user's home directory) and an
//! output path whose parent also lies inside that root, the library enumerates
//! the regular files of the directory tree — skipping symbolic links — and
//! packs their contents into a deflate-compressed zip archive whose entry
//! names are the forward-slash relative paths of the files.
//!
//! The crate holds the logic only: path confinement, tree enumeration over a
//! snapshot of the directory structure, and archive construction in memory.
//! Reading the filesystem and writing the archive bytes to disk are left to
//! the embedding application.

pub mod archive;
pub mod errors;
pub mod fstree;
pub mod guard;
pub mod settings;
