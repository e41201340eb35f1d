//! Disk-space inquiry: given a filesystem path, determine whether it names a
//! directory and, if so, report the capacity, free space, available space and
//! used space of the volume that contains it.
//!
//! The pipeline is normalize -> validate -> retrieve. `posix` holds the
//! POSIX pipeline (directory check via `stat`, statistics via `statfs` or
//! `statvfs`); `winpath` holds the Windows-side path normalization (long-path
//! rewriting and UTF-16 transcoding) and the decision logic around the
//! Windows attribute and free-space calls, which an embedding layer performs.

pub mod error;
pub mod posix;
pub mod stats;
pub mod winpath;
