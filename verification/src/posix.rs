//! The POSIX disk-space pipeline: validate that the path names a directory,
//! then retrieve volume statistics.
//!
//! The directory check is explicit because the statistics syscalls accept
//! regular files and report the containing volume either way; without the
//! check a query on a file would silently succeed.

use vstd::prelude::*;
use crate::error::{ErrorDetail, QueryError};
use crate::stats::{sat_mul_u64, sat_sub_u64, VolumeStats};

verus! {

/// Raw output of a filesystem-statistics syscall: a byte-granularity unit
/// (block or fragment size) and three counts measured in that unit.
#[derive(Debug, Clone, Copy, PartialEq, Eq, Structural)]
pub struct RawFsStats {
    pub unit: u64,
    pub blocks: u64,
    pub blocks_free: u64,
    pub blocks_available: u64,
}

/// The description that the OS error table gives for an errno value.
pub uninterp spec fn errno_text(code: i64) -> Seq<char>;

/// Relies on nix::sys::stat::stat for the file mode of the path, and hands
/// back the raw errno on failure. Which outcome comes depends on the state
/// of the filesystem, so nothing more is promised of it.
#[verifier::external_body]
fn stat_mode(path: &Vec<u8>) -> (r: Result<u32, i32>) {
    match nix::sys::stat::stat(path.as_slice()) {
        Ok(st) => Ok(st.st_mode as u32),
        Err(e) => Err(e as i32),
    }
}

/// Relies on nix::sys::statfs::statfs: block size and block counts of the
/// filesystem holding the path (the Linux statistics call), or the raw
/// errno. The values depend on the state of the volume, so nothing more is
/// promised of them.
#[verifier::external_body]
fn statfs_raw(path: &Vec<u8>) -> (r: Result<RawFsStats, i32>) {
    match nix::sys::statfs::statfs(path.as_slice()) {
        Ok(fs) => Ok(
            RawFsStats {
                unit: fs.block_size() as u64,
                blocks: fs.blocks() as u64,
                blocks_free: fs.blocks_free() as u64,
                blocks_available: fs.blocks_available() as u64,
            },
        ),
        Err(e) => Err(e as i32),
    }
}

/// Relies on nix::sys::statvfs::statvfs: fragment size (the canonical byte
/// unit of this call) and block counts of the filesystem holding the path,
/// or the raw errno. The values depend on the state of the volume, so
/// nothing more is promised of them.
#[verifier::external_body]
fn statvfs_raw(path: &Vec<u8>) -> (r: Result<RawFsStats, i32>) {
    match nix::sys::statvfs::statvfs(path.as_slice()) {
        Ok(fs) => Ok(
            RawFsStats {
                unit: fs.fragment_size() as u64,
                blocks: fs.blocks() as u64,
                blocks_free: fs.blocks_free() as u64,
                blocks_available: fs.blocks_available() as u64,
            },
        ),
        Err(e) => Err(e as i32),
    }
}

/// Relies on nix::errno::Errno::desc: a static description table, so the
/// message is a function of the code alone.
#[verifier::external_body]
fn errno_description(code: i32) -> (r: String)
    ensures
        r@ == errno_text(code as i64),
{
    nix::errno::Errno::from_raw(code).desc().to_string()
}

/// Builds the detail payload for an errno: the code widened to a signed
/// 64-bit value and the message the OS error table gives for it.
pub fn errno_detail(code: i32) -> (r: ErrorDetail)
    ensures
        r.code == code as i64,
        r.message@ == errno_text(r.code),
{
    ErrorDetail { code: code as i64, message: errno_description(code) }
}

/// The POSIX directory test on a file mode: the file-type bits hold the
/// directory type.
pub open spec fn mode_is_dir(mode: u32) -> bool {
    mode & 0o170000 == 0o040000
}

/// Executable form of `mode_is_dir`.
pub fn is_directory_mode(mode: u32) -> (r: bool)
    ensures
        r == mode_is_dir(mode),
{
    mode & 0o170000 == 0o040000
}

/// Classifies the outcome of the metadata query. A failed query becomes
/// `NotDirectory` carrying the errno detail (the same kind covers "does not
/// exist" and "exists but inaccessible"; only the detail distinguishes
/// them). A mode without the directory bit becomes `NotDirectory` with no
/// detail. A directory mode passes.
pub fn check_directory(meta: Result<u32, i32>) -> (r: Result<(), QueryError>)
    ensures
        meta matches Ok(m) && mode_is_dir(m) ==> r is Ok,
        meta matches Ok(m) && !mode_is_dir(m) ==> r == Err::<(), QueryError>(
            QueryError::NotDirectory(None),
        ),
        meta matches Err(c) ==> (r matches Err(QueryError::NotDirectory(Some(dd)))
            && dd.code == c as i64 && dd.message@ == errno_text(dd.code)),
{
    match meta {
        Ok(mode) => {
            if is_directory_mode(mode) {
                Ok(())
            } else {
                Err(QueryError::NotDirectory(None))
            }
        },
        Err(code) => Err(QueryError::NotDirectory(Some(errno_detail(code)))),
    }
}

/// Converts the outcome of a statistics syscall into the final result: raw
/// counts are scaled to bytes with `used` derived, and a failure becomes
/// `PlatformStatFailed` carrying the errno detail.
pub fn stats_outcome(raw: Result<RawFsStats, i32>) -> (r: Result<VolumeStats, QueryError>)
    ensures
        raw matches Ok(w) ==> (r matches Ok(s) && s.total == sat_mul_u64(w.blocks, w.unit)
            && s.free == sat_mul_u64(w.blocks_free, w.unit)
            && s.available == sat_mul_u64(w.blocks_available, w.unit)
            && s.used == sat_sub_u64(s.total, s.free) && s.wf()),
        raw matches Err(c) ==> (r matches Err(QueryError::PlatformStatFailed(d))
            && d.code == c as i64 && d.message@ == errno_text(d.code)),
{
    match raw {
        Ok(w) => Ok(VolumeStats::from_blocks(w.blocks, w.blocks_free, w.blocks_available, w.unit)),
        Err(code) => Err(QueryError::PlatformStatFailed(errno_detail(code))),
    }
}

/// Disk-space query over the Linux statistics call (`statfs`; byte counts
/// are block counts scaled by the block size).
///
/// The result is exactly one of: `InvalidPath` on the empty path and on it
/// alone; `NotDirectory` when the metadata query fails (errno detail
/// attached) or the target is not a directory (no detail);
/// `PlatformStatFailed` with errno detail when the statistics call fails;
/// or a well-formed statistics record.
pub fn query_disk_space(path: &Vec<u8>) -> (r: Result<VolumeStats, QueryError>)
    ensures
        path@.len() == 0 <==> (r matches Err(e) && e is InvalidPath),
        r matches Ok(s) ==> s.wf(),
        r matches Err(e) ==> !(e is PathConversionFailed) && !(e is OsApiFailed),
        r matches Err(QueryError::NotDirectory(Some(dd))) ==> dd.message@ == errno_text(
            dd.code,
        ),
        r matches Err(QueryError::PlatformStatFailed(d)) ==> d.message@ == errno_text(d.code),
{
    if path.len() == 0 {
        return Err(QueryError::InvalidPath);
    }
    match check_directory(stat_mode(path)) {
        Ok(()) => stats_outcome(statfs_raw(path)),
        Err(e) => Err(e),
    }
}

/// Disk-space query over the portable POSIX statistics call (`statvfs`;
/// byte counts are block counts scaled by the fragment size). The contract
/// is that of `query_disk_space`.
pub fn query_disk_space_statvfs(path: &Vec<u8>) -> (r: Result<VolumeStats, QueryError>)
    ensures
        path@.len() == 0 <==> (r matches Err(e) && e is InvalidPath),
        r matches Ok(s) ==> s.wf(),
        r matches Err(e) ==> !(e is PathConversionFailed) && !(e is OsApiFailed),
        r matches Err(QueryError::NotDirectory(Some(dd))) ==> dd.message@ == errno_text(
            dd.code,
        ),
        r matches Err(QueryError::PlatformStatFailed(d)) ==> d.message@ == errno_text(d.code),
{
    if path.len() == 0 {
        return Err(QueryError::InvalidPath);
    }
    match check_directory(stat_mode(path)) {
        Ok(()) => stats_outcome(statvfs_raw(path)),
        Err(e) => Err(e),
    }
}

} // verus!
