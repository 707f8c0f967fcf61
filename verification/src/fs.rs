//! File metadata for the platform filesystem.
//!
//! The platform names files by byte-string paths and reports metadata as a
//! stat record of mode bits, size and timestamps. This module models that
//! metadata as plain values — permissions, file types, open options and the
//! stat-to-wall-clock conversion — together with the operations the
//! platform does not support at all, which fail uniformly. The actual
//! system calls happen outside this library and hand their results in as
//! plain values.

use crate::time::{DateTime, SystemTime};
use vstd::prelude::*;

verus! {

/// Error from a filesystem operation.
#[derive(Debug, Clone, Copy, PartialEq, Eq, Structural)]
pub enum FsError {
    /// The operation is not supported on this platform.
    Unsupported,
    /// A path was too long for the platform's fixed path buffers.
    PathTooLong,
    /// An error code reported by the platform (negative).
    Os(i32),
}

/// The uniform failure for operations this platform does not have.
pub fn unsupported<T>() -> (r: Result<T, FsError>)
    ensures
        r == Err::<T, FsError>(FsError::Unsupported),
{
    Err(unsupported_err())
}

/// The error value those operations return.
pub fn unsupported_err() -> (r: FsError)
    ensures
        r == FsError::Unsupported,
{
    FsError::Unsupported
}

/// Stat mode bit marking a directory.
pub const FIO_S_IFDIR: u32 = 0x1000;

/// Stat mode bit marking a regular file.
pub const FIO_S_IFREG: u32 = 0x2000;

/// Stat mode bit for write permission.
pub const FIO_S_IWRITE: u32 = 0x0002;

/// A stat record as the platform reports it: mode bits, attributes, size
/// and the three timestamps.
#[derive(Debug, Clone, Copy, PartialEq, Eq, Structural)]
pub struct FileStat {
    /// Permissions and file-type bits.
    pub mode: u32,
    /// Platform attribute bits.
    pub attr: u32,
    /// File size in bytes.
    pub size: i64,
    /// Creation time.
    pub ctime: DateTime,
    /// Access time.
    pub atime: DateTime,
    /// Modification time.
    pub mtime: DateTime,
}

/// File metadata: a thin wrapper around the stat record.
#[derive(Debug, Clone, Copy, PartialEq, Eq, Structural)]
pub struct FileAttr {
    /// The underlying stat record.
    pub stat: FileStat,
}

/// File permissions, reduced to the platform's write bit.
#[derive(Debug, Clone, Copy, PartialEq, Eq, Structural)]
pub struct FilePermissions {
    /// The raw mode bits.
    pub mode: u32,
}

/// The file-type bits of a stat mode.
#[derive(Debug, Clone, Copy, PartialEq, Eq, Structural)]
pub struct FileType {
    /// The raw mode bits.
    pub mode: u32,
}

/// Requested file timestamps. The platform cannot set timestamps, so this
/// carries nothing.
#[derive(Debug, Clone, Copy, PartialEq, Eq, Structural, Default)]
pub struct FileTimes {}

/// Builder for the timestamp-less directory creation call.
#[derive(Debug, Clone, Copy, PartialEq, Eq, Structural)]
pub struct DirBuilder {
    /// The mode new directories are created with.
    pub mode: i32,
}

/// Seconds from the platform epoch (year 1) to the Unix epoch.
pub const EPOCH_DIFF_SECS: u64 = 62_135_596_800;

/// Days from the Unix epoch to a calendar date, by shifting to a
/// March-based year and counting era days.
pub open spec fn spec_days_from_civil(y: int, m: int, d: int) -> int {
    let ya = if m <= 2 {
        y - 1
    } else {
        y
    };
    let ma = if m <= 2 {
        m + 9
    } else {
        m - 3
    };
    365 * ya + ya / 4 - ya / 100 + ya / 400 + (ma * 306 + 5) / 10 + d - 1 - 719468
}

/// The wall-clock value a stat timestamp denotes, in microseconds since
/// the platform epoch. An all-zero (unset) timestamp denotes the Unix
/// epoch; a date before the Unix epoch drops the sub-second part; a date
/// before the platform epoch clamps to the Unix epoch.
pub open spec fn spec_datetime_to_micros(dt: DateTime) -> int {
    if dt.year == 0 {
        EPOCH_DIFF_SECS * 1_000_000
    } else {
        let days = spec_days_from_civil(dt.year as int, dt.month as int, dt.day as int);
        let secs = days * 86400 + dt.hour * 3600 + dt.minute * 60 + dt.second;
        let nanos = ((dt.microsecond * 1000) as u32) as int;
        if secs >= 0 {
            EPOCH_DIFF_SECS * 1_000_000 + secs * 1_000_000 + nanos / 1000
        } else if -secs <= EPOCH_DIFF_SECS {
            EPOCH_DIFF_SECS * 1_000_000 + secs * 1_000_000
        } else {
            EPOCH_DIFF_SECS * 1_000_000
        }
    }
}

/// Convert a stat timestamp to a wall-clock time, by calendar arithmetic
/// over a March-based year.
pub fn datetime_to_system_time(dt: &DateTime) -> (r: SystemTime)
    ensures
        r.micros == spec_datetime_to_micros(*dt),
{
    if dt.year == 0 {
        return SystemTime { micros: EPOCH_DIFF_SECS * 1_000_000 };
    }
    let y: u64 = dt.year as u64;
    let m: u64 = dt.month as u64;
    let d: u64 = dt.day as u64;
    let ya: u64 = if m <= 2 {
        y - 1
    } else {
        y
    };
    let ma: u64 = if m <= 2 {
        m + 9
    } else {
        m - 3
    };
    let era: i64 = (365 * ya) as i64 + (ya / 4) as i64 - (ya / 100) as i64 + (ya / 400) as i64 + ((
    ma * 306 + 5) / 10) as i64 + d as i64 - 1;
    proof {
        vstd::arithmetic::div_mod::lemma_fundamental_div_mod((ma * 306 + 5) as int, 10);
        vstd::arithmetic::div_mod::lemma_mod_bound((ma * 306 + 5) as int, 10);
        vstd::arithmetic::div_mod::lemma_fundamental_div_mod(ya as int, 4);
        vstd::arithmetic::div_mod::lemma_mod_bound(ya as int, 4);
        vstd::arithmetic::div_mod::lemma_fundamental_div_mod(ya as int, 100);
        vstd::arithmetic::div_mod::lemma_mod_bound(ya as int, 100);
        vstd::arithmetic::div_mod::lemma_fundamental_div_mod(ya as int, 400);
        vstd::arithmetic::div_mod::lemma_mod_bound(ya as int, 400);
    }
    let days: i64 = era - 719_468;
    let secs: i64 = days * 86400 + (dt.hour as i64) * 3600 + (dt.minute as i64) * 60
        + dt.second as i64;
    let nanos: u32 = #[verifier::truncate] ((dt.microsecond as u64 * 1000) as u32);
    proof {
        assert(days as int == spec_days_from_civil(dt.year as int, dt.month as int, dt.day as int));
    }
    if secs >= 0 {
        let micros: u64 = EPOCH_DIFF_SECS * 1_000_000 + (secs as u64) * 1_000_000 + (nanos as u64)
            / 1000;
        SystemTime { micros }
    } else {
        let back: u64 = ((-secs) as u64) * 1_000_000;
        if back <= EPOCH_DIFF_SECS * 1_000_000 {
            SystemTime { micros: EPOCH_DIFF_SECS * 1_000_000 - back }
        } else {
            SystemTime { micros: EPOCH_DIFF_SECS * 1_000_000 }
        }
    }
}

impl FileAttr {
    /// File size in bytes, as an unsigned count.
    pub fn size(&self) -> (r: u64)
        requires
            self.stat.size >= 0,
        ensures
            r == self.stat.size,
    {
        self.stat.size as u64
    }

    /// The permission bits.
    pub fn perm(&self) -> (r: FilePermissions)
        ensures
            r.mode == self.stat.mode,
    {
        FilePermissions { mode: self.stat.mode }
    }

    /// The file-type bits.
    pub fn file_type(&self) -> (r: FileType)
        ensures
            r.mode == self.stat.mode,
    {
        FileType { mode: self.stat.mode }
    }

    /// Modification time as a wall-clock value.
    pub fn modified(&self) -> (r: Result<SystemTime, FsError>)
        ensures
            r matches Ok(t) && t.micros == spec_datetime_to_micros(self.stat.mtime),
    {
        Ok(datetime_to_system_time(&self.stat.mtime))
    }

    /// Access time as a wall-clock value.
    pub fn accessed(&self) -> (r: Result<SystemTime, FsError>)
        ensures
            r matches Ok(t) && t.micros == spec_datetime_to_micros(self.stat.atime),
    {
        Ok(datetime_to_system_time(&self.stat.atime))
    }

    /// Creation time as a wall-clock value.
    pub fn created(&self) -> (r: Result<SystemTime, FsError>)
        ensures
            r matches Ok(t) && t.micros == spec_datetime_to_micros(self.stat.ctime),
    {
        Ok(datetime_to_system_time(&self.stat.ctime))
    }
}

impl FilePermissions {
    /// Whether the write bit is clear.
    pub fn readonly(&self) -> (r: bool)
        ensures
            r == (self.mode & FIO_S_IWRITE == 0),
    {
        (self.mode & FIO_S_IWRITE) == 0
    }

    /// Set or clear the write bit.
    pub fn set_readonly(&mut self, readonly: bool)
        ensures
            readonly ==> final(self).mode == old(self).mode & !FIO_S_IWRITE,
            !readonly ==> final(self).mode == old(self).mode | FIO_S_IWRITE,
    {
        if readonly {
            self.mode = self.mode & !FIO_S_IWRITE;
        } else {
            self.mode = self.mode | FIO_S_IWRITE;
        }
    }
}

impl FileTimes {
    /// Recorded for interface parity; the platform cannot apply it.
    pub fn set_accessed(&mut self, _t: SystemTime)
        ensures
            *final(self) == *old(self),
    {
    }

    /// Recorded for interface parity; the platform cannot apply it.
    pub fn set_modified(&mut self, _t: SystemTime)
        ensures
            *final(self) == *old(self),
    {
    }
}

impl FileType {
    /// Whether the directory bit is set.
    pub fn is_dir(&self) -> (r: bool)
        ensures
            r == (self.mode & FIO_S_IFDIR != 0),
    {
        (self.mode & FIO_S_IFDIR) != 0
    }

    /// Whether the regular-file bit is set.
    pub fn is_file(&self) -> (r: bool)
        ensures
            r == (self.mode & FIO_S_IFREG != 0),
    {
        (self.mode & FIO_S_IFREG) != 0
    }

    /// The platform has no symbolic links.
    pub fn is_symlink(&self) -> (r: bool)
        ensures
            r == false,
    {
        false
    }
}

/// Options for opening a file, mapped to the platform's open flags.
#[derive(Debug, Clone, Copy, PartialEq, Eq, Structural)]
pub struct OpenOptions {
    /// Open for reading.
    pub read: bool,
    /// Open for writing.
    pub write: bool,
    /// Append to the end.
    pub append: bool,
    /// Truncate on open.
    pub truncate: bool,
    /// Create if missing.
    pub create: bool,
    /// Create and fail if present.
    pub create_new: bool,
    /// Creation mode bits.
    pub mode: i32,
}

/// Open flag: read only.
pub const O_RDONLY: i32 = 0x0001;

/// Open flag: write only.
pub const O_WRONLY: i32 = 0x0002;

/// Open flag: read and write.
pub const O_RDWR: i32 = 0x0003;

/// Open flag: append.
pub const O_APPEND: i32 = 0x0100;

/// Open flag: create if missing.
pub const O_CREAT: i32 = 0x0200;

/// Open flag: truncate.
pub const O_TRUNC: i32 = 0x0400;

/// Open flag: fail if it exists.
pub const O_EXCL: i32 = 0x0800;

/// The platform open flags an option set denotes.
pub open spec fn spec_open_flags(o: OpenOptions) -> i32 {
    let acc = if o.read && o.write {
        O_RDWR
    } else if o.write {
        O_WRONLY
    } else {
        O_RDONLY
    };
    let acc = if o.append {
        acc | O_APPEND
    } else {
        acc
    };
    let acc = if o.truncate {
        acc | O_TRUNC
    } else {
        acc
    };
    let acc = if o.create {
        acc | O_CREAT
    } else {
        acc
    };
    if o.create_new {
        acc | O_CREAT | O_EXCL
    } else {
        acc
    }
}

impl OpenOptions {
    /// The default option set: nothing enabled, mode 0777.
    pub fn new() -> (r: OpenOptions)
        ensures
            r == (OpenOptions {
                read: false,
                write: false,
                append: false,
                truncate: false,
                create: false,
                create_new: false,
                mode: 0o777,
            }),
    {
        OpenOptions {
            read: false,
            write: false,
            append: false,
            truncate: false,
            create: false,
            create_new: false,
            mode: 0o777,
        }
    }

    /// Set the read flag.
    pub fn read(&mut self, read: bool)
        ensures
            *final(self) == (OpenOptions { read, ..*old(self) }),
    {
        self.read = read;
    }

    /// Set the write flag.
    pub fn write(&mut self, write: bool)
        ensures
            *final(self) == (OpenOptions { write, ..*old(self) }),
    {
        self.write = write;
    }

    /// Set the append flag.
    pub fn append(&mut self, append: bool)
        ensures
            *final(self) == (OpenOptions { append, ..*old(self) }),
    {
        self.append = append;
    }

    /// Set the truncate flag.
    pub fn truncate(&mut self, truncate: bool)
        ensures
            *final(self) == (OpenOptions { truncate, ..*old(self) }),
    {
        self.truncate = truncate;
    }

    /// Set the create flag.
    pub fn create(&mut self, create: bool)
        ensures
            *final(self) == (OpenOptions { create, ..*old(self) }),
    {
        self.create = create;
    }

    /// Set the create-new flag.
    pub fn create_new(&mut self, create_new: bool)
        ensures
            *final(self) == (OpenOptions { create_new, ..*old(self) }),
    {
        self.create_new = create_new;
    }

    /// The platform open flags this option set denotes.
    pub fn open_flags(&self) -> (r: i32)
        ensures
            r == spec_open_flags(*self),
    {
        let mut flags: i32 = if self.read && self.write {
            O_RDWR
        } else if self.write {
            O_WRONLY
        } else {
            O_RDONLY
        };
        if self.append {
            flags = flags | O_APPEND;
        }
        if self.truncate {
            flags = flags | O_TRUNC;
        }
        if self.create {
            flags = flags | O_CREAT;
        }
        if self.create_new {
            flags = flags | O_CREAT | O_EXCL;
        }
        flags
    }
}

/// A path as a NUL-terminated byte buffer for the platform calls:
/// the path bytes followed by one 0, rejected when 256 bytes or longer.
pub fn path_to_cstr(path: &[u8]) -> (r: Result<Vec<u8>, FsError>)
    ensures
        path@.len() < 256 ==> (r matches Ok(b) && b@ == path@.push(0u8)),
        path@.len() >= 256 ==> r == Err::<Vec<u8>, FsError>(FsError::PathTooLong),
{
    if path.len() >= 256 {
        return Err(FsError::PathTooLong);
    }
    let mut buf: Vec<u8> = Vec::new();
    let mut i: usize = 0;
    while i < path.len()
        invariant
            i <= path@.len(),
            buf@ == path@.subrange(0, i as int),
        decreases path@.len() - i,
    {
        buf.push(path[i]);
        i = i + 1;
    }
    buf.push(0);
    proof {
        assert(buf@ == path@.push(0u8));
    }
    Ok(buf)
}

/// An open file: the descriptor the platform granted. Reading and writing
/// go through the platform calls outside this library.
pub struct File {
    /// The granted descriptor.
    pub fd: i32,
}

impl File {
    /// Record an open outcome: a non-negative descriptor becomes a file,
    /// a negative return becomes the error code.
    pub fn from_open_result(fd: i32) -> (r: Result<File, FsError>)
        ensures
            fd >= 0 ==> (r matches Ok(f) && f.fd == fd),
            fd < 0 ==> r == Err::<File, FsError>(FsError::Os(fd)),
    {
        if fd < 0 {
            Err(FsError::Os(fd))
        } else {
            Ok(File { fd })
        }
    }

    /// The platform cannot stat an open descriptor.
    pub fn file_attr(&self) -> (r: Result<FileAttr, FsError>)
        ensures
            r == Err::<FileAttr, FsError>(FsError::Unsupported),
    {
        unsupported()
    }

    /// Writes are synchronous on this platform; nothing to flush.
    pub fn fsync(&self) -> (r: Result<(), FsError>)
        ensures
            r == Ok::<(), FsError>(()),
    {
        Ok(())
    }

    /// Writes are synchronous on this platform; nothing to flush.
    pub fn datasync(&self) -> (r: Result<(), FsError>)
        ensures
            r == Ok::<(), FsError>(()),
    {
        Ok(())
    }

    /// File locks are not supported.
    pub fn lock(&self) -> (r: Result<(), FsError>)
        ensures
            r == Err::<(), FsError>(FsError::Unsupported),
    {
        unsupported()
    }

    /// File locks are not supported.
    pub fn lock_shared(&self) -> (r: Result<(), FsError>)
        ensures
            r == Err::<(), FsError>(FsError::Unsupported),
    {
        unsupported()
    }

    /// File locks are not supported.
    pub fn try_lock(&self) -> (r: Result<(), FsError>)
        ensures
            r == Err::<(), FsError>(FsError::Unsupported),
    {
        unsupported()
    }

    /// File locks are not supported.
    pub fn try_lock_shared(&self) -> (r: Result<(), FsError>)
        ensures
            r == Err::<(), FsError>(FsError::Unsupported),
    {
        unsupported()
    }

    /// File locks are not supported.
    pub fn unlock(&self) -> (r: Result<(), FsError>)
        ensures
            r == Err::<(), FsError>(FsError::Unsupported),
    {
        unsupported()
    }

    /// Truncation of an open file is not supported.
    pub fn truncate(&self, _size: u64) -> (r: Result<(), FsError>)
        ensures
            r == Err::<(), FsError>(FsError::Unsupported),
    {
        unsupported()
    }

    /// Reads are not vectored on this platform.
    pub fn is_read_vectored(&self) -> (r: bool)
        ensures
            r == false,
    {
        false
    }

    /// Writes are not vectored on this platform.
    pub fn is_write_vectored(&self) -> (r: bool)
        ensures
            r == false,
    {
        false
    }

    /// Writes are synchronous; flushing is a no-op.
    pub fn flush(&self) -> (r: Result<(), FsError>)
        ensures
            r == Ok::<(), FsError>(()),
    {
        Ok(())
    }

    /// The size is not known from the descriptor alone.
    pub fn size(&self) -> (r: Option<Result<u64, FsError>>)
        ensures
            r == None::<Result<u64, FsError>>,
    {
        None
    }

    /// Descriptors cannot be duplicated.
    pub fn duplicate(&self) -> (r: Result<File, FsError>)
        ensures
            r == Err::<File, FsError>(FsError::Unsupported),
    {
        unsupported()
    }

    /// Permissions cannot be changed through a descriptor.
    pub fn set_permissions(&self, _perm: FilePermissions) -> (r: Result<(), FsError>)
        ensures
            r == Err::<(), FsError>(FsError::Unsupported),
    {
        unsupported()
    }

    /// Timestamps cannot be set.
    pub fn set_times(&self, _times: FileTimes) -> (r: Result<(), FsError>)
        ensures
            r == Err::<(), FsError>(FsError::Unsupported),
    {
        unsupported()
    }
}

/// One directory entry: its name, the directory it was read from, and its
/// stat record.
pub struct DirEntry {
    /// Entry name bytes.
    pub name: Vec<u8>,
    /// The path of the directory the entry came from.
    pub root: Vec<u8>,
    /// The entry's stat record.
    pub stat: FileStat,
}

impl DirEntry {
    /// The full path of the entry: the root, a separator unless the root
    /// already ends with one, then the name.
    pub fn path(&self) -> (r: Vec<u8>)
        ensures
            self.root@.len() > 0 && self.root@.last() == 47u8 ==> r@ == self.root@ + self.name@,
            !(self.root@.len() > 0 && self.root@.last() == 47u8) ==> r@ == self.root@.push(47u8)
                + self.name@,
    {
        let mut out: Vec<u8> = Vec::new();
        let mut i: usize = 0;
        while i < self.root.len()
            invariant
                i <= self.root@.len(),
                out@ == self.root@.subrange(0, i as int),
            decreases self.root@.len() - i,
        {
            out.push(self.root[i]);
            i = i + 1;
        }
        proof {
            assert(out@ == self.root@);
        }
        if out.len() == 0 || out[out.len() - 1] != 47 {
            out.push(47);
        }
        let mut j: usize = 0;
        let ghost base = out@;
        while j < self.name.len()
            invariant
                j <= self.name@.len(),
                out@ == base + self.name@.subrange(0, j as int),
            decreases self.name@.len() - j,
        {
            out.push(self.name[j]);
            j = j + 1;
        }
        proof {
            assert(self.name@.subrange(0, self.name@.len() as int) == self.name@);
            assert(out@ == base + self.name@);
        }
        out
    }

    /// The entry's name.
    pub fn file_name(&self) -> (r: Vec<u8>)
        ensures
            r@ == self.name@,
    {
        let mut out: Vec<u8> = Vec::new();
        let mut i: usize = 0;
        while i < self.name.len()
            invariant
                i <= self.name@.len(),
                out@ == self.name@.subrange(0, i as int),
            decreases self.name@.len() - i,
        {
            out.push(self.name[i]);
            i = i + 1;
        }
        proof {
            assert(out@ == self.name@);
        }
        out
    }

    /// The entry's metadata.
    pub fn metadata(&self) -> (r: Result<FileAttr, FsError>)
        ensures
            r == Ok::<FileAttr, FsError>(FileAttr { stat: self.stat }),
    {
        Ok(FileAttr { stat: self.stat })
    }

    /// The entry's file type.
    pub fn file_type(&self) -> (r: Result<FileType, FsError>)
        ensures
            r == Ok::<FileType, FsError>(FileType { mode: self.stat.mode }),
    {
        Ok(FileType { mode: self.stat.mode })
    }
}

/// An open directory iteration: the granted descriptor, whether it is
/// exhausted, and the directory path entries are joined to.
pub struct ReadDir {
    /// The granted descriptor.
    pub fd: i32,
    /// Whether iteration has finished.
    pub done: bool,
    /// The directory path.
    pub root: Vec<u8>,
}

impl DirBuilder {
    /// The default builder: mode 0777.
    pub fn new() -> (r: DirBuilder)
        ensures
            r.mode == 0o777,
    {
        DirBuilder { mode: 0o777 }
    }
}

/// Permissions cannot be set by path.
pub fn set_perm(_path: &[u8], _perm: FilePermissions) -> (r: Result<(), FsError>)
    ensures
        r == Err::<(), FsError>(FsError::Unsupported),
{
    unsupported()
}

/// Timestamps cannot be set by path.
pub fn set_times(_path: &[u8], _times: FileTimes) -> (r: Result<(), FsError>)
    ensures
        r == Err::<(), FsError>(FsError::Unsupported),
{
    unsupported()
}

/// Timestamps cannot be set by path, links or not.
pub fn set_times_nofollow(_path: &[u8], _times: FileTimes) -> (r: Result<(), FsError>)
    ensures
        r == Err::<(), FsError>(FsError::Unsupported),
{
    unsupported()
}

/// The platform has no symbolic links to read.
pub fn readlink(_path: &[u8]) -> (r: Result<Vec<u8>, FsError>)
    ensures
        r == Err::<Vec<u8>, FsError>(FsError::Unsupported),
{
    unsupported()
}

/// The platform has no symbolic links.
pub fn symlink(_original: &[u8], _link: &[u8]) -> (r: Result<(), FsError>)
    ensures
        r == Err::<(), FsError>(FsError::Unsupported),
{
    unsupported()
}

/// The platform has no hard links.
pub fn link(_src: &[u8], _dst: &[u8]) -> (r: Result<(), FsError>)
    ensures
        r == Err::<(), FsError>(FsError::Unsupported),
{
    unsupported()
}

/// Paths cannot be canonicalized.
pub fn canonicalize(_path: &[u8]) -> (r: Result<Vec<u8>, FsError>)
    ensures
        r == Err::<Vec<u8>, FsError>(FsError::Unsupported),
{
    unsupported()
}

} // verus!
