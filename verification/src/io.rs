//! File and directory handles for the platform's storage calls.
//!
//! The read, write and seek calls themselves run outside this library;
//! these types keep the plain-value state around them — descriptors,
//! directory entries and the byte-level path handling.

use vstd::prelude::*;
use vstd::string::StringSliceAdditionalSpecFns;

verus! {

/// Error from a platform I/O operation, wrapping the raw error code.
#[derive(Debug, Clone, Copy, PartialEq, Eq, Structural)]
pub struct IoError(pub i32);

impl IoError {
    /// The raw error code.
    pub fn code(self) -> (r: i32)
        ensures
            r == self.0,
    {
        self.0
    }
}

/// A kernel object id, as the platform grants them.
#[derive(Debug, Clone, Copy, PartialEq, Eq, Structural)]
pub struct SceUid(pub i32);

/// Maximum path length (including the NUL terminator) for platform calls.
pub const MAX_PATH: usize = 256;

/// The platform's name-too-long error code (0x8001005B as a signed value).
pub const ERR_NAME_TOO_LONG: i32 = -2147418021;

/// Copy a path into a NUL-terminated byte buffer for the platform calls.
/// A path of `MAX_PATH` bytes or more is rejected with the platform's
/// name-too-long code.
pub fn path_to_cstr(path: &str) -> (r: Result<Vec<u8>, IoError>)
    ensures
        path.spec_bytes().len() < MAX_PATH ==> (r matches Ok(b) && b@ == path.spec_bytes().push(
            0u8,
        )),
        path.spec_bytes().len() >= MAX_PATH ==> r == Err::<Vec<u8>, IoError>(
            IoError(ERR_NAME_TOO_LONG),
        ),
{
    let bytes: &[u8] = path.as_bytes();
    if bytes.len() >= MAX_PATH {
        return Err(IoError(ERR_NAME_TOO_LONG));
    }
    let mut buf: Vec<u8> = Vec::new();
    let mut i: usize = 0;
    while i < bytes.len()
        invariant
            i <= bytes@.len(),
            buf@ == bytes@.subrange(0, i as int),
        decreases bytes@.len() - i,
    {
        buf.push(bytes[i]);
        i = i + 1;
    }
    buf.push(0);
    proof {
        assert(buf@ == bytes@.push(0u8));
    }
    Ok(buf)
}

/// An open file: the descriptor the platform granted. The file is closed
/// by the platform call outside this library.
pub struct File {
    /// The granted descriptor.
    pub fd: SceUid,
}

impl File {
    /// Record an open outcome: a non-negative id becomes a file, a
    /// negative one is the error code.
    pub fn from_open_result(fd: SceUid) -> (r: Result<File, IoError>)
        ensures
            fd.0 >= 0 ==> (r matches Ok(f) && f.fd == fd),
            fd.0 < 0 ==> r == Err::<File, IoError>(IoError(fd.0)),
    {
        if fd.0 < 0 {
            Err(IoError(fd.0))
        } else {
            Ok(File { fd })
        }
    }

    /// The underlying descriptor.
    pub fn fd(&self) -> (r: SceUid)
        ensures
            r == self.fd,
    {
        self.fd
    }
}

/// Mode bits of a platform stat record.
#[derive(Debug, Clone, Copy, PartialEq, Eq, Structural)]
pub struct IoStatMode(pub u32);

/// The directory bit.
pub const IOSTAT_IFDIR: u32 = 0x1000;

/// The regular-file bit.
pub const IOSTAT_IFREG: u32 = 0x2000;

/// A stat record as the platform's directory read reports it.
#[derive(Debug, Clone, Copy, PartialEq, Eq, Structural)]
pub struct SceIoStat {
    /// Permissions and file-type bits.
    pub st_mode: IoStatMode,
    /// Attribute bits.
    pub st_attr: u32,
    /// File size in bytes.
    pub st_size: i64,
}

/// A raw directory entry: its stat record and NUL-terminated name bytes.
pub struct SceIoDirent {
    /// The entry's stat record.
    pub d_stat: SceIoStat,
    /// The entry's name, NUL-terminated inside the buffer.
    pub d_name: Vec<u8>,
}

/// A directory entry as the iteration hands them out.
pub struct DirEntry {
    /// The raw entry from the platform.
    pub dirent: SceIoDirent,
}

impl DirEntry {
    /// The entry's name: the bytes before the first NUL, or the whole
    /// buffer when it holds none.
    pub fn name(&self) -> (r: Vec<u8>)
        ensures
            r@.len() <= self.dirent.d_name@.len(),
            r@ == self.dirent.d_name@.subrange(0, r@.len() as int),
            forall|j: int| 0 <= j < r@.len() ==> self.dirent.d_name@[j] != 0u8,
            r@.len() < self.dirent.d_name@.len() ==> self.dirent.d_name@[r@.len() as int] == 0u8,
    {
        let name = &self.dirent.d_name;
        let mut len: usize = 0;
        while len < name.len() && name[len] != 0
            invariant
                len <= name@.len(),
                forall|j: int| 0 <= j < len ==> name@[j] != 0u8,
            decreases name@.len() - len,
        {
            len = len + 1;
        }
        let mut out: Vec<u8> = Vec::new();
        let mut i: usize = 0;
        while i < len
            invariant
                i <= len,
                len <= name@.len(),
                out@ == name@.subrange(0, i as int),
            decreases len - i,
        {
            out.push(name[i]);
            i = i + 1;
        }
        out
    }

    /// The entry's stat record.
    pub fn stat(&self) -> (r: &SceIoStat)
        ensures
            r == self.dirent.d_stat,
    {
        &self.dirent.d_stat
    }

    /// Whether the directory bit is set.
    pub fn is_dir(&self) -> (r: bool)
        ensures
            r == (self.dirent.d_stat.st_mode.0 & IOSTAT_IFDIR == IOSTAT_IFDIR),
    {
        (self.dirent.d_stat.st_mode.0 & IOSTAT_IFDIR) == IOSTAT_IFDIR
    }

    /// Whether the regular-file bit is set.
    pub fn is_file(&self) -> (r: bool)
        ensures
            r == (self.dirent.d_stat.st_mode.0 & IOSTAT_IFREG == IOSTAT_IFREG),
    {
        (self.dirent.d_stat.st_mode.0 & IOSTAT_IFREG) == IOSTAT_IFREG
    }
}

/// An open directory iteration: the granted descriptor and whether it is
/// exhausted.
pub struct ReadDir {
    /// The granted descriptor.
    pub fd: SceUid,
    /// Whether iteration has finished.
    pub done: bool,
}

} // verus!
