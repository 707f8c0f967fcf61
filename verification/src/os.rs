//! Operating-system queries: working directory, search paths and error
//! code decoding.
//!
//! Most path queries are unsupported on this platform and fail uniformly;
//! the temporary and home directories are fixed memory-stick paths. Error
//! codes are decoded from the platform's negative code space.

use crate::fs::FsError;
use vstd::prelude::*;

verus! {

/// The platform keeps no errno; the last error is always 0 here.
pub fn errno() -> (r: i32)
    ensures
        r == 0,
{
    0
}

/// No platform call reports interruption.
pub fn is_interrupted(_code: i32) -> (r: bool)
    ensures
        r == false,
{
    false
}

/// The kind of failure an error code denotes.
#[derive(Debug, Clone, Copy, PartialEq, Eq, Structural)]
pub enum ErrorKind {
    /// No such file or directory.
    NotFound,
    /// Permission denied.
    PermissionDenied,
    /// The file already exists.
    AlreadyExists,
    /// An argument was invalid.
    InvalidInput,
    /// Out of memory.
    OutOfMemory,
    /// The storage medium is full.
    StorageFull,
    /// Anything else.
    Uncategorized,
}

/// The kind a code maps to: the platform's own codes and their small Unix
/// counterparts, by magnitude.
pub open spec fn spec_decode_error_kind(code: int) -> ErrorKind {
    let c = if code < 0 {
        -code
    } else {
        code
    };
    if c == 0x80010002 || c == 2 {
        ErrorKind::NotFound
    } else if c == 0x8001000D || c == 13 {
        ErrorKind::PermissionDenied
    } else if c == 0x80010011 || c == 17 {
        ErrorKind::AlreadyExists
    } else if c == 0x80010013 || c == 19 {
        ErrorKind::NotFound
    } else if c == 0x80010016 || c == 22 {
        ErrorKind::InvalidInput
    } else if c == 0x8001000C || c == 12 {
        ErrorKind::OutOfMemory
    } else if c == 0x8001001C || c == 28 {
        ErrorKind::StorageFull
    } else {
        ErrorKind::Uncategorized
    }
}

/// Decode an error code into its kind, by magnitude.
pub fn decode_error_kind(code: i32) -> (r: ErrorKind)
    requires
        code != i32::MIN,
    ensures
        r == spec_decode_error_kind(code as int),
{
    let c: i64 = if code < 0 {
        -(code as i64)
    } else {
        code as i64
    };
    if c == 0x80010002 || c == 2 {
        ErrorKind::NotFound
    } else if c == 0x8001000D || c == 13 {
        ErrorKind::PermissionDenied
    } else if c == 0x80010011 || c == 17 {
        ErrorKind::AlreadyExists
    } else if c == 0x80010013 || c == 19 {
        ErrorKind::NotFound
    } else if c == 0x80010016 || c == 22 {
        ErrorKind::InvalidInput
    } else if c == 0x8001000C || c == 12 {
        ErrorKind::OutOfMemory
    } else if c == 0x8001001C || c == 28 {
        ErrorKind::StorageFull
    } else {
        ErrorKind::Uncategorized
    }
}

/// The hexadecimal digit character for a value below 16 (upper case).
pub open spec fn spec_hex_char(d: int) -> char {
    if d == 0 {
        '0'
    } else if d == 1 {
        '1'
    } else if d == 2 {
        '2'
    } else if d == 3 {
        '3'
    } else if d == 4 {
        '4'
    } else if d == 5 {
        '5'
    } else if d == 6 {
        '6'
    } else if d == 7 {
        '7'
    } else if d == 8 {
        '8'
    } else if d == 9 {
        '9'
    } else if d == 10 {
        'A'
    } else if d == 11 {
        'B'
    } else if d == 12 {
        'C'
    } else if d == 13 {
        'D'
    } else if d == 14 {
        'E'
    } else {
        'F'
    }
}

/// The eight hexadecimal digits of a 32-bit value, most significant first.
pub open spec fn spec_hex8(v: int) -> Seq<char> {
    seq![
        spec_hex_char(v / 0x10000000 % 16),
        spec_hex_char(v / 0x1000000 % 16),
        spec_hex_char(v / 0x100000 % 16),
        spec_hex_char(v / 0x10000 % 16),
        spec_hex_char(v / 0x1000 % 16),
        spec_hex_char(v / 0x100 % 16),
        spec_hex_char(v / 0x10 % 16),
        spec_hex_char(v % 16),
    ]
}

/// One hexadecimal digit as a string slice.
fn hex_digit_str(d: u32) -> (r: &'static str)
    requires
        d < 16,
    ensures
        r@ == seq![spec_hex_char(d as int)],
{
    proof {
        reveal_strlit("0");
        reveal_strlit("1");
        reveal_strlit("2");
        reveal_strlit("3");
        reveal_strlit("4");
        reveal_strlit("5");
        reveal_strlit("6");
        reveal_strlit("7");
        reveal_strlit("8");
        reveal_strlit("9");
        reveal_strlit("A");
        reveal_strlit("B");
        reveal_strlit("C");
        reveal_strlit("D");
        reveal_strlit("E");
        reveal_strlit("F");
    }
    if d == 0 {
        "0"
    } else if d == 1 {
        "1"
    } else if d == 2 {
        "2"
    } else if d == 3 {
        "3"
    } else if d == 4 {
        "4"
    } else if d == 5 {
        "5"
    } else if d == 6 {
        "6"
    } else if d == 7 {
        "7"
    } else if d == 8 {
        "8"
    } else if d == 9 {
        "9"
    } else if d == 10 {
        "A"
    } else if d == 11 {
        "B"
    } else if d == 12 {
        "C"
    } else if d == 13 {
        "D"
    } else if d == 14 {
        "E"
    } else {
        "F"
    }
}

/// A readable rendering of an error code: a fixed prefix and the code as
/// eight upper-case hexadecimal digits.
pub fn error_string(errno: i32) -> (r: String)
    ensures
        r@ == "PSP error code 0x"@ + spec_hex8((errno as u32) as int),
{
    let v: u32 = errno as u32;
    let mut s: String = "PSP error code 0x".to_owned();
    s.append(hex_digit_str(v / 0x10000000 % 16));
    s.append(hex_digit_str(v / 0x1000000 % 16));
    s.append(hex_digit_str(v / 0x100000 % 16));
    s.append(hex_digit_str(v / 0x10000 % 16));
    s.append(hex_digit_str(v / 0x1000 % 16));
    s.append(hex_digit_str(v / 0x100 % 16));
    s.append(hex_digit_str(v / 0x10 % 16));
    s.append(hex_digit_str(v % 16));
    proof {
        assert(s@ == "PSP error code 0x"@ + spec_hex8(v as int));
    }
    s
}

/// The platform has no working directory to report.
pub fn getcwd() -> (r: Result<Vec<u8>, FsError>)
    ensures
        r == Err::<Vec<u8>, FsError>(FsError::Unsupported),
{
    crate::fs::unsupported()
}

/// Error from joining search paths, which this platform cannot do.
#[derive(Debug, Clone, Copy, PartialEq, Eq, Structural)]
pub struct JoinPathsError;

/// Search paths cannot be joined on this platform.
pub fn join_paths(_paths: &Vec<String>) -> (r: Result<String, JoinPathsError>)
    ensures
        r == Err::<String, JoinPathsError>(JoinPathsError),
{
    Err(JoinPathsError)
}

/// The running executable's path is not available.
pub fn current_exe() -> (r: Result<Vec<u8>, FsError>)
    ensures
        r == Err::<Vec<u8>, FsError>(FsError::Unsupported),
{
    crate::fs::unsupported()
}

/// The fixed temporary directory on the memory stick.
pub fn temp_dir() -> (r: &'static str)
    ensures
        r@ == "ms0:/PSP/TEMP"@,
{
    "ms0:/PSP/TEMP"
}

/// The fixed home directory on the memory stick.
pub fn home_dir() -> (r: Option<&'static str>)
    ensures
        r matches Some(p) && p@ == "ms0:/PSP/GAME"@,
{
    Some("ms0:/PSP/GAME")
}

} // verus!
