//! The system's random number source and its errors.
use vstd::prelude::*;

use crate::text::{append_decimal, append_str};

verus! {

/// Raw error code.
pub type RawOsError = i32;

/// Internal errors are coded in `2^16 .. 2^17`.
pub const INTERNAL_START: i32 = 65536;

/// Custom errors are coded in `2^17 .. 2^17 + 2^16`.
pub const CUSTOM_START: i32 = 131072;

/// An error of the system's random number source: an OS error (coded as the
/// negated OS error number), an internal error or a custom error. Its code is
/// never zero.
#[derive(Clone, Copy, Debug, PartialEq, Eq, Structural)]
pub struct SysError {
    code: i32,
}

impl SysError {
    #[verifier::type_invariant]
    spec fn nonzero(self) -> bool {
        self.code != 0
    }

    /// The error's code.
    pub closed spec fn raw(self) -> i32 {
        self.code
    }

    /// The error's code.
    pub fn code(&self) -> (r: i32)
        ensures
            r == self.raw(),
            r != 0,
    {
        proof {
            use_type_invariant(self);
        }
        self.code
    }

    /// Creates an error from an internal error code.
    pub(crate) fn new_internal(n: u16) -> (r: SysError)
        ensures
            r.raw() == INTERNAL_START + n,
    {
        SysError { code: INTERNAL_START + n as i32 }
    }

    /// Creates an error from a custom error code.
    pub fn new_custom(n: u16) -> (r: SysError)
        ensures
            r.raw() == CUSTOM_START + n,
    {
        SysError { code: CUSTOM_START + n as i32 }
    }

    /// This target is not supported.
    pub fn unsupported() -> (r: SysError)
        ensures
            r.raw() == INTERNAL_START,
    {
        Self::new_internal(0)
    }

    /// The platform's `errno` was not positive.
    pub fn errno_not_positive() -> (r: SysError)
        ensures
            r.raw() == INTERNAL_START + 1,
    {
        Self::new_internal(1)
    }

    /// A situation that should not happen in practice.
    pub fn unexpected() -> (r: SysError)
        ensures
            r.raw() == INTERNAL_START + 2,
    {
        Self::new_internal(2)
    }

    /// Creates an error from a positive OS error number; zero and negative
    /// numbers give `errno_not_positive`.
    pub fn from_errno(errno: i32) -> (r: SysError)
        ensures
            errno > 0 ==> r.raw() == -errno,
            errno <= 0 ==> r.raw() == INTERNAL_START + 1,
    {
        if errno > 0 {
            let code = -errno;
            SysError::from_neg_error_code(code)
        } else {
            SysError::errno_not_positive()
        }
    }

    /// Creates an error from a negative error code; zero and positive codes
    /// give `unexpected`.
    pub fn from_neg_error_code(code: RawOsError) -> (r: SysError)
        ensures
            code < 0 ==> r.raw() == code,
            code >= 0 ==> r.raw() == INTERNAL_START + 2,
    {
        if code < 0 {
            SysError { code }
        } else {
            SysError::unexpected()
        }
    }

    /// The OS error number, when the error came from the OS.
    pub fn raw_os_error(self) -> (r: Option<RawOsError>)
        ensures
            r == os_error_of(self.raw()),
    {
        let code = self.code;
        if code >= 0 {
            None
        } else if code == i32::MIN {
            None
        } else {
            Some(-code)
        }
    }

    /// The description of an internal error, when the error is one of the
    /// three internal errors.
    pub fn internal_desc(&self) -> (r: Option<&'static str>)
        ensures
            r is None <==> internal_text(self.raw()) is None,
            r matches Some(d) ==> internal_text(self.raw()) == Some(d@),
    {
        let code = self.code;
        if code == INTERNAL_START {
            Some("getrandom: this target is not supported")
        } else if code == INTERNAL_START + 1 {
            Some("errno: did not return a positive value")
        } else if code == INTERNAL_START + 2 {
            Some("unexpected situation")
        } else {
            None
        }
    }

    /// How the error is displayed: by the OS's message for its error number,
    /// by its internal description, or as an unknown error with its code.
    pub fn display(&self) -> (r: SysErrorDisplay)
        ensures
            self.raw() < 0 && self.raw() != i32::MIN ==> (r matches SysErrorDisplay::Os(n) && n == -self.raw()),
            (self.raw() >= 0 || self.raw() == i32::MIN) && self.raw() != INTERNAL_START
                && self.raw() != INTERNAL_START + 1 && self.raw() != INTERNAL_START + 2 ==> (r matches SysErrorDisplay::Unknown(s) && s@ == "Unknown Error: "@
                + crate::text::decimal(self.raw() as int)),
            INTERNAL_START <= self.raw() <= INTERNAL_START + 2 ==> (r matches SysErrorDisplay::Internal(d) && internal_text(self.raw()) == Some(d@)),
    {
        if let Some(errno) = self.raw_os_error() {
            SysErrorDisplay::Os(errno)
        } else if let Some(desc) = self.internal_desc() {
            SysErrorDisplay::Internal(desc)
        } else {
            let mut s = String::new();
            append_str(&mut s, "Unknown Error: ");
            append_decimal(&mut s, self.code as i64);
            SysErrorDisplay::Unknown(s)
        }
    }
}

/// The description of each internal error code.
pub open spec fn internal_text(code: i32) -> Option<Seq<char>> {
    if code == INTERNAL_START {
        Some("getrandom: this target is not supported"@)
    } else if code == INTERNAL_START + 1 {
        Some("errno: did not return a positive value"@)
    } else if code == INTERNAL_START + 2 {
        Some("unexpected situation"@)
    } else {
        None
    }
}

/// The OS error number an error code stands for: the negated code when the
/// code is negative and can be negated.
pub open spec fn os_error_of(code: i32) -> Option<i32> {
    if code >= 0 || code == i32::MIN {
        None
    } else {
        Some((-code) as i32)
    }
}

/// What a `SysError` displays as.
pub enum SysErrorDisplay {
    /// The OS's message for this error number.
    Os(i32),
    /// An internal error's description.
    Internal(&'static str),
    /// The text for an error of unknown kind.
    Unknown(String),
}

/// An error built from a positive OS error number reports that number back;
/// internal and custom errors report none.
pub proof fn lemma_os_error_roundtrip(errno: i32, n: u16)
    ensures
        errno > 0 ==> os_error_of(-errno as i32) == Some(errno),
        os_error_of((INTERNAL_START + n) as i32) is None,
        os_error_of((CUSTOM_START + n) as i32) is None,
{
}

/// Fills `dest` from the operating system's random source
/// (`getrandom::fill`), reporting whether that succeeded; an empty `dest`
/// succeeds at once, untouched. What the bytes hold is not stated: they are
/// random.
#[verifier::external_body]
fn os_fill(dest: &mut [u8]) -> (ok: bool)
    ensures
        final(dest)@.len() == old(dest)@.len(),
        old(dest)@.len() == 0 ==> ok && final(dest)@ == old(dest)@,
{
    ::getrandom::fill(dest).is_ok()
}

/// Fills `dest` with random bytes from the system's source; a failure of
/// the source is reported as `unexpected`.
pub fn fill_inner(dest: &mut [u8]) -> (r: Result<(), SysError>)
    ensures
        final(dest)@.len() == old(dest)@.len(),
        old(dest)@.len() == 0 ==> r is Ok && final(dest)@ == old(dest)@,
        r matches Err(e) ==> e.raw() == INTERNAL_START + 2,
{
    if os_fill(dest) {
        Ok(())
    } else {
        Err(SysError::unexpected())
    }
}

/// Fills `dest` with random bytes from the system's source; an empty `dest`
/// is left alone and succeeds without asking the source.
pub fn fill_uninit(dest: &mut [u8]) -> (r: Result<(), SysError>)
    ensures
        final(dest)@.len() == old(dest)@.len(),
        old(dest)@.len() == 0 ==> r is Ok && final(dest)@ == old(dest)@,
        r matches Err(e) ==> e.raw() == INTERNAL_START + 2,
{
    if dest.len() != 0 {
        fill_inner(dest)?;
    }
    Ok(())
}

/// The `u32` whose little-endian bytes are `b`: the first byte is the least
/// significant. (The system source's bytes are read in this order, which is
/// the native order of the little-endian targets the source supports.)
pub fn u32_from_bytes(b: [u8; 4]) -> (r: u32)
    ensures
        r == b[0] + 256 * b[1] + 65536 * b[2] + 16777216 * b[3],
{
    (b[0] as u32) + 256 * (b[1] as u32) + 65536 * (b[2] as u32) + 16777216 * (b[3] as u32)
}

/// The `u64` whose little-endian bytes are `b`: the first byte is the least
/// significant.
pub fn u64_from_bytes(b: [u8; 8]) -> (r: u64)
    ensures
        r == b[0] + 256 * b[1] + 65536 * b[2] + 16777216 * b[3] + 4294967296 * b[4]
            + 1099511627776 * b[5] + 281474976710656 * b[6] + 72057594037927936 * b[7],
{
    (b[0] as u64) + 256 * (b[1] as u64) + 65536 * (b[2] as u64) + 16777216 * (b[3] as u64)
        + 4294967296 * (b[4] as u64) + 1099511627776 * (b[5] as u64) + 281474976710656 * (
    b[6] as u64) + 72057594037927936 * (b[7] as u64)
}

/// The value of the little-endian bytes `b`.
pub open spec fn le_value(b: Seq<u8>) -> nat
    decreases b.len(),
{
    if b.len() == 0 {
        0
    } else {
        b[0] as nat + 256 * le_value(b.drop_first())
    }
}

/// Fills the four bytes of `buf` from the system's source and reads them as
/// a little-endian `u32`: on success the value is that of the bytes now in
/// `buf`; a failure of the source is reported as `unexpected`.
pub fn u32_from_source(buf: &mut [u8; 4]) -> (r: Result<u32, SysError>)
    ensures
        r matches Ok(v) ==> v == le_value(final(buf)@),
        r matches Err(e) ==> e.raw() == INTERNAL_START + 2,
{
    let mut bytes: Vec<u8> = vec![0u8; 4];
    fill_uninit(bytes.as_mut_slice())?;
    *buf = [bytes[0], bytes[1], bytes[2], bytes[3]];
    let v = u32_from_bytes(*buf);
    proof {
        reveal_with_fuel(le_value, 5);
    }
    Ok(v)
}

/// Fills the eight bytes of `buf` from the system's source and reads them as
/// a little-endian `u64`: on success the value is that of the bytes now in
/// `buf`; a failure of the source is reported as `unexpected`.
pub fn u64_from_source(buf: &mut [u8; 8]) -> (r: Result<u64, SysError>)
    ensures
        r matches Ok(v) ==> v == le_value(final(buf)@),
        r matches Err(e) ==> e.raw() == INTERNAL_START + 2,
{
    let mut bytes: Vec<u8> = vec![0u8; 8];
    fill_uninit(bytes.as_mut_slice())?;
    *buf = [bytes[0], bytes[1], bytes[2], bytes[3], bytes[4], bytes[5], bytes[6], bytes[7]];
    let v = u64_from_bytes(*buf);
    proof {
        reveal_with_fuel(le_value, 9);
    }
    Ok(v)
}

/// A random `u32`: the little-endian value (`u32_from_bytes`) of four bytes
/// from the system's source. Which bytes came is not stated: they are random.
pub fn inner_u32() -> (r: Result<u32, SysError>)
    ensures
        r matches Err(e) ==> e.raw() == INTERNAL_START + 2,
{
    let mut buf = [0u8; 4];
    u32_from_source(&mut buf)
}

/// A random `u32` from the system's source.
pub fn u32() -> (r: Result<u32, SysError>)
    ensures
        r matches Err(e) ==> e.raw() == INTERNAL_START + 2,
{
    inner_u32()
}

/// A random `u64`: the little-endian value (`u64_from_bytes`) of eight bytes
/// from the system's source. Which bytes came is not stated: they are random.
pub fn inner_u64() -> (r: Result<u64, SysError>)
    ensures
        r matches Err(e) ==> e.raw() == INTERNAL_START + 2,
{
    let mut buf = [0u8; 8];
    u64_from_source(&mut buf)
}

/// A random `u64` from the system's source.
pub fn u64() -> (r: Result<u64, SysError>)
    ensures
        r matches Err(e) ==> e.raw() == INTERNAL_START + 2,
{
    inner_u64()
}

/// The system's random number source.
#[derive(Clone, Copy, Debug, Default)]
pub struct SysRng;

impl SysRng {
    /// The next random `u32`.
    pub fn try_next_u32(&mut self) -> (r: Result<u32, SysError>)
        ensures
            r matches Err(e) ==> e.raw() == INTERNAL_START + 2,
    {
        u32()
    }

    /// The next random `u64`.
    pub fn try_next_u64(&mut self) -> (r: Result<u64, SysError>)
        ensures
            r matches Err(e) ==> e.raw() == INTERNAL_START + 2,
    {
        u64()
    }

    /// Fills `dest` with random bytes.
    pub fn try_fill_bytes(&mut self, dest: &mut [u8]) -> (r: Result<(), SysError>)
        ensures
            final(dest)@.len() == old(dest)@.len(),
            old(dest)@.len() == 0 ==> r is Ok && final(dest)@ == old(dest)@,
            r matches Err(e) ==> e.raw() == INTERNAL_START + 2,
    {
        fill_uninit(dest)
    }
}

} // verus!
