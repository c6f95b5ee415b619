//! Plain values that cross the native boundary: status classes, flags,
//! integers of the native width, zero-terminated strings.

use libc::c_int;
use vstd::prelude::*;
use vstd::string::StringSliceAdditionalSpecFns;

use crate::errors::RasterError;

verus! {

/// Status class of a native call that succeeded.
pub const CE_NONE: u32 = 0;

/// Status class of a native call that failed and left the process usable.
pub const CE_FAILURE: u32 = 3;

/// Diagnostic number the backend gives a call with unusable arguments.
pub const CPLE_ILLEGAL_ARG: c_int = 5;

/// Access mode: the dataset is opened for reading only.
pub const GA_READ_ONLY: u32 = 0;

/// Transfer direction: out of the band, into the buffer.
pub const GF_READ: u32 = 0;

/// Transfer direction: out of the buffer, into the band.
pub const GF_WRITE: u32 = 1;

/// What the backend's last-error channel held after a call.
#[derive(Clone, Debug, PartialEq, Eq)]
pub struct Diagnostic {
    pub number: c_int,
    pub msg: String,
}

/// Whether `v` can be passed as a native integer without change.
pub open spec fn fits_c_int(v: int) -> bool {
    i32::MIN <= v <= i32::MAX
}

/// The extent that a native integer stands for: itself, or nothing at all
/// where the backend hands back a negative number.
pub open spec fn extent_of(v: int) -> int {
    if v < 0 {
        0
    } else {
        v
    }
}

/// Whether no byte of `bytes` is zero.
pub open spec fn nul_free(bytes: Seq<u8>) -> bool {
    forall|i: int| 0 <= i < bytes.len() ==> bytes[i] != 0
}

/// Whether `position` is the index of the first zero byte of `bytes`.
pub open spec fn first_nul_at(bytes: Seq<u8>, position: int) -> bool {
    &&& 0 <= position < bytes.len()
    &&& bytes[position] == 0
    &&& forall|i: int| 0 <= i < position ==> bytes[i] != 0
}

/// Narrows a signed offset to the native integer width.
pub fn c_int_from_isize(v: isize) -> (r: Option<c_int>)
    ensures
        r is Some <==> fits_c_int(v as int),
        r matches Some(n) ==> n == v,
{
    if v < -2147483648 || v > 2147483647 {
        None
    } else {
        Some(v as c_int)
    }
}

/// Narrows an unsigned extent to the native integer width.
pub fn c_int_from_usize(v: usize) -> (r: Option<c_int>)
    ensures
        r is Some <==> v <= i32::MAX,
        r matches Some(n) ==> n == v,
{
    if v > 2147483647 {
        None
    } else {
        Some(v as c_int)
    }
}

/// Widens a native extent. The backend reports extents as signed integers;
/// a negative one stands for no extent.
pub fn extent(v: c_int) -> (r: usize)
    ensures
        r == extent_of(v as int),
{
    if v < 0 {
        0
    } else {
        v as usize
    }
}

/// Widens a native pair of extents, x before y.
pub fn raster_size(x_size: c_int, y_size: c_int) -> (r: (usize, usize))
    ensures
        r.0 == extent_of(x_size as int),
        r.1 == extent_of(y_size as int),
{
    (extent(x_size), extent(y_size))
}

/// The bytes of `text` as the backend takes them, which are its UTF-8
/// encoding, provided none of them is zero: a zero byte would end the
/// string early on the native side. Otherwise the position of the first
/// zero byte.
pub fn c_string_bytes(text: &str) -> (r: Result<Vec<u8>, usize>)
    ensures
        match r {
            Ok(bytes) => bytes@ == text.spec_bytes() && nul_free(text.spec_bytes()),
            Err(position) => first_nul_at(text.spec_bytes(), position as int),
        },
{
    let source: &[u8] = text.as_bytes();
    let mut bytes: Vec<u8> = Vec::new();
    let mut i: usize = 0;
    while i < source.len()
        invariant
            i <= source@.len(),
            source@ == text.spec_bytes(),
            bytes@ == source@.subrange(0, i as int),
            forall|j: int| 0 <= j < i ==> source@[j] != 0,
        decreases source@.len() - i,
    {
        let b: u8 = source[i];
        if b == 0 {
            return Err(i);
        }
        bytes.push(b);
        i = i + 1;
        assert(bytes@ =~= source@.subrange(0, i as int));
    }
    assert(bytes@ =~= source@);
    Ok(bytes)
}

/// Reads the status class of a native update: success, or the write failure
/// that carries the class and the backend's diagnostic.
pub fn write_status(rv: u32, diagnostic: Diagnostic) -> (r: Result<(), RasterError>)
    ensures
        rv == CE_NONE ==> r is Ok,
        rv != CE_NONE ==> r == Err::<(), RasterError>(
            RasterError::NativeWriteError {
                class: rv,
                number: diagnostic.number,
                msg: diagnostic.msg,
            },
        ),
{
    if rv == CE_NONE {
        Ok(())
    } else {
        Err(RasterError::NativeWriteError { class: rv, number: diagnostic.number, msg: diagnostic.msg })
    }
}

} // verus!
