//! Buffers as two-dimensional arrays.

use ndarray::{Array2, ShapeError};
use vstd::prelude::*;

use crate::buffer::Buffer;
use crate::errors::RasterError;
use crate::native::{Diagnostic, CE_NONE};
use crate::rasterband::RasterIo;

verus! {

/// `ndarray::ShapeError`, carried through as it is: nothing is claimed of
/// what it holds.
#[verifier::external_type_specification]
#[verifier::external_body]
pub struct ExShapeError(ShapeError);

/// A grid of samples as a two-dimensional array: the row index comes first,
/// so a buffer of `width` by `height` samples is an array of `height` rows
/// and `width` columns.
///
/// The array is an `ndarray::Array2`. The verifier does not look inside it:
/// what is proved of a `PixelArray` is when one comes to be, not what it
/// holds.
#[verifier::external_body]
#[verifier::reject_recursive_types(T)]
pub struct PixelArray<T> {
    pub array: Array2<T>,
}

/// Whether an array of `rows` by `cols` elements can exist: the product of
/// the sides that are not zero stays within `isize`.
pub open spec fn shape_in_range(rows: int, cols: int) -> bool {
    (if rows == 0 {
        1
    } else {
        rows
    }) * (if cols == 0 {
        1
    } else {
        cols
    }) <= isize::MAX
}

/// `ndarray::Array2::from_shape_vec` with the shape `(rows, cols)` in the
/// default, row-major order. It returns an array exactly when the product of
/// the non-zero sides does not exceed `isize::MAX` and `data` has `rows *
/// cols` elements; nothing is claimed here of what the array then holds.
#[verifier::external_body]
fn array_from_shape_vec<T>(rows: usize, cols: usize, data: Vec<T>) -> (r: Result<
    PixelArray<T>,
    ShapeError,
>)
    ensures
        match r {
            Ok(_) => shape_in_range(rows as int, cols as int) && data@.len() == rows * cols,
            Err(_) => !(shape_in_range(rows as int, cols as int) && data@.len() == rows * cols),
        },
{
    match Array2::from_shape_vec((rows, cols), data) {
        Ok(array) => Ok(PixelArray { array }),
        Err(e) => Err(e),
    }
}

impl<T> PixelArray<T> {
    /// Turns a buffer into an array of its rows. This fails only for an
    /// empty buffer with one side beyond `isize`, which no array can have.
    pub fn from_buffer(buffer: Buffer<T>) -> (r: Result<PixelArray<T>, RasterError>)
        ensures
            match r {
                Ok(_) => shape_in_range(buffer.height() as int, buffer.width() as int),
                Err(e) => {
                    &&& !shape_in_range(buffer.height() as int, buffer.width() as int)
                    &&& e == (RasterError::AllocationError {
                        width: buffer.width() as usize,
                        height: buffer.height() as usize,
                    })
                },
            },
    {
        let size: (usize, usize) = buffer.size();
        let len: usize = buffer.len();
        assert(len == size.1 * size.0) by (nonlinear_arith)
            requires
                len == size.0 * size.1,
        ;
        match array_from_shape_vec(size.1, size.0, buffer.into_data()) {
            Ok(array) => Ok(array),
            Err(_) => Err(RasterError::AllocationError { width: size.0, height: size.1 }),
        }
    }
}

impl RasterIo {
    /// Turns the outcome of a transfer out of the band into an array: what
    /// `read_done` gives, as rows.
    pub fn read_array_done<T>(&self, rv: u32, data: Vec<T>, diagnostic: Diagnostic) -> (r: Result<
        PixelArray<T>,
        RasterError,
    >)
        ensures
            r is Ok <==> {
                &&& rv == CE_NONE
                &&& data@.len() == self.buffer_width() * self.buffer_height()
                &&& shape_in_range(self.buffer_height(), self.buffer_width())
            },
            r matches Err(e) ==> if rv != CE_NONE {
                e == (RasterError::NativeReadError {
                    class: rv,
                    number: diagnostic.number,
                    msg: diagnostic.msg,
                })
            } else if data@.len() != self.buffer_width() * self.buffer_height() {
                e == (RasterError::ShapeMismatch {
                    width: self.buffer_width() as usize,
                    height: self.buffer_height() as usize,
                    len: data.len(),
                })
            } else {
                e == (RasterError::AllocationError {
                    width: self.buffer_width() as usize,
                    height: self.buffer_height() as usize,
                })
            },
    {
        match self.read_done(rv, data, diagnostic) {
            Ok(buffer) => PixelArray::from_buffer(buffer),
            Err(e) => Err(e),
        }
    }
}

} // verus!
