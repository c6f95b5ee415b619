//! One band of a dataset, and the transfers between it and a buffer.

use libc::c_int;
use vstd::prelude::*;

use crate::buffer::Buffer;
use crate::dataset::Dataset;
use crate::errors::RasterError;
use crate::native::{
    c_int_from_isize, c_int_from_usize, extent_of, fits_c_int, raster_size, write_status,
    Diagnostic, CE_FAILURE, CE_NONE, CPLE_ILLEGAL_ARG, GF_READ, GF_WRITE,
};
use crate::pixel::PixelType;

verus! {

/// One band of an open dataset. The band borrows the dataset it came from,
/// so it cannot be kept once the dataset is closed or gone; the backend
/// releases a band with its dataset, never by itself.
#[derive(Debug)]
pub struct RasterBand<'a> {
    c_rasterband: usize,
    owner: &'a Dataset,
}

/// The arguments of one native transfer between a window of a band and a
/// buffer in memory, in the order and the width in which the backend takes
/// them, and the number of samples the buffer holds.
#[derive(Clone, Copy, Debug, PartialEq, Eq, Structural)]
pub struct RasterIo {
    pub c_rasterband: usize,
    pub rw_flag: u32,
    pub x_off: c_int,
    pub y_off: c_int,
    pub x_size: c_int,
    pub y_size: c_int,
    pub buf_x_size: c_int,
    pub buf_y_size: c_int,
    pub buf_type: u32,
    pub pixel_space: c_int,
    pub line_space: c_int,
    pub samples: usize,
}

/// Whether a buffer of this size can be described to the backend and held
/// in memory: each side fits a native integer and the sample count fits
/// `usize`.
pub open spec fn output_sizable(size: (int, int)) -> bool {
    &&& 0 <= size.0 <= i32::MAX
    &&& 0 <= size.1 <= i32::MAX
    &&& size.0 * size.1 <= usize::MAX
}

/// Whether a window can be named to the backend: its offset and its extent
/// fit native integers.
pub open spec fn window_addressable(window: (isize, isize), window_size: (usize, usize)) -> bool {
    &&& fits_c_int(window.0 as int)
    &&& fits_c_int(window.1 as int)
    &&& window_size.0 <= i32::MAX
    &&& window_size.1 <= i32::MAX
}

impl RasterIo {
    /// Whether this transfer is the one in direction `rw_flag` between the
    /// given window of the band `c_rasterband` and a buffer of `size` samples
    /// of `pixel_type`: every number as the caller gave it, samples packed
    /// without gaps.
    pub open spec fn carries(
        self,
        c_rasterband: usize,
        rw_flag: u32,
        pixel_type: PixelType,
        window: (isize, isize),
        window_size: (usize, usize),
        size: (int, int),
    ) -> bool {
        &&& self.c_rasterband == c_rasterband
        &&& self.rw_flag == rw_flag
        &&& self.x_off == window.0
        &&& self.y_off == window.1
        &&& self.x_size == window_size.0
        &&& self.y_size == window_size.1
        &&& self.buf_x_size == size.0
        &&& self.buf_y_size == size.1
        &&& self.buf_type == pixel_type.native_code()
        &&& self.pixel_space == 0
        &&& self.line_space == 0
        &&& self.samples == size.0 * size.1
    }

    /// Width of the buffer that this transfer fills or drains.
    pub open spec fn buffer_width(self) -> int {
        extent_of(self.buf_x_size as int)
    }

    /// Height of the buffer that this transfer fills or drains.
    pub open spec fn buffer_height(self) -> int {
        extent_of(self.buf_y_size as int)
    }

    /// Turns the outcome of a transfer out of the band into a buffer. `rv` is
    /// the status class the backend returned, `data` the samples it filled
    /// in, `diagnostic` its last-error channel after the call.
    ///
    /// A failed transfer is a read failure with the backend's diagnostic,
    /// whatever `data` holds. After a transfer that succeeded, `data` becomes
    /// the buffer of the size that was asked for; samples that do not fill
    /// that size are a shape mismatch, never a partly filled buffer.
    pub fn read_done<T>(&self, rv: u32, data: Vec<T>, diagnostic: Diagnostic) -> (r: Result<
        Buffer<T>,
        RasterError,
    >)
        ensures
            match r {
                Ok(buffer) => {
                    &&& rv == CE_NONE
                    &&& data@.len() == self.buffer_width() * self.buffer_height()
                    &&& buffer.width() == self.buffer_width()
                    &&& buffer.height() == self.buffer_height()
                    &&& buffer@ == data@
                    &&& buffer@.len() == buffer.width() * buffer.height()
                },
                Err(e) => if rv != CE_NONE {
                    e == (RasterError::NativeReadError {
                        class: rv,
                        number: diagnostic.number,
                        msg: diagnostic.msg,
                    })
                } else {
                    &&& data@.len() != self.buffer_width() * self.buffer_height()
                    &&& e == (RasterError::ShapeMismatch {
                        width: self.buffer_width() as usize,
                        height: self.buffer_height() as usize,
                        len: data.len(),
                    })
                },
            },
    {
        if rv != CE_NONE {
            return Err(
                RasterError::NativeReadError {
                    class: rv,
                    number: diagnostic.number,
                    msg: diagnostic.msg,
                },
            );
        }
        Buffer::try_new(raster_size(self.buf_x_size, self.buf_y_size), data)
    }

    /// Turns the outcome of a transfer into the band into the caller's
    /// result: success, or a write failure with the backend's diagnostic.
    pub fn write_done(&self, rv: u32, diagnostic: Diagnostic) -> (r: Result<(), RasterError>)
        ensures
            rv == CE_NONE ==> r is Ok,
            rv != CE_NONE ==> r == Err::<(), RasterError>(
                RasterError::NativeWriteError {
                    class: rv,
                    number: diagnostic.number,
                    msg: diagnostic.msg,
                },
            ),
    {
        write_status(rv, diagnostic)
    }
}

/// Whether class, number and text are those of the failure "illegal
/// argument" without a text: what a transfer is answered with when its
/// window cannot even be named to the backend.
pub open spec fn is_unaddressable(class: u32, number: c_int, msg: String) -> bool {
    &&& class == CE_FAILURE
    &&& number == CPLE_ILLEGAL_ARG
    &&& msg@.len() == 0
}

impl<'a> RasterBand<'a> {
    #[verifier::type_invariant]
    spec fn live(&self) -> bool {
        self.c_rasterband != 0
    }

    /// The native band handle.
    pub closed spec fn handle(&self) -> usize {
        self.c_rasterband
    }

    /// The dataset this band belongs to.
    pub closed spec fn parent(&self) -> Dataset {
        *self.owner
    }

    /// Wraps a band handle that the backend returned for `owner`. The band
    /// stays the backend's; nothing is released when this value goes.
    pub fn from_c_ptr(c_rasterband: usize, owner: &'a Dataset) -> (band: RasterBand<'a>)
        requires
            c_rasterband != 0,
        ensures
            band.handle() == c_rasterband,
            band.parent() == *owner,
    {
        RasterBand { c_rasterband, owner }
    }

    /// The native band handle, which is never null.
    pub fn c_rasterband(&self) -> (c_rasterband: usize)
        ensures
            c_rasterband == self.handle(),
            c_rasterband != 0,
    {
        proof {
            use_type_invariant(self);
        }
        self.c_rasterband
    }

    /// The dataset this band belongs to.
    pub fn owner(&self) -> (owner: &'a Dataset)
        ensures
            *owner == self.parent(),
    {
        self.owner
    }

    /// The sample type of this band, from the pixel format the backend
    /// reports for it; `None` for a format this layer does not transfer.
    pub fn band_type(&self, native_type: u32) -> (pixel_type: Option<PixelType>)
        ensures
            pixel_type == PixelType::of_native_code(native_type),
    {
        PixelType::from_native(native_type)
    }

    /// The band's width and height in pixels, from the two extents the
    /// backend reports for it.
    pub fn size(&self, x_size: c_int, y_size: c_int) -> (size: (usize, usize))
        ensures
            size.0 == extent_of(x_size as int),
            size.1 == extent_of(y_size as int),
    {
        raster_size(x_size, y_size)
    }

    /// Width and height of the band's natural block, from the two extents
    /// the backend reports for it.
    pub fn size_block(&self, x_size: c_int, y_size: c_int) -> (size: (usize, usize))
        ensures
            size.0 == extent_of(x_size as int),
            size.1 == extent_of(y_size as int),
    {
        raster_size(x_size, y_size)
    }

    /// The transfer that reads the window at `window`, `window_size` pixels
    /// wide and high, into a buffer of `size` samples of `pixel_type`.
    ///
    /// Window and buffer size go to the backend as they are: where they
    /// differ the backend resamples, by its own policy. A buffer that cannot
    /// be described or held is an allocation failure; a window that cannot be
    /// named to the backend is a read failure, as a window outside the band
    /// would be.
    pub fn read_as(
        &self,
        pixel_type: PixelType,
        window: (isize, isize),
        window_size: (usize, usize),
        size: (usize, usize),
    ) -> (r: Result<RasterIo, RasterError>)
        ensures
            match r {
                Ok(io) => {
                    &&& output_sizable((size.0 as int, size.1 as int))
                    &&& window_addressable(window, window_size)
                    &&& io.carries(
                        self.handle(),
                        GF_READ,
                        pixel_type,
                        window,
                        window_size,
                        (size.0 as int, size.1 as int),
                    )
                },
                Err(e) => if !output_sizable((size.0 as int, size.1 as int)) {
                    e == (RasterError::AllocationError { width: size.0, height: size.1 })
                } else {
                    &&& !window_addressable(window, window_size)
                    &&& e matches RasterError::NativeReadError { class, number, msg }
                    &&& is_unaddressable(class, number, msg)
                },
            },
    {
        let buf: Option<(c_int, c_int, usize)> = Self::buffer_extent(size);
        let (buf_x_size, buf_y_size, samples) = match buf {
            Some(b) => b,
            None => {
                return Err(RasterError::AllocationError { width: size.0, height: size.1 });
            },
        };
        match Self::window_extent(window, window_size) {
            Some((x_off, y_off, x_size, y_size)) => Ok(
                RasterIo {
                    c_rasterband: self.c_rasterband,
                    rw_flag: GF_READ,
                    x_off,
                    y_off,
                    x_size,
                    y_size,
                    buf_x_size,
                    buf_y_size,
                    buf_type: pixel_type.to_native(),
                    pixel_space: 0,
                    line_space: 0,
                    samples,
                },
            ),
            None => Err(
                RasterError::NativeReadError {
                    class: CE_FAILURE,
                    number: CPLE_ILLEGAL_ARG,
                    msg: String::new(),
                },
            ),
        }
    }

    /// The transfer that reads the whole band, pixel for pixel, into a buffer
    /// of the band's own size, which is `band_size`.
    pub fn read_full(&self, pixel_type: PixelType, band_size: (usize, usize)) -> (r: Result<
        RasterIo,
        RasterError,
    >)
        ensures
            match r {
                Ok(io) => {
                    &&& output_sizable((band_size.0 as int, band_size.1 as int))
                    &&& io.carries(
                        self.handle(),
                        GF_READ,
                        pixel_type,
                        (0, 0),
                        band_size,
                        (band_size.0 as int, band_size.1 as int),
                    )
                },
                Err(e) => {
                    &&& !output_sizable((band_size.0 as int, band_size.1 as int))
                    &&& e == (RasterError::AllocationError {
                        width: band_size.0,
                        height: band_size.1,
                    })
                },
            },
    {
        self.read_as(pixel_type, (0, 0), band_size, band_size)
    }

    /// The transfer that writes `buffer`, whose samples are of `pixel_type`,
    /// into the window at `window`, `window_size` pixels wide and high.
    ///
    /// Where the window and the buffer differ in size the backend resamples.
    /// A window or a buffer whose numbers cannot be named to the backend is a
    /// write failure, as a window outside the band would be.
    pub fn write<T>(
        &self,
        pixel_type: PixelType,
        window: (isize, isize),
        window_size: (usize, usize),
        buffer: &Buffer<T>,
    ) -> (r: Result<RasterIo, RasterError>)
        ensures
            r is Ok <==> window_addressable(window, window_size) && output_sizable(
                (buffer.width() as int, buffer.height() as int),
            ),
            r matches Ok(io) ==> io.carries(
                self.handle(),
                GF_WRITE,
                pixel_type,
                window,
                window_size,
                (buffer.width() as int, buffer.height() as int),
            ),
            r matches Err(e) ==> {
                &&& e matches RasterError::NativeWriteError { class, number, msg }
                &&& is_unaddressable(class, number, msg)
            },
    {
        let size: (usize, usize) = buffer.size();
        let buf: Option<(c_int, c_int, usize)> = Self::buffer_extent(size);
        let win: Option<(c_int, c_int, c_int, c_int)> = Self::window_extent(window, window_size);
        match (buf, win) {
            (Some((buf_x_size, buf_y_size, samples)), Some((x_off, y_off, x_size, y_size))) => Ok(
                RasterIo {
                    c_rasterband: self.c_rasterband,
                    rw_flag: GF_WRITE,
                    x_off,
                    y_off,
                    x_size,
                    y_size,
                    buf_x_size,
                    buf_y_size,
                    buf_type: pixel_type.to_native(),
                    pixel_space: 0,
                    line_space: 0,
                    samples,
                },
            ),
            _ => Err(
                RasterError::NativeWriteError {
                    class: CE_FAILURE,
                    number: CPLE_ILLEGAL_ARG,
                    msg: String::new(),
                },
            ),
        }
    }

    /// A buffer's two sides as native integers, and its sample count.
    fn buffer_extent(size: (usize, usize)) -> (r: Option<(c_int, c_int, usize)>)
        ensures
            r is Some <==> output_sizable((size.0 as int, size.1 as int)),
            r matches Some(b) ==> b.0 == size.0 && b.1 == size.1 && b.2 == size.0 * size.1,
    {
        let x: Option<c_int> = c_int_from_usize(size.0);
        let y: Option<c_int> = c_int_from_usize(size.1);
        let samples: Option<usize> = size.0.checked_mul(size.1);
        match (x, y, samples) {
            (Some(buf_x_size), Some(buf_y_size), Some(n)) => Some((buf_x_size, buf_y_size, n)),
            _ => None,
        }
    }

    /// A window's offset and extent as native integers.
    fn window_extent(window: (isize, isize), window_size: (usize, usize)) -> (r: Option<
        (c_int, c_int, c_int, c_int),
    >)
        ensures
            r is Some <==> window_addressable(window, window_size),
            r matches Some(w) ==> {
                &&& w.0 == window.0
                &&& w.1 == window.1
                &&& w.2 == window_size.0
                &&& w.3 == window_size.1
            },
    {
        let x_off: Option<c_int> = c_int_from_isize(window.0);
        let y_off: Option<c_int> = c_int_from_isize(window.1);
        let x_size: Option<c_int> = c_int_from_usize(window_size.0);
        let y_size: Option<c_int> = c_int_from_usize(window_size.1);
        match (x_off, y_off, x_size, y_size) {
            (Some(a), Some(b), Some(c), Some(d)) => Some((a, b, c, d)),
            _ => None,
        }
    }
}

/// Writing back what a read produced retraces the read. If a read of a
/// window is planned, and the buffer that came of it has the size that was
/// asked for, then the write of that buffer to the same window can be
/// planned too, and its transfer has the numbers of the read in every
/// place but the direction. What the band holds afterwards is the
/// backend's doing.
pub proof fn lemma_write_back_retraces_read(
    read: RasterIo,
    write: RasterIo,
    c_rasterband: usize,
    pixel_type: PixelType,
    window: (isize, isize),
    window_size: (usize, usize),
    size: (usize, usize),
    buffer_size: (int, int),
)
    requires
        output_sizable((size.0 as int, size.1 as int)),
        window_addressable(window, window_size),
        read.carries(
            c_rasterband,
            GF_READ,
            pixel_type,
            window,
            window_size,
            (size.0 as int, size.1 as int),
        ),
        buffer_size.0 == read.buffer_width(),
        buffer_size.1 == read.buffer_height(),
        write.carries(c_rasterband, GF_WRITE, pixel_type, window, window_size, buffer_size),
    ensures
        output_sizable(buffer_size),
        write == (RasterIo { rw_flag: GF_WRITE, ..read }),
        write.samples == read.samples,
{
}

/// The buffer sides that a planned transfer stands for are the sides that
/// were asked for, and the sample count it carries is their product: a
/// buffer built after the transfer has the size the caller named, filled to
/// the last place.
pub proof fn lemma_planned_size_is_buffer_size(
    io: RasterIo,
    c_rasterband: usize,
    rw_flag: u32,
    pixel_type: PixelType,
    window: (isize, isize),
    window_size: (usize, usize),
    size: (usize, usize),
)
    requires
        io.carries(
            c_rasterband,
            rw_flag,
            pixel_type,
            window,
            window_size,
            (size.0 as int, size.1 as int),
        ),
    ensures
        io.buffer_width() == size.0,
        io.buffer_height() == size.1,
        io.samples == io.buffer_width() * io.buffer_height(),
{
}

} // verus!
