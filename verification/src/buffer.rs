//! A rectangular grid of samples held in memory.

use vstd::prelude::*;

use crate::errors::RasterError;

verus! {

/// A grid of `width` by `height` samples in row-major order: the sample in
/// column `x` of row `y` is the one at index `y * width + x`.
#[derive(Debug, PartialEq, Eq)]
pub struct Buffer<T> {
    width: usize,
    height: usize,
    data: Vec<T>,
}

/// A buffer of 8-bit samples.
pub type ByteBuffer = Buffer<u8>;

impl<T> View for Buffer<T> {
    type V = Seq<T>;

    /// The samples, row by row.
    closed spec fn view(&self) -> Seq<T> {
        self.data@
    }
}

impl<T: Clone> Clone for Buffer<T> {
    /// A second buffer of the same size, over clones of the samples.
    fn clone(&self) -> (copy: Self)
        ensures
            copy.width() == self.width(),
            copy.height() == self.height(),
            copy@.len() == self@.len(),
            forall|i: int| 0 <= i < self@.len() ==> cloned::<T>(#[trigger] self@[i], copy@[i]),
    {
        proof {
            use_type_invariant(self);
        }
        Buffer { width: self.width, height: self.height, data: self.data.clone() }
    }
}

impl<T> Buffer<T> {
    #[verifier::type_invariant]
    spec fn filled(&self) -> bool {
        self.data@.len() == self.width * self.height
    }

    /// Number of samples in a row.
    pub closed spec fn width(&self) -> nat {
        self.width as nat
    }

    /// Number of rows.
    pub closed spec fn height(&self) -> nat {
        self.height as nat
    }

    /// Whether `len` samples fill a grid of this size exactly.
    pub open spec fn fills(size: (usize, usize), len: nat) -> bool {
        len == size.0 * size.1
    }

    /// A buffer of the given size over the given samples, which the caller
    /// knows to fill it.
    pub fn new(size: (usize, usize), data: Vec<T>) -> (buffer: Buffer<T>)
        requires
            Self::fills(size, data@.len()),
        ensures
            buffer.width() == size.0,
            buffer.height() == size.1,
            buffer@ == data@,
    {
        Buffer { width: size.0, height: size.1, data }
    }

    /// A buffer of the given size over the given samples, or the mismatch
    /// between the two.
    pub fn try_new(size: (usize, usize), data: Vec<T>) -> (r: Result<Buffer<T>, RasterError>)
        ensures
            match r {
                Ok(buffer) => {
                    &&& Self::fills(size, data@.len())
                    &&& buffer.width() == size.0
                    &&& buffer.height() == size.1
                    &&& buffer@ == data@
                },
                Err(e) => {
                    &&& !Self::fills(size, data@.len())
                    &&& e == (RasterError::ShapeMismatch { width: size.0, height: size.1, len: data.len() })
                },
            },
    {
        let len: usize = data.len();
        match size.0.checked_mul(size.1) {
            Some(samples) => {
                if samples == len {
                    Ok(Buffer { width: size.0, height: size.1, data })
                } else {
                    Err(RasterError::ShapeMismatch { width: size.0, height: size.1, len })
                }
            },
            None => Err(RasterError::ShapeMismatch { width: size.0, height: size.1, len }),
        }
    }

    /// Width and height, in samples.
    pub fn size(&self) -> (size: (usize, usize))
        ensures
            size.0 == self.width(),
            size.1 == self.height(),
    {
        (self.width, self.height)
    }

    /// The samples, row by row.
    pub fn data(&self) -> (data: &Vec<T>)
        ensures
            data@ == self@,
    {
        &self.data
    }

    /// Gives up the grid and keeps the samples.
    pub fn into_data(self) -> (data: Vec<T>)
        ensures
            data@ == self@,
    {
        self.data
    }

    /// Number of samples, which is always width times height.
    pub fn len(&self) -> (len: usize)
        ensures
            len == self@.len(),
            len == self.width() * self.height(),
    {
        proof {
            use_type_invariant(self);
        }
        self.data.len()
    }
}

} // verus!
