//! An open raster dataset: the root of the handle hierarchy.

use libc::c_int;
use vstd::prelude::*;
use vstd::string::StringSliceAdditionalSpecFns;

use crate::driver::Driver;
use crate::errors::RasterError;
use crate::native::{
    c_string_bytes, extent_of, first_nul_at, nul_free, raster_size, write_status, Diagnostic,
    CE_NONE, GA_READ_ONLY,
};
use crate::rasterband::RasterBand;

verus! {

/// One open raster resource. The value owns its native handle: the handle
/// is live from a successful open until `close`, is never null, and is given
/// up exactly once, because `close` takes the value with it.
#[derive(Debug, PartialEq, Eq)]
pub struct Dataset {
    c_dataset: usize,
}

impl Dataset {
    #[verifier::type_invariant]
    spec fn live(&self) -> bool {
        self.c_dataset != 0
    }

    /// The native dataset handle.
    pub closed spec fn handle(&self) -> usize {
        self.c_dataset
    }

    /// Ends the ownership: the value is gone, and the handle it held comes
    /// back to be released, once.
    pub fn close(self) -> (c_dataset: usize)
        ensures
            c_dataset == self.handle(),
            c_dataset != 0,
    {
        proof {
            use_type_invariant(&self);
        }
        self.c_dataset
    }
}

/// The arguments of the native call that opens a dataset.
#[derive(Clone, Debug, PartialEq, Eq)]
pub struct OpenCall {
    /// The path, free of zero bytes; the caller appends the terminator.
    pub filename: Vec<u8>,
    /// The access mode.
    pub access: u32,
}

/// The arguments of the native call that looks a band up.
#[derive(Debug)]
pub struct BandCall<'a> {
    /// The dataset that is asked.
    pub owner: &'a Dataset,
    /// The band's 1-based index, as the caller gave it.
    pub band_index: c_int,
}

/// The arguments of the native call that copies a dataset to a new place.
#[derive(Clone, Debug, PartialEq, Eq)]
pub struct CopyCall {
    /// The driver that writes the copy.
    pub c_driver: usize,
    /// The copy's path, free of zero bytes; the caller appends the terminator.
    pub filename: Vec<u8>,
    /// The dataset that is copied.
    pub c_source: usize,
    /// Whether the copy must be exact; it need not.
    pub strict: c_int,
}

impl OpenCall {
    /// Turns the handle that the open call returned into a dataset. A null
    /// handle is the open failure, with the backend's diagnostic; nothing
    /// else fails.
    pub fn opened(self, c_dataset: usize, diagnostic: Diagnostic) -> (r: Result<
        Dataset,
        RasterError,
    >)
        ensures
            c_dataset != 0 ==> (r matches Ok(dataset) && dataset.handle() == c_dataset),
            c_dataset == 0 ==> r == Err::<Dataset, RasterError>(
                RasterError::OpenError { msg: diagnostic.msg },
            ),
    {
        if c_dataset == 0 {
            Err(RasterError::OpenError { msg: diagnostic.msg })
        } else {
            Ok(Dataset { c_dataset })
        }
    }
}

impl<'a> BandCall<'a> {
    /// Turns the handle that the lookup returned into a band of the dataset
    /// that was asked. A null handle means the dataset has no such band.
    pub fn found(self, c_rasterband: usize, diagnostic: Diagnostic) -> (r: Result<
        RasterBand<'a>,
        RasterError,
    >)
        ensures
            c_rasterband != 0 ==> (r matches Ok(band) && band.handle() == c_rasterband
                && band.parent() == *self.owner),
            c_rasterband == 0 ==> r == Err::<RasterBand<'a>, RasterError>(
                RasterError::BandNotFound {
                    band_index: self.band_index as isize,
                    msg: diagnostic.msg,
                },
            ),
    {
        if c_rasterband == 0 {
            Err(
                RasterError::BandNotFound {
                    band_index: self.band_index as isize,
                    msg: diagnostic.msg,
                },
            )
        } else {
            Ok(RasterBand::from_c_ptr(c_rasterband, self.owner))
        }
    }
}

impl CopyCall {
    /// Turns the handle that the copy call returned into the new dataset. A
    /// null handle is the copy failure, with the backend's diagnostic.
    pub fn copied(self, c_dataset: usize, diagnostic: Diagnostic) -> (r: Result<
        Dataset,
        RasterError,
    >)
        ensures
            c_dataset != 0 ==> (r matches Ok(dataset) && dataset.handle() == c_dataset),
            c_dataset == 0 ==> r == Err::<Dataset, RasterError>(
                RasterError::CopyError { msg: diagnostic.msg },
            ),
    {
        if c_dataset == 0 {
            Err(RasterError::CopyError { msg: diagnostic.msg })
        } else {
            Ok(Dataset { c_dataset })
        }
    }
}

/// What can be asked of anything that stands for an open dataset. Each
/// operation either prepares the arguments of a native call or reads what
/// such a call returned; making the call is the embedding program's part.
pub trait DatasetExt {
    /// The dataset this value stands for.
    spec fn dataset(&self) -> Dataset;

    /// The dataset this value stands for.
    fn as_dataset(&self) -> (dataset: &Dataset)
        ensures
            *dataset == self.dataset(),
    ;

    /// The native dataset handle, which is never null.
    fn c_dataset(&self) -> (c_dataset: usize)
        ensures
            c_dataset == self.dataset().handle(),
            c_dataset != 0,
    ;

    /// The call that opens the dataset at `path` for reading. A path with a
    /// zero byte names nothing the backend could open, and is the open
    /// failure without a diagnostic.
    fn open(path: &str) -> (r: Result<OpenCall, RasterError>)
        ensures
            match r {
                Ok(call) => {
                    &&& nul_free(path.spec_bytes())
                    &&& call.filename@ == path.spec_bytes()
                    &&& call.access == GA_READ_ONLY
                },
                Err(e) => {
                    &&& !nul_free(path.spec_bytes())
                    &&& e matches RasterError::OpenError { msg }
                    &&& msg@.len() == 0
                },
            },
    {
        match c_string_bytes(path) {
            Ok(filename) => Ok(OpenCall { filename, access: GA_READ_ONLY }),
            Err(_) => Err(RasterError::OpenError { msg: String::new() }),
        }
    }

    /// Takes ownership of a dataset handle that the backend returned.
    fn from_c_ptr(c_dataset: usize) -> (dataset: Dataset)
        requires
            c_dataset != 0,
        ensures
            dataset.handle() == c_dataset,
    {
        Dataset { c_dataset }
    }

    /// The call that looks up the band with the 1-based index `band_index`
    /// in a dataset of `band_count` bands. An index below 1 or above the
    /// count finds no band, and the backend is not asked.
    fn rasterband(&self, band_index: isize, band_count: c_int) -> (r: Result<
        BandCall<'_>,
        RasterError,
    >)
        ensures
            match r {
                Ok(call) => {
                    &&& 1 <= band_index <= band_count
                    &&& call.band_index == band_index
                    &&& *call.owner == self.dataset()
                },
                Err(e) => {
                    &&& !(1 <= band_index <= band_count)
                    &&& e matches RasterError::BandNotFound { band_index: index, msg }
                    &&& index == band_index
                    &&& msg@.len() == 0
                },
            },
    {
        if band_index < 1 || band_count < 1 || band_index > band_count as isize {
            Err(RasterError::BandNotFound { band_index, msg: String::new() })
        } else {
            Ok(BandCall { owner: self.as_dataset(), band_index: band_index as c_int })
        }
    }

    /// The dataset's width and height in pixels, from the two extents the
    /// backend reports for it.
    fn size(&self, x_size: c_int, y_size: c_int) -> (size: (usize, usize))
        ensures
            size.0 == extent_of(x_size as int),
            size.1 == extent_of(y_size as int),
    {
        raster_size(x_size, y_size)
    }

    /// The driver behind the dataset, from the handle the backend reports.
    fn driver(&self, c_driver: usize) -> (driver: Driver)
        ensures
            driver.handle() == c_driver,
    {
        Driver::from_c_ptr(c_driver)
    }

    /// The number of bands, from the count the backend reports.
    fn count(&self, band_count: c_int) -> (count: isize)
        ensures
            count == band_count,
    {
        band_count as isize
    }

    /// The bytes of a spatial-reference string as the backend takes them. A
    /// string with a zero byte cannot be handed over.
    fn set_projection(&self, projection: &str) -> (r: Result<Vec<u8>, RasterError>)
        ensures
            match r {
                Ok(bytes) => nul_free(projection.spec_bytes()) && bytes@ == projection.spec_bytes(),
                Err(e) => e matches RasterError::NulError { position } && first_nul_at(
                    projection.spec_bytes(),
                    position as int,
                ),
            },
    {
        match c_string_bytes(projection) {
            Ok(bytes) => Ok(bytes),
            Err(position) => Err(RasterError::NulError { position }),
        }
    }

    /// Reads the status class of the native call that set the projection.
    fn projection_set(&self, rv: u32, diagnostic: Diagnostic) -> (r: Result<(), RasterError>)
        ensures
            rv == CE_NONE ==> r is Ok,
            rv != CE_NONE ==> r == Err::<(), RasterError>(
                RasterError::NativeWriteError {
                    class: rv,
                    number: diagnostic.number,
                    msg: diagnostic.msg,
                },
            ),
    {
        write_status(rv, diagnostic)
    }

    /// Reads the status class of the native call that set the geo-transform.
    fn set_geo_transform(&self, rv: u32, diagnostic: Diagnostic) -> (r: Result<(), RasterError>)
        ensures
            rv == CE_NONE ==> r is Ok,
            rv != CE_NONE ==> r == Err::<(), RasterError>(
                RasterError::NativeWriteError {
                    class: rv,
                    number: diagnostic.number,
                    msg: diagnostic.msg,
                },
            ),
    {
        write_status(rv, diagnostic)
    }

    /// Reads the outcome of the native call that fetched the geo-transform:
    /// the six coefficients exactly as the backend filled them in, or, where
    /// the backend reports that the dataset has none, that failure.
    fn geo_transform<G>(&self, rv: u32, transformation: G, diagnostic: Diagnostic) -> (r: Result<
        G,
        RasterError,
    >)
        ensures
            rv == CE_NONE ==> r == Ok::<G, RasterError>(transformation),
            rv != CE_NONE ==> r == Err::<G, RasterError>(
                RasterError::NoGeoTransform {
                    class: rv,
                    number: diagnostic.number,
                    msg: diagnostic.msg,
                },
            ),
    {
        if rv == CE_NONE {
            Ok(transformation)
        } else {
            Err(
                RasterError::NoGeoTransform {
                    class: rv,
                    number: diagnostic.number,
                    msg: diagnostic.msg,
                },
            )
        }
    }

    /// The call that has `driver` write a full copy of this dataset to
    /// `filename`. A name with a zero byte cannot be handed over.
    fn create_copy(&self, driver: &Driver, filename: &str) -> (r: Result<CopyCall, RasterError>)
        ensures
            match r {
                Ok(call) => {
                    &&& nul_free(filename.spec_bytes())
                    &&& call.c_driver == driver.handle()
                    &&& call.filename@ == filename.spec_bytes()
                    &&& call.c_source == self.dataset().handle()
                    &&& call.strict == 0
                },
                Err(e) => e matches RasterError::NulError { position } && first_nul_at(
                    filename.spec_bytes(),
                    position as int,
                ),
            },
    {
        match c_string_bytes(filename) {
            Ok(bytes) => Ok(
                CopyCall {
                    c_driver: driver.c_driver(),
                    filename: bytes,
                    c_source: self.c_dataset(),
                    strict: 0,
                },
            ),
            Err(position) => Err(RasterError::NulError { position }),
        }
    }
}

impl DatasetExt for Dataset {
    open spec fn dataset(&self) -> Dataset {
        *self
    }

    fn as_dataset(&self) -> (dataset: &Dataset) {
        self
    }

    fn c_dataset(&self) -> (c_dataset: usize) {
        proof {
            use_type_invariant(self);
        }
        self.c_dataset
    }
}

} // verus!
