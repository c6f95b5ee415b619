//! The failures this layer reports.

use vstd::prelude::*;

verus! {

/// A typed failure. `msg` is the backend's last diagnostic text, empty when
/// the failure was found before the backend was asked.
#[derive(Clone, Debug, PartialEq, Eq)]
pub enum RasterError {
    /// The backend returned no dataset for the path.
    OpenError { msg: String },
    /// The dataset has no band with this 1-based index.
    BandNotFound { band_index: isize, msg: String },
    /// A transfer out of a band failed.
    NativeReadError { class: u32, number: i32, msg: String },
    /// A transfer into a band, or another native update, failed.
    NativeWriteError { class: u32, number: i32, msg: String },
    /// The dataset carries no affine geo-transform.
    NoGeoTransform { class: u32, number: i32, msg: String },
    /// The backend returned no dataset for the copy.
    CopyError { msg: String },
    /// A sample sequence whose length is not width times height.
    ShapeMismatch { width: usize, height: usize, len: usize },
    /// A native call that must not return null did.
    NullPointerError { method_name: &'static str, msg: String },
    /// An output buffer of this size cannot be described or allocated.
    AllocationError { width: usize, height: usize },
    /// A string with a zero byte at `position` cannot be handed to the backend.
    NulError { position: usize },
}

} // verus!
