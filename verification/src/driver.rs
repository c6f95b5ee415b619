//! The format backend behind a dataset.

use vstd::prelude::*;

verus! {

/// A reference to a format backend. The backend owns its drivers for the
/// life of the process; this value only names one.
#[derive(Clone, Copy, Debug, PartialEq, Eq)]
pub struct Driver {
    c_driver: usize,
}

impl Driver {
    /// The native driver handle.
    pub closed spec fn handle(&self) -> usize {
        self.c_driver
    }

    /// Names the driver behind a native driver handle.
    pub fn from_c_ptr(c_driver: usize) -> (driver: Driver)
        ensures
            driver.handle() == c_driver,
    {
        Driver { c_driver }
    }

    /// The native driver handle.
    pub fn c_driver(&self) -> (c_driver: usize)
        ensures
            c_driver == self.handle(),
    {
        self.c_driver
    }
}

} // verus!
