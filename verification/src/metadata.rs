//! Descriptions and key/value tags, which datasets, bands and drivers share.

use vstd::prelude::*;
use vstd::string::StringSliceAdditionalSpecFns;

use crate::dataset::Dataset;
use crate::driver::Driver;
use crate::errors::RasterError;
use crate::native::{c_string_bytes, first_nul_at, nul_free, write_status, Diagnostic, CE_NONE};
use crate::rasterband::RasterBand;

verus! {

/// Anything the backend treats as an object that carries a description and
/// tags.
pub trait MajorObject {
    /// The native object handle.
    spec fn object_handle(&self) -> usize;

    /// The native object handle.
    fn gdal_object_ptr(&self) -> (c_object: usize)
        ensures
            c_object == self.object_handle(),
    ;
}

/// The arguments of the native call that reads one tag.
#[derive(Clone, Debug, PartialEq, Eq)]
pub struct ItemCall {
    /// The object that is asked.
    pub c_object: usize,
    /// The tag's key, free of zero bytes.
    pub key: Vec<u8>,
    /// The tag's domain, free of zero bytes.
    pub domain: Vec<u8>,
}

/// The arguments of the native call that sets one tag.
#[derive(Clone, Debug, PartialEq, Eq)]
pub struct SetItemCall {
    /// The object that is changed.
    pub c_object: usize,
    /// The tag's key, free of zero bytes.
    pub key: Vec<u8>,
    /// The tag's new value, free of zero bytes.
    pub value: Vec<u8>,
    /// The tag's domain, free of zero bytes.
    pub domain: Vec<u8>,
}

/// Whether `position` is where the first zero byte lies in the first of
/// key, domain and value, in this order, that has one.
pub open spec fn first_nul_of_item(
    key: Seq<u8>,
    domain: Seq<u8>,
    value: Seq<u8>,
    position: int,
) -> bool {
    if !nul_free(key) {
        first_nul_at(key, position)
    } else if !nul_free(domain) {
        first_nul_at(domain, position)
    } else {
        first_nul_at(value, position)
    }
}

/// Description and tags of a native object. Each operation either prepares
/// the arguments of a native call or reads what such a call returned.
pub trait Metadata: MajorObject {
    /// Reads what the backend returned as the object's description: the
    /// text, or, where it returned null, the failure that says so.
    fn description(&self, c_res: Option<String>, diagnostic: Diagnostic) -> (r: Result<
        String,
        RasterError,
    >)
        ensures
            match c_res {
                Some(text) => r == Ok::<String, RasterError>(text),
                None => r == Err::<String, RasterError>(
                    RasterError::NullPointerError {
                        method_name: "GDALGetDescription",
                        msg: diagnostic.msg,
                    },
                ),
            },
    {
        match c_res {
            Some(text) => Ok(text),
            None => Err(
                RasterError::NullPointerError {
                    method_name: "GDALGetDescription",
                    msg: diagnostic.msg,
                },
            ),
        }
    }

    /// The call that reads the tag `key` of `domain`. A key or a domain with
    /// a zero byte names no tag, and the backend is not asked.
    fn metadata_item(&self, key: &str, domain: &str) -> (r: Option<ItemCall>)
        ensures
            r is Some <==> nul_free(key.spec_bytes()) && nul_free(domain.spec_bytes()),
            r matches Some(call) ==> {
                &&& call.c_object == self.object_handle()
                &&& call.key@ == key.spec_bytes()
                &&& call.domain@ == domain.spec_bytes()
            },
    {
        match c_string_bytes(key) {
            Ok(key_bytes) => match c_string_bytes(domain) {
                Ok(domain_bytes) => Some(
                    ItemCall {
                        c_object: self.gdal_object_ptr(),
                        key: key_bytes,
                        domain: domain_bytes,
                    },
                ),
                Err(_) => None,
            },
            Err(_) => None,
        }
    }

    /// The call that sets the tag `key` of `domain` to `value`. None of the
    /// three may hold a zero byte; the failure names the first one found,
    /// looking at the key, then the domain, then the value.
    fn set_metadata_item(&self, key: &str, value: &str, domain: &str) -> (r: Result<
        SetItemCall,
        RasterError,
    >)
        ensures
            match r {
                Ok(call) => {
                    &&& nul_free(key.spec_bytes())
                    &&& nul_free(domain.spec_bytes())
                    &&& nul_free(value.spec_bytes())
                    &&& call.c_object == self.object_handle()
                    &&& call.key@ == key.spec_bytes()
                    &&& call.value@ == value.spec_bytes()
                    &&& call.domain@ == domain.spec_bytes()
                },
                Err(e) => {
                    &&& e matches RasterError::NulError { position }
                    &&& !(nul_free(key.spec_bytes()) && nul_free(domain.spec_bytes()) && nul_free(
                        value.spec_bytes(),
                    ))
                    &&& first_nul_of_item(
                        key.spec_bytes(),
                        domain.spec_bytes(),
                        value.spec_bytes(),
                        position as int,
                    )
                },
            },
    {
        let key_bytes: Vec<u8> = match c_string_bytes(key) {
            Ok(bytes) => bytes,
            Err(position) => {
                return Err(RasterError::NulError { position });
            },
        };
        let domain_bytes: Vec<u8> = match c_string_bytes(domain) {
            Ok(bytes) => bytes,
            Err(position) => {
                return Err(RasterError::NulError { position });
            },
        };
        let value_bytes: Vec<u8> = match c_string_bytes(value) {
            Ok(bytes) => bytes,
            Err(position) => {
                return Err(RasterError::NulError { position });
            },
        };
        Ok(
            SetItemCall {
                c_object: self.gdal_object_ptr(),
                key: key_bytes,
                value: value_bytes,
                domain: domain_bytes,
            },
        )
    }

    /// Reads the status class of the native call that set a tag.
    fn metadata_item_set(&self, rv: u32, diagnostic: Diagnostic) -> (r: Result<(), RasterError>)
        ensures
            rv == CE_NONE ==> r is Ok,
            rv != CE_NONE ==> r == Err::<(), RasterError>(
                RasterError::NativeWriteError {
                    class: rv,
                    number: diagnostic.number,
                    msg: diagnostic.msg,
                },
            ),
    {
        write_status(rv, diagnostic)
    }
}

impl MajorObject for Dataset {
    open spec fn object_handle(&self) -> usize {
        self.handle()
    }

    fn gdal_object_ptr(&self) -> (c_object: usize) {
        crate::dataset::DatasetExt::c_dataset(self)
    }
}

impl Metadata for Dataset {

}

impl<'a> MajorObject for RasterBand<'a> {
    open spec fn object_handle(&self) -> usize {
        self.handle()
    }

    fn gdal_object_ptr(&self) -> (c_object: usize) {
        self.c_rasterband()
    }
}

impl<'a> Metadata for RasterBand<'a> {

}

impl MajorObject for Driver {
    open spec fn object_handle(&self) -> usize {
        self.handle()
    }

    fn gdal_object_ptr(&self) -> (c_object: usize) {
        self.c_driver()
    }
}

impl Metadata for Driver {

}

} // verus!
