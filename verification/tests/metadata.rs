use gdal::dataset::{Dataset, DatasetExt};
use gdal::driver::Driver;
use gdal::errors::RasterError;
use gdal::metadata::{ItemCall, MajorObject, Metadata, SetItemCall};
use gdal::native::Diagnostic;
use gdal::rasterband::RasterBand;

fn diagnostic(number: i32, msg: &str) -> Diagnostic {
    Diagnostic { number, msg: msg.to_string() }
}

#[test]
fn object_handles() {
    let dataset = Dataset::from_c_ptr(42);
    let band = RasterBand::from_c_ptr(77, &dataset);
    let driver = Driver::from_c_ptr(9);
    assert_eq!(dataset.gdal_object_ptr(), 42);
    assert_eq!(dataset.gdal_object_ptr(), dataset.c_dataset());
    assert_eq!(band.gdal_object_ptr(), 77);
    assert_eq!(driver.gdal_object_ptr(), 9);
}

#[test]
fn description_passes_the_text_through() {
    let dataset = Dataset::from_c_ptr(42);
    assert_eq!(
        dataset.description(Some("./fixtures/tinymarble.png".to_string()), diagnostic(0, "")),
        Ok("./fixtures/tinymarble.png".to_string())
    );
    let driver = Driver::from_c_ptr(9);
    assert_eq!(driver.description(Some("MEM".to_string()), diagnostic(0, "")), Ok("MEM".to_string()));
}

#[test]
fn description_null_is_a_null_pointer_error() {
    let dataset = Dataset::from_c_ptr(42);
    assert_eq!(
        dataset.description(None, diagnostic(1, "no description")),
        Err(RasterError::NullPointerError {
            method_name: "GDALGetDescription",
            msg: "no description".to_string()
        })
    );
}

#[test]
fn metadata_item_prepares_the_call() {
    let dataset = Dataset::from_c_ptr(42);
    assert_eq!(
        dataset.metadata_item("INTERLEAVE", "IMAGE_STRUCTURE"),
        Some(ItemCall {
            c_object: 42,
            key: b"INTERLEAVE".to_vec(),
            domain: b"IMAGE_STRUCTURE".to_vec()
        })
    );
    let band = RasterBand::from_c_ptr(77, &dataset);
    assert_eq!(
        band.metadata_item("STATISTICS_MEAN", ""),
        Some(ItemCall { c_object: 77, key: b"STATISTICS_MEAN".to_vec(), domain: Vec::new() })
    );
}

#[test]
fn metadata_item_with_a_zero_byte_is_none() {
    let dataset = Dataset::from_c_ptr(42);
    assert_eq!(dataset.metadata_item("INTER\0LEAVE", "IMAGE_STRUCTURE"), None);
    assert_eq!(dataset.metadata_item("INTERLEAVE", "\0"), None);
}

#[test]
fn set_metadata_item_prepares_the_call() {
    let dataset = Dataset::from_c_ptr(42);
    assert_eq!(
        dataset.set_metadata_item("AREA_OR_POINT", "Area", ""),
        Ok(SetItemCall {
            c_object: 42,
            key: b"AREA_OR_POINT".to_vec(),
            value: b"Area".to_vec(),
            domain: Vec::new()
        })
    );
}

#[test]
fn set_metadata_item_names_the_first_zero_byte() {
    let dataset = Dataset::from_c_ptr(42);
    assert_eq!(
        dataset.set_metadata_item("k\0", "v\0", "dom\0"),
        Err(RasterError::NulError { position: 1 })
    );
    assert_eq!(
        dataset.set_metadata_item("k", "\0v", "dom\0"),
        Err(RasterError::NulError { position: 3 })
    );
    assert_eq!(
        dataset.set_metadata_item("k", "va\0", "dom"),
        Err(RasterError::NulError { position: 2 })
    );
}

#[test]
fn metadata_item_set_reads_the_status() {
    let dataset = Dataset::from_c_ptr(42);
    assert_eq!(dataset.metadata_item_set(0, diagnostic(0, "")), Ok(()));
    assert_eq!(
        dataset.metadata_item_set(3, diagnostic(6, "read-only")),
        Err(RasterError::NativeWriteError { class: 3, number: 6, msg: "read-only".to_string() })
    );
}
