use gdal::array::PixelArray;
use gdal::buffer::Buffer;
use gdal::dataset::{Dataset, DatasetExt};
use gdal::errors::RasterError;
use gdal::native::Diagnostic;
use gdal::pixel::PixelType;
use gdal::rasterband::RasterBand;

fn quiet() -> Diagnostic {
    Diagnostic { number: 0, msg: String::new() }
}

#[test]
fn array_has_rows_first() {
    let buffer = Buffer::new((3, 2), vec![1u8, 2, 3, 4, 5, 6]);
    let array = PixelArray::from_buffer(buffer).unwrap().array;
    assert_eq!(array.dim(), (2, 3));
    assert_eq!(array[[0, 0]], 1);
    assert_eq!(array[[0, 2]], 3);
    assert_eq!(array[[1, 0]], 4);
    assert_eq!(array[[1, 2]], 6);
    assert_eq!(array, ndarray::arr2(&[[1u8, 2, 3], [4, 5, 6]]));
}

#[test]
fn array_keeps_every_sample_in_row_major_order() {
    let (w, h) = (5usize, 4usize);
    let data: Vec<u32> = (0..20).collect();
    let array = PixelArray::from_buffer(Buffer::new((w, h), data.clone())).unwrap().array;
    for y in 0..h {
        for x in 0..w {
            assert_eq!(array[[y, x]], data[y * w + x]);
        }
    }
}

#[test]
fn array_of_an_empty_buffer() {
    let buffer: Buffer<f32> = Buffer::new((0, 4), Vec::new());
    let array = PixelArray::from_buffer(buffer).unwrap().array;
    assert_eq!(array.dim(), (4, 0));
    assert_eq!(array.len(), 0);
}

#[test]
fn array_with_a_side_beyond_isize_is_refused() {
    let buffer: Buffer<u8> = Buffer::new((usize::MAX, 0), Vec::new());
    match PixelArray::from_buffer(buffer) {
        Err(e) => assert_eq!(e, RasterError::AllocationError { width: usize::MAX, height: 0 }),
        Ok(_) => panic!("an array with a side beyond isize"),
    }
    let fits: Buffer<u8> = Buffer::new((isize::MAX as usize, 0), Vec::new());
    assert!(PixelArray::from_buffer(fits).is_ok());
}

#[test]
fn read_array_done_builds_the_array() {
    let dataset = Dataset::from_c_ptr(42);
    let band = RasterBand::from_c_ptr(77, &dataset);
    let io = band.read_as(PixelType::Int32, (0, 0), (2, 3), (2, 3)).unwrap();
    let array = match io.read_array_done(0, vec![1i32, 2, 3, 4, 5, 6], quiet()) {
        Ok(a) => a.array,
        Err(e) => panic!("{:?}", e),
    };
    assert_eq!(array, ndarray::arr2(&[[1i32, 2], [3, 4], [5, 6]]));
}

#[test]
fn read_array_done_failures() {
    let dataset = Dataset::from_c_ptr(42);
    let band = RasterBand::from_c_ptr(77, &dataset);
    let io = band.read_as(PixelType::Int32, (0, 0), (2, 3), (2, 3)).unwrap();
    match io.read_array_done(3, vec![0i32; 6], Diagnostic { number: 5, msg: "bad window".to_string() }) {
        Err(e) => assert_eq!(
            e,
            RasterError::NativeReadError { class: 3, number: 5, msg: "bad window".to_string() }
        ),
        Ok(_) => panic!("a failed transfer gave an array"),
    }
    match io.read_array_done(0, vec![0i32; 5], quiet()) {
        Err(e) => assert_eq!(e, RasterError::ShapeMismatch { width: 2, height: 3, len: 5 }),
        Ok(_) => panic!("five samples filled six places"),
    }
}
