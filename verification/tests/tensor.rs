use onnx_ml_test::tensor::{BATCH, CHANNELS, ELEMENTS, HEIGHT, WIDTH};
use onnx_ml_test::{build_tensor, GrayGrid, PipelineError, GRID_SIDE, INTENSITY_SCALE};

fn ramp_grid() -> GrayGrid {
    let pixels = (0..784u32).map(|i| (i * 7 % 256) as u8).collect::<Vec<u8>>();
    GrayGrid::new(28, 28, pixels).unwrap()
}

#[test]
fn a_grid_holds_one_intensity_per_pixel() {
    let grid = GrayGrid::new(3, 2, vec![1, 2, 3, 4, 5, 6]).unwrap();
    assert_eq!(grid.dimensions(), (3, 2));
    assert_eq!(grid.width(), 3);
    assert_eq!(grid.height(), 2);
    assert_eq!(grid.as_raw(), &vec![1, 2, 3, 4, 5, 6]);
    assert!(!grid.is_model_sized());
}

#[test]
fn a_grid_is_read_row_by_row() {
    let grid = GrayGrid::new(3, 2, vec![1, 2, 3, 4, 5, 6]).unwrap();
    assert_eq!(grid.pixel(0, 0), Some(1));
    assert_eq!(grid.pixel(2, 0), Some(3));
    assert_eq!(grid.pixel(0, 1), Some(4));
    assert_eq!(grid.pixel(2, 1), Some(6));
    assert_eq!(grid.pixel(3, 0), None);
    assert_eq!(grid.pixel(0, 2), None);
    assert_eq!(grid.pixel(u32::MAX, u32::MAX), None);
}

#[test]
fn a_grid_rejects_the_wrong_number_of_intensities() {
    assert_eq!(GrayGrid::new(3, 2, vec![1, 2, 3, 4, 5]), Err(PipelineError::ShapeMismatch));
    assert_eq!(GrayGrid::new(3, 2, vec![0; 7]), Err(PipelineError::ShapeMismatch));
    assert_eq!(GrayGrid::new(28, 28, vec![0; 783]), Err(PipelineError::ShapeMismatch));
    assert_eq!(GrayGrid::new(0, 5, vec![0]), Err(PipelineError::ShapeMismatch));
    assert_eq!(
        GrayGrid::new(u32::MAX, u32::MAX, vec![0; 1]),
        Err(PipelineError::ShapeMismatch)
    );
}

#[test]
fn an_empty_grid_is_a_grid() {
    let grid = GrayGrid::new(0, 5, Vec::new()).unwrap();
    assert_eq!(grid.dimensions(), (0, 5));
    assert_eq!(grid.pixel(0, 0), None);
}

#[test]
fn the_model_takes_a_square_of_fixed_side() {
    assert_eq!(GRID_SIDE, 28);
    assert!(GrayGrid::new(28, 28, vec![0; 784]).unwrap().is_model_sized());
    assert!(!GrayGrid::new(28, 27, vec![0; 756]).unwrap().is_model_sized());
    assert!(!GrayGrid::new(27, 28, vec![0; 756]).unwrap().is_model_sized());
}

#[test]
fn the_tensor_has_the_shape_the_model_takes() {
    let tensor = build_tensor(&ramp_grid()).unwrap();
    assert_eq!(tensor.shape(), (1, 1, 28, 28));
    assert_eq!((BATCH, CHANNELS, HEIGHT, WIDTH), (1, 1, 28, 28));
    assert_eq!(ELEMENTS, 784);
    assert_eq!(tensor.numerators().len(), 784);
}

#[test]
fn each_element_is_the_intensity_at_its_row_and_column() {
    let grid = ramp_grid();
    let tensor = build_tensor(&grid).unwrap();
    for y in 0..28 {
        for x in 0..28 {
            assert_eq!(tensor.get(0, 0, y, x), grid.pixel(x as u32, y as u32));
        }
    }
    assert_eq!(tensor.get(0, 0, 3, 5), Some(((3 * 28 + 5) * 7 % 256) as u8));
    assert_eq!(tensor.get(0, 0, 27, 27), Some((783 * 7 % 256) as u8));
}

#[test]
fn rows_keep_their_order() {
    let grid = ramp_grid();
    let tensor = build_tensor(&grid).unwrap();
    assert_eq!(tensor.numerators(), grid.as_raw());
}

#[test]
fn positions_outside_the_shape_hold_nothing() {
    let tensor = build_tensor(&ramp_grid()).unwrap();
    assert_eq!(tensor.get(1, 0, 0, 0), None);
    assert_eq!(tensor.get(0, 1, 0, 0), None);
    assert_eq!(tensor.get(0, 0, 28, 0), None);
    assert_eq!(tensor.get(0, 0, 0, 28), None);
    assert_eq!(tensor.get(usize::MAX, usize::MAX, usize::MAX, usize::MAX), None);
}

#[test]
fn each_element_is_the_intensity_over_255() {
    assert_eq!(INTENSITY_SCALE, 255);
    let grid = ramp_grid();
    let tensor = build_tensor(&grid).unwrap();
    for (numerator, intensity) in tensor.numerators().iter().zip(grid.as_raw()) {
        let element = *numerator as f32 / INTENSITY_SCALE as f32;
        let expected = *intensity as f32 / 255.0;
        assert!((element - expected).abs() <= f32::EPSILON);
        assert!((0.0..=1.0).contains(&element));
    }
    let black = GrayGrid::new(28, 28, vec![0; 784]).unwrap();
    let white = GrayGrid::new(28, 28, vec![255; 784]).unwrap();
    assert_eq!(build_tensor(&black).unwrap().get(0, 0, 9, 9).unwrap() as f32 / 255.0, 0.0);
    assert_eq!(build_tensor(&white).unwrap().get(0, 0, 9, 9).unwrap() as f32 / 255.0, 1.0);
}

#[test]
fn building_twice_gives_the_same_tensor() {
    let grid = ramp_grid();
    let first = build_tensor(&grid).unwrap();
    let second = build_tensor(&grid).unwrap();
    assert_eq!(first, second);
    let first_bits = first.numerators().iter().map(|n| (*n as f32 / 255.0).to_bits());
    let second_bits = second.numerators().iter().map(|n| (*n as f32 / 255.0).to_bits());
    assert!(first_bits.eq(second_bits));
}

#[test]
fn a_grid_of_another_size_is_a_shape_mismatch() {
    let narrow = GrayGrid::new(27, 28, vec![0; 756]).unwrap();
    let short = GrayGrid::new(28, 27, vec![0; 756]).unwrap();
    let transposed_count = GrayGrid::new(14, 56, vec![0; 784]).unwrap();
    let empty = GrayGrid::new(0, 0, Vec::new()).unwrap();
    assert_eq!(build_tensor(&narrow), Err(PipelineError::ShapeMismatch));
    assert_eq!(build_tensor(&short), Err(PipelineError::ShapeMismatch));
    assert_eq!(build_tensor(&transposed_count), Err(PipelineError::ShapeMismatch));
    assert_eq!(build_tensor(&empty), Err(PipelineError::ShapeMismatch));
}
