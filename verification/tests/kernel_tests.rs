use filters::boundary::reflect101;
use filters::error::FilterError;
use filters::params::validate;
use filters::sobel::sobel_window_index;
use filters::sobel::sobel_x_weight;
use filters::sobel::sobel_y_weight;
use filters::taps::horizontal_tap_index;
use filters::taps::vertical_tap_index;

#[test]
fn test_reflect101() {
    assert_eq!(reflect101(0, 10), 0);
    assert_eq!(reflect101(5, 10), 5);
    assert_eq!(reflect101(9, 10), 9);
    assert_eq!(reflect101(-1, 10), 1);
    assert_eq!(reflect101(-2, 10), 2);
    assert_eq!(reflect101(10, 10), 8);
    assert_eq!(reflect101(11, 10), 7);
}

#[test]
fn test_reflect_edges_at_several_limits() {
    for limit in [2usize, 3, 5, 100] {
        let l = limit as i128;
        assert_eq!(reflect101(0, limit), 0);
        assert_eq!(reflect101(l - 1, limit), limit - 1);
        assert_eq!(reflect101(-1, limit), 1);
        assert_eq!(reflect101(l, limit), limit - 2);
    }
}

#[test]
fn test_validate_accepts_odd_kernel_in_range() {
    assert_eq!(validate(12, 4, 3, 3), Ok(1));
    assert_eq!(validate(25, 5, 5, 5), Ok(2));
    assert_eq!(validate(1, 1, 1, 1), Ok(0));
}

#[test]
fn test_validate_dimension_mismatch() {
    assert_eq!(validate(10, 4, 3, 3), Err(FilterError::DimensionMismatch));
    assert_eq!(validate(0, 4, 3, 3), Err(FilterError::DimensionMismatch));
    // width * height overflows usize, so no buffer length can match it
    assert_eq!(
        validate(usize::MAX, usize::MAX, 2, 3),
        Err(FilterError::DimensionMismatch)
    );
}

#[test]
fn test_validate_invalid_kernel() {
    assert_eq!(validate(12, 4, 3, 4), Err(FilterError::InvalidKernel));
    assert_eq!(validate(12, 4, 3, 0), Err(FilterError::InvalidKernel));
}

#[test]
fn test_validate_radius_too_large() {
    // radius 3 reaches the height of 3
    assert_eq!(validate(12, 4, 3, 7), Err(FilterError::RadiusTooLarge));
    // radius 4 reaches the width of 4
    assert_eq!(validate(12, 4, 3, 9), Err(FilterError::RadiusTooLarge));
}

#[test]
fn test_horizontal_tap_indices() {
    // 5 wide, 4 high, radius 1; row 1 starts at flat index 5
    assert_eq!(horizontal_tap_index(0, 1, 0, 5, 4, 1), 6); // column -1 reflects to 1
    assert_eq!(horizontal_tap_index(0, 1, 1, 5, 4, 1), 5);
    assert_eq!(horizontal_tap_index(0, 1, 2, 5, 4, 1), 6);
    assert_eq!(horizontal_tap_index(2, 1, 0, 5, 4, 1), 6);
    assert_eq!(horizontal_tap_index(2, 1, 1, 5, 4, 1), 7);
    assert_eq!(horizontal_tap_index(2, 1, 2, 5, 4, 1), 8);
    assert_eq!(horizontal_tap_index(4, 1, 2, 5, 4, 1), 8); // column 5 reflects to 3
}

#[test]
fn test_vertical_tap_indices() {
    // 5 wide, 4 high, radius 1, column 2
    assert_eq!(vertical_tap_index(2, 0, 0, 5, 4, 1), 7); // row -1 reflects to 1
    assert_eq!(vertical_tap_index(2, 0, 1, 5, 4, 1), 2);
    assert_eq!(vertical_tap_index(2, 0, 2, 5, 4, 1), 7);
    assert_eq!(vertical_tap_index(2, 3, 2, 5, 4, 1), 12); // row 4 reflects to 2
}

#[test]
fn test_radius_zero_tap_reads_own_pixel() {
    for y in 0..4usize {
        for x in 0..5usize {
            assert_eq!(horizontal_tap_index(x, y, 0, 5, 4, 0), y * 5 + x);
            assert_eq!(vertical_tap_index(x, y, 0, 5, 4, 0), y * 5 + x);
        }
    }
}

#[test]
fn test_sobel_weights_exact() {
    let expected_x: [[i32; 3]; 3] = [[-1, 0, 1], [-2, 0, 2], [-1, 0, 1]];
    let expected_y: [[i32; 3]; 3] = [[-1, -2, -1], [0, 0, 0], [1, 2, 1]];
    for r in 0..3usize {
        for c in 0..3usize {
            assert_eq!(sobel_x_weight(r, c), expected_x[r][c]);
            assert_eq!(sobel_y_weight(r, c), expected_y[r][c]);
        }
    }
}

#[test]
fn test_sobel_stencils_cancel() {
    for r in 0..3usize {
        let row_sum: i32 = sobel_x_weight(r, 0) + sobel_x_weight(r, 1) + sobel_x_weight(r, 2);
        assert_eq!(row_sum, 0);
    }
    for c in 0..3usize {
        let col_sum: i32 = sobel_y_weight(0, c) + sobel_y_weight(1, c) + sobel_y_weight(2, c);
        assert_eq!(col_sum, 0);
        assert_eq!(sobel_y_weight(0, c), -sobel_y_weight(2, c));
        assert_eq!(sobel_y_weight(1, c), 0);
    }
}

#[test]
fn test_sobel_window_indices() {
    // 4 wide, 3 high; interior pixel (1, 1) sees the first three of each row
    let interior: [usize; 9] = [0, 1, 2, 4, 5, 6, 8, 9, 10];
    for r in 0..3usize {
        for c in 0..3usize {
            assert_eq!(sobel_window_index(1, 1, r, c, 4, 3), interior[3 * r + c]);
        }
    }
    // corner pixel (0, 0): row -1 reflects to 1, column -1 reflects to 1
    assert_eq!(sobel_window_index(0, 0, 0, 0, 4, 3), 5);
    assert_eq!(sobel_window_index(0, 0, 1, 1, 4, 3), 0);
    assert_eq!(sobel_window_index(0, 0, 2, 2, 4, 3), 5);
    // bottom-right corner (3, 2): row 3 reflects to 1, column 4 reflects to 2
    assert_eq!(sobel_window_index(3, 2, 2, 2, 4, 3), 6);
}
