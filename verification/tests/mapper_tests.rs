use audio_viz::mapper::{column_count, map_index, stride};

#[test]
fn stride_halves_a_buffer_twice_the_grid() {
    // buffer of 8 across 4 columns: every second sample.
    assert_eq!(stride(8, 4), 2);
}

#[test]
fn stride_is_clamped_to_one_for_narrow_buffers() {
    assert_eq!(stride(5, 10), 1);
    assert_eq!(stride(1, 1), 1);
}

#[test]
fn stride_for_the_default_buffer_and_a_typical_terminal() {
    // 44100 / 60 = 735 frames across 80 columns.
    assert_eq!(stride(735, 80), 9);
}

#[test]
fn map_index_is_the_product() {
    assert_eq!(map_index(0, 2), 0);
    assert_eq!(map_index(3, 2), 6);
}

#[test]
fn column_count_keeps_the_full_grid_when_it_fits() {
    assert_eq!(column_count(8, 2, 4), 4);
}

#[test]
fn column_count_clamps_when_the_buffer_is_short() {
    // stride 1, 5 samples: only 5 of the 10 columns can be fed.
    assert_eq!(column_count(5, 1, 10), 5);
    // stride 3, 10 samples: columns 0..3 read indices 0..9.
    assert_eq!(column_count(10, 3, 4), 3);
}

#[test]
fn clamped_columns_never_leave_the_buffer() {
    for buffer_len in 1usize..40 {
        for width in 1usize..30 {
            let s = stride(buffer_len, width);
            assert!(s >= 1);
            let n = column_count(buffer_len, s, width);
            assert!(n >= 1);
            assert!(n <= width);
            for c in 0..n {
                assert!(map_index(c, s) + s - 1 < buffer_len);
            }
        }
    }
}
