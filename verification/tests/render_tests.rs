use audio_viz::frame::SampleFrame;
use audio_viz::render::{spectrum_plan, wave_plan, Channel, RenderConfig};

fn split_config() -> RenderConfig {
    RenderConfig {
        split_layout: true,
        show_spectrum: true,
        show_diagnostics: false,
        amplitude_div: 4,
        min_magnitude: 50,
    }
}

fn frames_of(pairs: &[(i32, i32)]) -> Vec<SampleFrame> {
    pairs.iter().map(|&(left, right)| SampleFrame { left, right }).collect()
}

#[test]
fn alternating_buffer_downsampled_to_zero_centered_lines() {
    // 8 frames across 4 columns: stride 2 samples only the even indices,
    // which all hold silence, so every column is a zero-centered line.
    let frames = frames_of(&[
        (0, 0),
        (1000, 0),
        (0, 0),
        (-1000, 0),
        (0, 0),
        (1000, 0),
        (0, 0),
        (-1000, 0),
    ]);
    let segs = wave_plan(&frames, 4, 8, &split_config());
    assert_eq!(segs.len(), 8);
    for c in 0..4 {
        let left = &segs[2 * c];
        let right = &segs[2 * c + 1];
        assert_eq!(left.x, c as u16);
        assert_eq!(right.x, c as u16);
        assert_eq!(left.channel, Channel::Left);
        assert_eq!(right.channel, Channel::Right);
        // left band centers on row 2, right band on row 6; silence collapses
        // each segment onto its center.
        assert_eq!((left.lo, left.hi), (2, 2));
        assert_eq!((right.lo, right.hi), (6, 6));
    }
}

#[test]
fn full_scale_spans_the_band() {
    // height 8, quarter-height scale: full scale reaches 2 rows either way.
    let frames = frames_of(&[(1000, -1000)]);
    let segs = wave_plan(&frames, 1, 8, &split_config());
    assert_eq!(segs.len(), 2);
    assert_eq!((segs[0].lo, segs[0].hi), (0, 4));
    assert_eq!((segs[1].lo, segs[1].hi), (4, 8));
}

#[test]
fn shared_center_layout_spans_the_grid_at_half_scale() {
    let cfg = RenderConfig {
        split_layout: false,
        show_spectrum: false,
        show_diagnostics: false,
        amplitude_div: 2,
        min_magnitude: 50,
    };
    let frames = frames_of(&[(1000, 0)]);
    let segs = wave_plan(&frames, 1, 10, &cfg);
    // center row 5, full scale spans 5 rows either way: the whole grid.
    assert_eq!((segs[0].lo, segs[0].hi), (0, 10));
    // silent right channel stays on the center row.
    assert_eq!((segs[1].lo, segs[1].hi), (5, 5));
}

#[test]
fn rows_stay_on_the_grid_for_every_amplitude() {
    let cfg = split_config();
    for h in 0..40u16 {
        for v in (-1000..=1000).step_by(37) {
            let frames = frames_of(&[(v, -v)]);
            for seg in wave_plan(&frames, 3, h, &cfg) {
                assert!(seg.lo <= seg.hi);
                assert!(seg.hi <= h);
            }
        }
    }
}

#[test]
fn silent_spectrum_draws_nothing() {
    // all four bins silent: no magnitude reaches the configured minimum.
    let mags = vec![0u32, 0, 0, 0];
    let segs = spectrum_plan(&mags, 4, 8, &split_config(), Channel::Left);
    assert!(segs.is_empty());
}

#[test]
fn spectrum_below_the_gate_is_suppressed() {
    let mags = vec![1000u32, 0, 600, 40];
    let segs = spectrum_plan(&mags, 4, 8, &split_config(), Channel::Left);
    // stride 1: columns 0 and 2 pass the 50-thousandths gate, 49 and 0 do not.
    assert_eq!(segs.len(), 2);
    assert_eq!(segs[0].x, 0);
    assert_eq!(segs[1].x, 2);
    // height 8, quarter scale: magnitude 1000 reaches 2 rows above row 4.
    assert_eq!((segs[0].lo, segs[0].hi), (2, 4));
    // magnitude 600 reaches 1 row.
    assert_eq!((segs[1].lo, segs[1].hi), (3, 4));
}

#[test]
fn right_spectrum_grows_downward_from_below_the_middle() {
    let mags = vec![1000u32];
    let segs = spectrum_plan(&mags, 1, 8, &split_config(), Channel::Right);
    assert_eq!(segs.len(), 1);
    assert_eq!(segs[0].channel, Channel::Right);
    assert_eq!((segs[0].lo, segs[0].hi), (5, 7));
}

#[test]
fn spectrum_bars_are_clipped_to_the_grid() {
    let mags = vec![1000u32];
    // height 2: the row below the middle is the last row; the bar may not
    // leave the grid.
    let segs = spectrum_plan(&mags, 1, 2, &split_config(), Channel::Right);
    assert_eq!(segs.len(), 1);
    assert!(segs[0].lo <= segs[0].hi);
    assert!(segs[0].hi <= 2);
}
