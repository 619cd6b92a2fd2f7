//! Render planning: turns one buffer of samples (and, per channel, one buffer
//! of spectral magnitudes) into the vertical segments a tick paints, with
//! every row coordinate proved to stay on the grid.

use crate::frame::{frames_in_range, SampleFrame};
use crate::mapper::{column_count_spec, stride_spec};
use vstd::arithmetic::div_mod::{
    lemma_div_is_ordered, lemma_div_is_ordered_by_denominator, lemma_div_pos_is_pos,
    lemma_fundamental_div_mod, lemma_mod_bound,
};
use vstd::arithmetic::mul::{lemma_mul_inequality, lemma_mul_nonnegative};
use vstd::math::abs;
use vstd::prelude::*;

verus! {

/// Which audio channel a segment belongs to.
#[derive(Clone, Copy, PartialEq, Eq, Structural, Debug)]
pub enum Channel {
    Left,
    Right,
}

/// One vertical run of cells to paint: column `x`, rows `lo` through `hi`.
#[derive(Clone, Copy, PartialEq, Eq, Structural, Debug)]
pub struct Segment {
    pub x: u16,
    pub lo: u16,
    pub hi: u16,
    pub channel: Channel,
}

/// The knobs that distinguish the pipeline's visual variants.
#[derive(Clone, Copy, PartialEq, Eq, Structural, Debug)]
pub struct RenderConfig {
    /// Draw the two channels in separate bands (upper and lower quarter)
    /// rather than both around the middle row.
    pub split_layout: bool,
    /// Also analyze each channel's spectrum and draw magnitude bars.
    pub show_spectrum: bool,
    /// Draw the diagnostic text line.
    pub show_diagnostics: bool,
    /// Amplitude scale as a fraction of grid height: full scale spans
    /// `height / amplitude_div` rows.
    pub amplitude_div: u16,
    /// Spectrum bars with magnitude below this gate (in thousandths of full
    /// scale) are suppressed as visual noise.
    pub min_magnitude: u32,
}

/// The scale must leave full-scale amplitudes inside each channel's band:
/// at most half the height around a shared center, at most a quarter when
/// the channels get separate quarter-height bands.
pub open spec fn config_wf(c: RenderConfig) -> bool {
    &&& c.amplitude_div >= 2
    &&& c.split_layout ==> c.amplitude_div >= 4
}

/// Center row of a channel's waveform band.
pub open spec fn wave_center(h: int, split: bool, ch: Channel) -> int {
    if split {
        if ch is Left {
            h / 4
        } else {
            h - h / 4
        }
    } else {
        h / 2
    }
}

/// Rows a value `v` (in thousandths of full scale) spans away from a band
/// center when full scale spans `h / div` rows.
pub open spec fn amp_rows(h: int, div: int, v: int) -> int
    recommends
        div >= 1,
{
    ((h / div) * abs(v)) / 1000
}

/// The waveform segment one column draws for one channel: a vertical run
/// reaching `amp_rows` rows to each side of the band center.
pub open spec fn wave_segment_spec(x: int, v: int, h: int, cfg: RenderConfig, ch: Channel) -> Segment {
    Segment {
        x: x as u16,
        lo: (wave_center(h, cfg.split_layout, ch) - amp_rows(h, cfg.amplitude_div as int, v)) as u16,
        hi: (wave_center(h, cfg.split_layout, ch) + amp_rows(h, cfg.amplitude_div as int, v)) as u16,
        channel: ch,
    }
}

/// The segments of the first `n` columns of the waveform, both channels per
/// column (left first), each column sampling the buffer at `column * s`.
pub open spec fn wave_plan_spec(
    frames: Seq<SampleFrame>,
    s: int,
    n: int,
    h: int,
    cfg: RenderConfig,
) -> Seq<Segment>
    decreases n,
{
    if n <= 0 {
        Seq::empty()
    } else {
        wave_plan_spec(frames, s, n - 1, h, cfg).push(
            wave_segment_spec(n - 1, frames[(n - 1) * s].left as int, h, cfg, Channel::Left),
        ).push(wave_segment_spec(n - 1, frames[(n - 1) * s].right as int, h, cfg, Channel::Right))
    }
}

/// Bound on the scaled amplitude: within full scale it never reaches past
/// `h / div` rows.
proof fn lemma_amp_rows_bound(h: int, div: int, v: int)
    requires
        h >= 0,
        div >= 1,
        -1000 <= v <= 1000,
    ensures
        0 <= amp_rows(h, div, v) <= h / div,
{
    let a = h / div;
    lemma_div_pos_is_pos(h, div);
    lemma_mul_nonnegative(a, abs(v) as int);
    lemma_div_pos_is_pos(a * abs(v), 1000);
    lemma_mul_inequality(abs(v) as int, 1000, a);
    assert(a * abs(v) == abs(v) * a) by (nonlinear_arith);
    assert(a * 1000 == 1000 * a) by (nonlinear_arith);
    lemma_div_is_ordered(a * abs(v), a * 1000, 1000);
    lemma_fundamental_div_mod(a * 1000, 1000);
    lemma_mod_bound(a * 1000, 1000);
    assert((a * 1000) / 1000 == a) by {
        assert(a * 1000 == 1000 * a) by (nonlinear_arith);
        vstd::arithmetic::div_mod::lemma_div_multiples_vanish(a, 1000);
    }
}

/// Law (amplitude clamp): for any amplitude within full scale and any
/// well-formed configuration, both row coordinates of a waveform segment stay
/// within `[0, h]`.
pub proof fn lemma_amplitude_clamp(h: int, cfg: RenderConfig, ch: Channel, v: int)
    requires
        config_wf(cfg),
        h >= 0,
        -1000 <= v <= 1000,
    ensures
        0 <= wave_center(h, cfg.split_layout, ch) - amp_rows(h, cfg.amplitude_div as int, v),
        wave_center(h, cfg.split_layout, ch) + amp_rows(h, cfg.amplitude_div as int, v) <= h,
{
    let div = cfg.amplitude_div as int;
    lemma_amp_rows_bound(h, div, v);
    if cfg.split_layout {
        lemma_div_is_ordered_by_denominator(h, 4, div);
        lemma_fundamental_div_mod(h, 4);
        lemma_mod_bound(h, 4);
        lemma_div_pos_is_pos(h, 4);
    } else {
        lemma_div_is_ordered_by_denominator(h, 2, div);
        lemma_fundamental_div_mod(h, 2);
        lemma_mod_bound(h, 2);
        lemma_div_pos_is_pos(h, 2);
    }
}

/// One channel's waveform segment for one column.
fn wave_segment_for(x: u16, v: i32, h: u16, cfg: &RenderConfig, ch: Channel) -> (seg: Segment)
    requires
        config_wf(*cfg),
        -1000 <= v <= 1000,
    ensures
        seg == wave_segment_spec(x as int, v as int, h as int, *cfg, ch),
        seg.lo <= seg.hi,
        seg.hi <= h,
{
    proof {
        lemma_amplitude_clamp(h as int, *cfg, ch, v as int);
        lemma_amp_rows_bound(h as int, cfg.amplitude_div as int, v as int);
        lemma_div_pos_is_pos(h as int, cfg.amplitude_div as int);
        vstd::arithmetic::div_mod::lemma_div_nonincreasing(h as int, cfg.amplitude_div as int);
    }
    let size: u32 = (h as u32) / (cfg.amplitude_div as u32);
    let av: u32 = if v < 0 {
        (-v) as u32
    } else {
        v as u32
    };
    let m: u32 = size * av / 1000;
    let center: u32 = if cfg.split_layout {
        match ch {
            Channel::Left => (h as u32) / 4,
            Channel::Right => (h as u32) - (h as u32) / 4,
        }
    } else {
        (h as u32) / 2
    };
    let lo: u16 = (center - m) as u16;
    let hi: u16 = (center + m) as u16;
    Segment { x, lo, hi, channel: ch }
}

/// Plan the waveform for one tick: downsample the buffer across the grid
/// width and emit, per rendered column, one zero-symmetric segment per
/// channel around its band center.
pub fn wave_plan(frames: &Vec<SampleFrame>, w: u16, h: u16, cfg: &RenderConfig) -> (segs: Vec<
    Segment,
>)
    requires
        config_wf(*cfg),
        frames@.len() >= 1,
        frames_in_range(frames@),
        w >= 1,
    ensures
        ({
            let s = stride_spec(frames@.len() as int, w as int);
            let n = column_count_spec(frames@.len() as int, s, w as int);
            &&& segs@ == wave_plan_spec(frames@, s, n, h as int, *cfg)
            &&& segs@.len() == 2 * n
        }),
        forall|i: int|
            0 <= i < segs@.len() ==> (#[trigger] segs@[i]).lo <= segs@[i].hi && segs@[i].hi <= h,
{
    let len = frames.len();
    let s = crate::mapper::stride(len, w as usize);
    let n = crate::mapper::column_count(len, s, w as usize);
    let mut segs: Vec<Segment> = Vec::new();
    let mut c: usize = 0;
    while c < n
        invariant
            c <= n,
            s >= 1,
            n <= w,
            len == frames@.len(),
            n * s <= len,
            config_wf(*cfg),
            frames_in_range(frames@),
            segs@ == wave_plan_spec(frames@, s as int, c as int, h as int, *cfg),
            segs@.len() == 2 * c,
            forall|i: int|
                0 <= i < segs@.len() ==> (#[trigger] segs@[i]).lo <= segs@[i].hi && segs@[i].hi
                    <= h,
        decreases n - c,
    {
        proof {
            assert((c + 1) * s <= n * s) by (nonlinear_arith)
                requires
                    c < n,
                    s >= 1,
            ;
            assert((c + 1) * s == c * s + s) by (nonlinear_arith);
        }
        let idx = crate::mapper::map_index(c, s);
        let f = frames[idx];
        let seg_l = wave_segment_for(c as u16, f.left, h, cfg, Channel::Left);
        let seg_r = wave_segment_for(c as u16, f.right, h, cfg, Channel::Right);
        segs.push(seg_l);
        segs.push(seg_r);
        c = c + 1;
        proof {
            assert(segs@ =~= wave_plan_spec(frames@, s as int, c as int, h as int, *cfg));
        }
    }
    segs
}

/// The spectrum segment one column draws for one channel, when its magnitude
/// reaches the configured minimum: the left channel's bar grows upward from
/// the middle row, the right channel's downward from the row below it, both
/// clipped to the grid.
pub open spec fn spectrum_segment_spec(x: int, mag: int, h: int, cfg: RenderConfig, ch: Channel) -> Segment {
    let m = amp_rows(h, cfg.amplitude_div as int, mag);
    if ch is Left {
        Segment { x: x as u16, lo: (h / 2 - m) as u16, hi: (h / 2) as u16, channel: ch }
    } else {
        Segment {
            x: x as u16,
            lo: (if h / 2 + 1 <= h {
                h / 2 + 1
            } else {
                h
            }) as u16,
            hi: (if h / 2 + 1 + m <= h {
                h / 2 + 1 + m
            } else {
                h
            }) as u16,
            channel: ch,
        }
    }
}

/// The spectrum segments of the first `n` columns for one channel: a column
/// sampling bin `column * s` contributes a bar only when that bin's magnitude
/// reaches the configured minimum.
pub open spec fn spectrum_plan_spec(
    mags: Seq<u32>,
    s: int,
    n: int,
    h: int,
    cfg: RenderConfig,
    ch: Channel,
) -> Seq<Segment>
    decreases n,
{
    if n <= 0 {
        Seq::empty()
    } else {
        let prefix = spectrum_plan_spec(mags, s, n - 1, h, cfg, ch);
        if mags[(n - 1) * s] >= cfg.min_magnitude {
            prefix.push(spectrum_segment_spec(n - 1, mags[(n - 1) * s] as int, h, cfg, ch))
        } else {
            prefix
        }
    }
}

/// One channel's spectrum bar for one column.
fn spectrum_segment_for(x: u16, mag: u32, h: u16, cfg: &RenderConfig, ch: Channel) -> (seg: Segment)
    requires
        config_wf(*cfg),
        mag <= 1000,
    ensures
        seg == spectrum_segment_spec(x as int, mag as int, h as int, *cfg, ch),
        seg.lo <= seg.hi,
        seg.hi <= h,
{
    proof {
        lemma_amp_rows_bound(h as int, cfg.amplitude_div as int, mag as int);
        lemma_div_is_ordered_by_denominator(h as int, 2, cfg.amplitude_div as int);
        lemma_fundamental_div_mod(h as int, 2);
        lemma_mod_bound(h as int, 2);
        lemma_div_pos_is_pos(h as int, 2);
        lemma_div_pos_is_pos(h as int, cfg.amplitude_div as int);
        vstd::arithmetic::div_mod::lemma_div_nonincreasing(h as int, cfg.amplitude_div as int);
    }
    let size: u32 = (h as u32) / (cfg.amplitude_div as u32);
    let m: u32 = size * mag / 1000;
    let h2: u32 = (h as u32) / 2;
    match ch {
        Channel::Left => Segment { x, lo: (h2 - m) as u16, hi: h2 as u16, channel: ch },
        Channel::Right => {
            let lo: u32 = if h2 + 1 <= h as u32 {
                h2 + 1
            } else {
                h as u32
            };
            let hi: u32 = if h2 + 1 + m <= h as u32 {
                h2 + 1 + m
            } else {
                h as u32
            };
            Segment { x, lo: lo as u16, hi: hi as u16, channel: ch }
        },
    }
}

/// Plan one channel's spectrum bars for one tick: downsample the magnitude
/// bins across the grid width and emit a bar for each rendered column whose
/// bin passes the minimum-magnitude gate.
pub fn spectrum_plan(mags: &Vec<u32>, w: u16, h: u16, cfg: &RenderConfig, ch: Channel) -> (segs:
    Vec<Segment>)
    requires
        config_wf(*cfg),
        mags@.len() >= 1,
        forall|i: int| 0 <= i < mags@.len() ==> #[trigger] mags@[i] <= 1000,
        w >= 1,
    ensures
        ({
            let s = stride_spec(mags@.len() as int, w as int);
            let n = column_count_spec(mags@.len() as int, s, w as int);
            segs@ == spectrum_plan_spec(mags@, s, n, h as int, *cfg, ch)
        }),
        forall|i: int|
            0 <= i < segs@.len() ==> (#[trigger] segs@[i]).lo <= segs@[i].hi && segs@[i].hi <= h,
{
    let len = mags.len();
    let s = crate::mapper::stride(len, w as usize);
    let n = crate::mapper::column_count(len, s, w as usize);
    let mut segs: Vec<Segment> = Vec::new();
    let mut c: usize = 0;
    while c < n
        invariant
            c <= n,
            s >= 1,
            n <= w,
            len == mags@.len(),
            n * s <= len,
            config_wf(*cfg),
            forall|i: int| 0 <= i < mags@.len() ==> #[trigger] mags@[i] <= 1000,
            segs@ == spectrum_plan_spec(mags@, s as int, c as int, h as int, *cfg, ch),
            forall|i: int|
                0 <= i < segs@.len() ==> (#[trigger] segs@[i]).lo <= segs@[i].hi && segs@[i].hi
                    <= h,
        decreases n - c,
    {
        proof {
            assert((c + 1) * s <= n * s) by (nonlinear_arith)
                requires
                    c < n,
                    s >= 1,
            ;
            assert((c + 1) * s == c * s + s) by (nonlinear_arith);
        }
        let idx = crate::mapper::map_index(c, s);
        let mag = mags[idx];
        if mag >= cfg.min_magnitude {
            let seg = spectrum_segment_for(c as u16, mag, h, cfg, ch);
            segs.push(seg);
        }
        c = c + 1;
        proof {
            assert(segs@ =~= spectrum_plan_spec(mags@, s as int, c as int, h as int, *cfg, ch));
        }
    }
    segs
}

/// Law (silence is suppressed): when every bin of a channel stays under the
/// minimum magnitude — as all bins of an all-silent buffer do whenever that
/// minimum is positive — the spectrum plan is empty and no bar is drawn.
pub proof fn lemma_silent_spectrum(
    mags: Seq<u32>,
    s: int,
    n: int,
    h: int,
    cfg: RenderConfig,
    ch: Channel,
)
    requires
        forall|i: int| 0 <= i < mags.len() ==> #[trigger] mags[i] < cfg.min_magnitude,
        s >= 1,
        n >= 0,
        n * s <= mags.len(),
    ensures
        spectrum_plan_spec(mags, s, n, h, cfg, ch) == Seq::<Segment>::empty(),
    decreases n,
{
    if n > 0 {
        assert((n - 1) * s + s == n * s && (n - 1) * s >= 0 && n * s >= s) by (nonlinear_arith)
            requires
                n >= 1,
                s >= 1,
        ;
        lemma_silent_spectrum(mags, s, n - 1, h, cfg, ch);
    }
}

} // verus!
