//! Frame-sequence edits: the cut range and the speed factor.
//!
//! Per-frame pixel operations (crop, resize, blur and the like) are applied
//! by the surrounding application through its image tooling; this module
//! owns what changes the sequence itself — which frames stay, and how fast
//! they play.

use crate::frame::{images_model, Frames, Image};
use vstd::prelude::*;

verus! {

/// A non-negative rational, `num / den`. Cut proportions keep `num <= den`;
/// a speed factor may exceed 1.
#[derive(Clone, Copy, Debug, PartialEq, Eq, Structural)]
pub struct Ratio {
    pub num: u32,
    pub den: u32,
}

impl Ratio {
    pub open spec fn valid(self) -> bool {
        self.den >= 1
    }

    /// A proportion of a whole: at most 1.
    pub open spec fn is_proportion(self) -> bool {
        self.valid() && self.num <= self.den
    }

    pub fn new(num: u32, den: u32) -> (r: Ratio)
        requires
            den >= 1,
        ensures
            r == (Ratio { num, den }),
    {
        Ratio { num, den }
    }
}

/// How many of `n` frames a cut proportion discards: `n * num / den`,
/// rounded down.
pub open spec fn spec_cut_count(n: int, r: Ratio) -> int {
    n * (r.num as int) / (r.den as int)
}

/// A proportion of `n` never exceeds `n`.
pub proof fn lemma_cut_count_bounds(n: int, r: Ratio)
    requires
        n >= 0,
        r.is_proportion(),
    ensures
        0 <= spec_cut_count(n, r) <= n,
{
    assert(0 <= n * (r.num as int) / (r.den as int) <= n) by (nonlinear_arith)
        requires
            n >= 0,
            r.den >= 1,
            0 <= r.num <= r.den,
    ;
}

/// Discard the `head` proportion of frames from the start of the sequence
/// and the `tail` proportion from its end, keeping order and rate. Cutting
/// more than everything leaves nothing.
pub fn cut_frames(frames: &Frames, head: Ratio, tail: Ratio) -> (r: Frames)
    requires
        head.is_proportion(),
        tail.is_proportion(),
    ensures
        r.fps == frames.fps,
        ({
            let n = frames.images@.len() as int;
            let h = spec_cut_count(n, head);
            let t = spec_cut_count(n, tail);
            if h + t <= n {
                images_model(r.images@) == images_model(frames.images@).subrange(h, n - t)
            } else {
                r.images@.len() == 0
            }
        }),
{
    let n = frames.images.len();
    proof {
        lemma_cut_count_bounds(n as int, head);
        lemma_cut_count_bounds(n as int, tail);
        assert(n as int * head.num as int <= u64::MAX as int * u32::MAX as int)
            by (nonlinear_arith)
            requires
                0 <= n as int <= u64::MAX as int,
                0 <= head.num as int <= u32::MAX as int,
        ;
        assert(n as int * tail.num as int <= u64::MAX as int * u32::MAX as int)
            by (nonlinear_arith)
            requires
                0 <= n as int <= u64::MAX as int,
                0 <= tail.num as int <= u32::MAX as int,
        ;
    }
    let h_wide: u128 = (n as u128) * (head.num as u128) / (head.den as u128);
    let t_wide: u128 = (n as u128) * (tail.num as u128) / (tail.den as u128);
    let h: usize = h_wide as usize;
    let t: usize = t_wide as usize;
    assert(h == spec_cut_count(n as int, head));
    assert(t == spec_cut_count(n as int, tail));
    let mut images: Vec<Image> = Vec::new();
    if h > n - t {
        return Frames { images, fps: frames.fps };
    }
    let end = n - t;
    let mut i: usize = h;
    while i < end
        invariant
            h <= i <= end <= frames.images@.len(),
            images@.len() == i - h,
            forall|k: int| 0 <= k < images@.len() ==> (#[trigger] images@[k])@ == frames.images@[
                h + k
            ]@,
        decreases end - i,
    {
        images.push(frames.images[i].clone_image());
        i += 1;
    }
    proof {
        assert(images_model(images@) =~= images_model(frames.images@).subrange(
            h as int,
            (n - t) as int,
        ));
    }
    Frames { images, fps: frames.fps }
}

/// The per-frame delay scaled by the reciprocal of the speed factor:
/// `delay * den / num`, rounded to nearest and clamped into the stored
/// delay's range. A factor above 1 shortens playback, below 1 lengthens it.
pub open spec fn spec_scaled_delay(delay: int, speed: Ratio) -> int {
    let scaled = (2 * delay * speed.den + speed.num) / (2 * speed.num);
    if scaled > u16::MAX {
        u16::MAX as int
    } else {
        scaled
    }
}

pub fn scaled_delay_cs(delay: u16, speed: Ratio) -> (r: u16)
    requires
        speed.num >= 1,
        speed.den >= 1,
    ensures
        r == spec_scaled_delay(delay as int, speed),
{
    proof {
        let d = delay as int;
        let den = speed.den as int;
        let num = speed.num as int;
        assert(0 <= (2 * d * den + num) / (2 * num) <= 2 * d * den + num) by (nonlinear_arith)
            requires
                num >= 1,
                den >= 1,
                d >= 0,
        ;
        assert(2 * d * den + num <= u64::MAX) by (nonlinear_arith)
            requires
                0 <= d <= u16::MAX as int,
                0 <= den <= u32::MAX as int,
                0 <= num <= u32::MAX as int,
        ;
    }
    let scaled: u64 = (2 * delay as u64 * speed.den as u64 + speed.num as u64) / (2 * speed.num
        as u64);
    if scaled > u16::MAX as u64 {
        u16::MAX
    } else {
        scaled as u16
    }
}

} // verus!
