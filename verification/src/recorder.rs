//! The timed recording engine.
//!
//! The recorder drives capture over time. Each tick the surrounding
//! application captures one frame from the window, observes the stop signal
//! (an input-triggered stop in the synchronous mode, the external command's
//! completion in the asynchronous mode), and hands both to this module as a
//! [`CaptureTick`]. The engine decides, tick by tick, what is kept and when
//! the loop ends; pacing between ticks is the clock's business and sleeping
//! is the application's.
//!
//! A tick whose capture failed is skipped and counted, never fatal; the
//! count is surfaced beside the result.

use crate::frame::{images_model, Frames, Image, ImageModel};
use crate::settings::RecordSettings;
use crate::window::Window;
use vstd::prelude::*;

verus! {

/// What one tick of the capture loop observed: the captured frame, absent
/// when that single capture failed, and whether the stop signal was seen.
#[derive(Debug)]
pub struct CaptureTick {
    pub frame: Option<Image>,
    pub stop_signal: bool,
}

/// The recording engine of one session: the resolved window, the target
/// rate, and the session settings.
#[derive(Debug)]
pub struct Recorder {
    pub window: Window,
    pub fps: u32,
    pub settings: RecordSettings,
}

/// The capture loop over a run of ticks, from tick `i`, with the frames and
/// skip count accumulated so far. Each tick first takes its capture — a
/// frame kept in order, or a failure counted as skipped — and then checks
/// the stop conditions: the stop signal, and, when a duration is set, the
/// elapsed time `(i + 1) * interval` having reached it. The loop ends on the
/// first satisfied condition, or when the ticks run out.
pub open spec fn spec_record(
    ticks: Seq<CaptureTick>,
    interval: int,
    duration: Option<u64>,
    i: nat,
    frames: Seq<ImageModel>,
    skipped: nat,
) -> (Seq<ImageModel>, nat)
    decreases ticks.len() - i,
{
    if i >= ticks.len() {
        (frames, skipped)
    } else {
        let t = ticks[i as int];
        let frames2 = match t.frame {
            Some(img) => frames.push(img@),
            None => frames,
        };
        let skipped2: nat = match t.frame {
            Some(_) => skipped,
            None => skipped + 1,
        };
        let stop = t.stop_signal || (match duration {
            Some(d) => (i + 1) * interval >= d,
            None => false,
        });
        if stop {
            (frames2, skipped2)
        } else {
            spec_record(ticks, interval, duration, (i + 1) as nat, frames2, skipped2)
        }
    }
}

impl Recorder {
    pub fn new(window: Window, fps: u32, settings: RecordSettings) -> (r: Self)
        ensures
            r == (Recorder { window, fps, settings }),
    {
        Self { window, fps, settings }
    }

    /// The intended distance between two captures, in milliseconds.
    pub fn interval_ms(&self) -> (r: u64)
        requires
            self.fps >= 1,
        ensures
            r == 1000u64 / self.fps as u64,
    {
        1000u64 / self.fps as u64
    }

    /// The synchronous capture loop: consume the ticks in order, keep every
    /// captured frame, count every failed capture, and stop at the first
    /// tick whose stop signal is set or whose elapsed time has reached the
    /// duration. Returns the frames in capture order, at the session's rate,
    /// beside the skip count.
    pub fn record_sync(&self, ticks: &Vec<CaptureTick>, duration_ms: Option<u64>) -> (r: (
        Frames,
        usize,
    ))
        requires
            self.fps >= 1,
        ensures
            ({
                let out = spec_record(
                    ticks@,
                    1000int / self.fps as int,
                    duration_ms,
                    0,
                    Seq::<ImageModel>::empty(),
                    0,
                );
                images_model(r.0.images@) == out.0 && r.1 == out.1 && r.0.fps == self.fps
            }),
    {
        let interval: u64 = self.interval_ms();
        let mut frames: Vec<Image> = Vec::new();
        let mut skipped: usize = 0;
        let mut i: usize = 0;
        assert(images_model(frames@) =~= Seq::<ImageModel>::empty());
        while i < ticks.len()
            invariant
                i <= ticks@.len(),
                skipped <= i,
                interval == 1000int / self.fps as int,
                spec_record(
                    ticks@,
                    interval as int,
                    duration_ms,
                    0,
                    Seq::<ImageModel>::empty(),
                    0,
                ) == spec_record(
                    ticks@,
                    interval as int,
                    duration_ms,
                    i as nat,
                    images_model(frames@),
                    skipped as nat,
                ),
            decreases ticks@.len() - i,
        {
            let ghost frames_pre = images_model(frames@);
            let ghost skipped_pre = skipped as nat;
            let t = &ticks[i];
            match &t.frame {
                Some(img) => {
                    frames.push(img.clone_image());
                    assert(images_model(frames@) =~= frames_pre.push(t.frame->0@));
                },
                None => {
                    skipped += 1;
                },
            }
            let mut stop = t.stop_signal;
            if let Some(d) = duration_ms {
                proof {
                    let x = (i + 1) as int;
                    let y = interval as int;
                    assert(x * y <= u64::MAX as int * u64::MAX as int) by (nonlinear_arith)
                        requires
                            0 <= x <= u64::MAX as int,
                            0 <= y <= u64::MAX as int,
                    ;
                }
                let elapsed: u128 = (i as u128 + 1) * (interval as u128);
                if elapsed >= d as u128 {
                    stop = true;
                }
            }
            proof {
                let stepped = spec_record(
                    ticks@,
                    interval as int,
                    duration_ms,
                    i as nat,
                    frames_pre,
                    skipped_pre,
                );
                if stop {
                    assert(stepped == (images_model(frames@), skipped as nat));
                } else {
                    assert(stepped == spec_record(
                        ticks@,
                        interval as int,
                        duration_ms,
                        (i + 1) as nat,
                        images_model(frames@),
                        skipped as nat,
                    ));
                }
            }
            if stop {
                return (Frames { images: frames, fps: self.fps }, skipped);
            }
            i += 1;
        }
        (Frames { images: frames, fps: self.fps }, skipped)
    }

    /// The capture loop of the asynchronous mode's worker: the same loop
    /// with no duration cap — only the external stop signal ends it. The
    /// surrounding application runs this from its single worker thread while
    /// the external command executes, and joins the worker before returning.
    pub fn record_async(&self, ticks: &Vec<CaptureTick>) -> (r: (Frames, usize))
        requires
            self.fps >= 1,
        ensures
            ({
                let out = spec_record(
                    ticks@,
                    1000int / self.fps as int,
                    None,
                    0,
                    Seq::<ImageModel>::empty(),
                    0,
                );
                images_model(r.0.images@) == out.0 && r.1 == out.1 && r.0.fps == self.fps
            }),
    {
        self.record_sync(ticks, None)
    }
}

/// `a / b` rounded up, for positive `b`.
pub open spec fn ceil_div(a: int, b: int) -> int {
    (a + b - 1) / b
}

/// The frame count a run of the capture loop can still add never shrinks:
/// whatever the ticks hold, the accumulated frames are kept.
pub proof fn lemma_record_keeps_frames(
    ticks: Seq<CaptureTick>,
    interval: int,
    duration: Option<u64>,
    i: nat,
    frames: Seq<ImageModel>,
    skipped: nat,
)
    ensures
        spec_record(ticks, interval, duration, i, frames, skipped).0.len() >= frames.len(),
    decreases ticks.len() - i,
{
    if i >= ticks.len() {
    } else {
        let t = ticks[i as int];
        let frames2 = match t.frame {
            Some(img) => frames.push(img@),
            None => frames,
        };
        let skipped2: nat = match t.frame {
            Some(_) => skipped,
            None => skipped + 1,
        };
        let stop = t.stop_signal || (match duration {
            Some(d) => (i + 1) * interval >= d,
            None => false,
        });
        if !stop {
            lemma_record_keeps_frames(ticks, interval, duration, (i + 1) as nat, frames2, skipped2);
        }
    }
}

/// When every capture succeeds and nothing raises the stop signal, a
/// recording bounded by a duration accumulates exactly one frame per
/// interval until the duration is reached: counted from tick `i`, it adds
/// `min(ticks remaining, max(1, ceil(duration / interval) - i))` frames. In
/// particular a 300 ms recording at one frame per 100 ms, with ticks to
/// spare, yields exactly 3 frames — within one frame of `duration * fps`.
pub proof fn lemma_sync_frame_count(
    ticks: Seq<CaptureTick>,
    interval: int,
    d: u64,
    i: nat,
    frames: Seq<ImageModel>,
    skipped: nat,
)
    requires
        1 <= interval,
        1 <= d,
        i < ticks.len(),
        forall|j: int|
            0 <= j < ticks.len() ==> (#[trigger] ticks[j]).frame is Some && !ticks[j].stop_signal,
    ensures
        ({
            let c = ceil_div(d as int, interval);
            let budget = if c - i >= 1 {
                c - i
            } else {
                1
            };
            let room = ticks.len() - i;
            spec_record(ticks, interval, Some(d), i, frames, skipped).0.len() == frames.len() + (
            if budget <= room {
                budget
            } else {
                room
            })
        }),
    decreases ticks.len() - i,
{
    let c = ceil_div(d as int, interval);
    assert((i + 1) * interval >= d <==> i + 1 >= c) by (nonlinear_arith)
        requires
            interval >= 1,
            d >= 1,
            i >= 0,
            c == (d + interval - 1) / interval,
    ;
    let t = ticks[i as int];
    let frames2 = frames.push(t.frame->0@);
    if i + 1 >= c {
        assert(spec_record(ticks, interval, Some(d), i, frames, skipped).0 == frames2);
    } else {
        if i + 1 < ticks.len() {
            lemma_sync_frame_count(ticks, interval, d, (i + 1) as nat, frames2, skipped);
        } else {
            assert(spec_record(ticks, interval, Some(d), (i + 1) as nat, frames2, skipped).0
                == frames2);
        }
    }
}

/// The asynchronous worker's loop returns a non-empty frame sequence as
/// soon as its first tick captures a frame, however early the stop signal
/// comes afterwards.
pub proof fn lemma_async_records_first_frame(ticks: Seq<CaptureTick>, interval: int)
    requires
        ticks.len() >= 1,
        ticks[0].frame is Some,
    ensures
        spec_record(ticks, interval, None, 0, Seq::<ImageModel>::empty(), 0).0.len() >= 1,
{
    let frames2 = Seq::<ImageModel>::empty().push(ticks[0].frame->0@);
    if !ticks[0].stop_signal {
        lemma_record_keeps_frames(ticks, interval, None, 1, frames2, 0);
    }
}

impl Image {
    /// An owned copy of the frame.
    pub fn clone_image(&self) -> (r: Image)
        ensures
            r.data@ == self.data@,
            r.geometry == self.geometry,
    {
        let mut data: Vec<u8> = Vec::new();
        let mut i: usize = 0;
        while i < self.data.len()
            invariant
                i <= self.data@.len(),
                data@ == self.data@.subrange(0, i as int),
            decreases self.data@.len() - i,
        {
            data.push(self.data[i]);
            i += 1;
        }
        assert(data@ =~= self.data@);
        Image { data, geometry: self.geometry }
    }
}

} // verus!
