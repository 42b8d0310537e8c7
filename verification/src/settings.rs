//! Immutable per-session recording configuration.

use vstd::prelude::*;

verus! {

/// Recording and window settings, constructed once per session.
///
/// `fps` is the target capture rate, `padding` the uniform inset first applied
/// to the window's geometry, `timeout` the selection timeout in seconds,
/// `interval` the selection poll interval in milliseconds, `countdown` the
/// delay before recording starts in seconds, `color` the border color as
/// `0x00RRGGBB`, and `record_root` chooses the root window over the focused
/// one.
#[derive(Clone, Copy, Debug, PartialEq, Eq, Structural)]
pub struct RecordSettings {
    pub fps: u32,
    pub padding: u32,
    pub timeout: u64,
    pub interval: u64,
    pub countdown: u64,
    pub color: u64,
    pub record_root: bool,
}

impl Default for RecordSettings {
    /// The defaults of a fresh session: 10 frames per second, an inset of 5
    /// pixels, a 30 second selection timeout polled every 10 milliseconds, a
    /// 3 second countdown, a magenta border, and the focused window.
    fn default() -> (r: Self)
        ensures
            r == RecordSettings::spec_default(),
    {
        Self {
            fps: 10,
            padding: 5,
            timeout: 30,
            interval: 10,
            countdown: 3,
            color: 0x00ff_00ff,
            record_root: false,
        }
    }
}

impl RecordSettings {
    /// The value `Default::default` returns.
    pub open spec fn spec_default() -> Self {
        RecordSettings {
            fps: 10u32,
            padding: 5u32,
            timeout: 30u64,
            interval: 10u64,
            countdown: 3u64,
            color: 0x00ff_00ffu64,
            record_root: false,
        }
    }

    pub fn new(
        fps: u32,
        padding: u32,
        timeout: u64,
        interval: u64,
        countdown: u64,
        color: u64,
        record_root: bool,
    ) -> (r: Self)
        ensures
            r == (RecordSettings { fps, padding, timeout, interval, countdown, color, record_root }),
    {
        Self { fps, padding, timeout, interval, countdown, color, record_root }
    }
}

} // verus!
