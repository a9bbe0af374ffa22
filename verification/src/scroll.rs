//! The per-line scroll state machine. A line's scroll mode resolves, once
//! at construction, to a signed speed; at runtime the pixel offset advances
//! by one in the direction of the sign whenever the per-pixel interval has
//! elapsed, wrapping modulo the line's pixmap width.
//!
//! Speeds are held in fixed point as milli-pixels per second, and time as
//! microseconds on a monotonic clock supplied by the caller, so that the
//! per-pixel interval `1000 / |speed|` milliseconds is computed exactly in
//! integers: `1_000_000_000 / |speed in mpps|` microseconds.

use vstd::prelude::*;
use vstd::arithmetic::div_mod::lemma_fundamental_div_mod_converse;

verus! {

/// How often a line with no scroll speed is still polled, so that a display
/// of only static lines keeps a finite, positive refresh interval.
pub const STATIC_POLL_US: u64 = 1_000_000;

/// A line's scroll mode. `speed` is in milli-pixels per second (so 16000
/// means 16 pixels per second); `spacing` counts blank characters inserted
/// between scroll cycles: appended for the left modes, prepended for the
/// right modes.
#[derive(Clone, Copy, PartialEq, Eq, Structural, Debug)]
pub enum Scroll {
    /// Never scrolls.
    Off,
    /// Scrolls left at the given speed.
    Left { speed: u32, spacing: u32 },
    /// Scrolls right at the given speed.
    Right { speed: u32, spacing: u32 },
    /// Scrolls left only if the text is longer than the display's character
    /// capacity; otherwise stays static, with no spacing added.
    LeftAuto { speed: u32, spacing: u32 },
    /// Mirror of `LeftAuto`, scrolling right.
    RightAuto { speed: u32, spacing: u32 },
}

/// Signed speed (milli-pixels per second) that a scroll mode resolves to
/// for a text of `text_len` characters on a display that fits `capacity`
/// characters. Positive means the offset increases (text moves left).
pub open spec fn spec_resolve_speed(mode: Scroll, text_len: int, capacity: int) -> int {
    match mode {
        Scroll::Off => 0,
        Scroll::Left { speed, .. } => speed as int,
        Scroll::Right { speed, .. } => -(speed as int),
        Scroll::LeftAuto { speed, .. } => if text_len > capacity {
            speed as int
        } else {
            0
        },
        Scroll::RightAuto { speed, .. } => if text_len > capacity {
            -(speed as int)
        } else {
            0
        },
    }
}

/// A resolved speed always fits this band, which keeps every interval
/// computation in range.
pub open spec fn speed_bounded(speed: i64) -> bool {
    -(u32::MAX as int) <= speed <= u32::MAX as int
}

/// Resolves a scroll mode to its signed speed, evaluated once at line
/// construction and never re-evaluated.
pub fn resolve_speed(mode: &Scroll, text_len: usize, capacity: usize) -> (r: i64)
    ensures
        r == spec_resolve_speed(*mode, text_len as int, capacity as int),
        speed_bounded(r),
{
    match mode {
        Scroll::Off => 0,
        Scroll::Left { speed, .. } => *speed as i64,
        Scroll::Right { speed, .. } => -(*speed as i64),
        Scroll::LeftAuto { speed, .. } => if text_len > capacity {
            *speed as i64
        } else {
            0
        },
        Scroll::RightAuto { speed, .. } => if text_len > capacity {
            -(*speed as i64)
        } else {
            0
        },
    }
}

/// The interval between two offset advances, in microseconds. Meaningful
/// only for a nonzero speed; a zero speed never advances and is polled at
/// `STATIC_POLL_US` instead.
pub open spec fn spec_interval_us(speed: i64) -> int
    recommends
        speed != 0,
{
    1_000_000_000int / (if speed < 0 {
        -(speed as int)
    } else {
        speed as int
    })
}

/// The interval between two offset advances of a line moving at `speed`.
pub fn interval_us(speed: i64) -> (r: u64)
    requires
        speed != 0,
        speed_bounded(speed),
    ensures
        r == spec_interval_us(speed),
{
    let mag: i64 = if speed < 0 {
        -speed
    } else {
        speed
    };
    1_000_000_000u64 / (mag as u64)
}

/// Time elapsed from `prev` to `now` on a monotonic clock, zero if `now`
/// reads earlier.
pub open spec fn spec_elapsed_us(prev: u64, now: u64) -> int {
    if now >= prev {
        now - prev
    } else {
        0
    }
}

/// `x` clamped to the range of `u64`, for deadlines pushed past the end of
/// the representable clock.
pub open spec fn sat_u64(x: int) -> u64 {
    if x > u64::MAX {
        u64::MAX as u64
    } else {
        x as u64
    }
}

/// Runtime scroll state of one line: the resolved signed speed, the current
/// horizontal pixel offset into the line's pixmap, and the time of the last
/// advance.
pub struct ScrollState {
    /// Signed speed in milli-pixels per second; 0 never advances.
    pub speed: i64,
    /// Current horizontal offset, always within `[0, pixmap width)`.
    pub x_offset: usize,
    /// Monotonic timestamp of the last advance, microseconds.
    pub prev_us: u64,
}

impl ScrollState {
    /// Offset in range for a pixmap `width` pixels wide, speed in band.
    pub open spec fn wf(&self, width: int) -> bool {
        &&& self.x_offset < width
        &&& speed_bounded(self.speed)
    }

    /// Whether an update at time `now` advances the offset: the speed is
    /// nonzero and at least the per-pixel interval has elapsed.
    pub open spec fn advances(&self, now: u64) -> bool {
        self.speed != 0 && spec_elapsed_us(self.prev_us, now) >= spec_interval_us(self.speed)
    }

    /// The state after an update at time `now` against a pixmap of the
    /// given width: the offset steps by one in the direction of the speed's
    /// sign, wrapping with Euclidean modulo, and the advance time resets;
    /// or everything stays as it was.
    pub open spec fn stepped(&self, now: u64, width: int) -> ScrollState {
        if self.advances(now) {
            let dir: int = if self.speed > 0 {
                1
            } else {
                -1
            };
            ScrollState {
                speed: self.speed,
                x_offset: ((self.x_offset + dir) % width) as usize,
                prev_us: now,
            }
        } else {
            *self
        }
    }

    /// The absolute time at which this line is next eligible to advance,
    /// as seen from an update at time `now`: a full interval after an
    /// advance, the remainder of the running interval otherwise, and a
    /// fixed polling interval for a static line.
    pub open spec fn next_deadline(&self, now: u64) -> u64 {
        if self.speed == 0 {
            sat_u64(now + STATIC_POLL_US)
        } else if self.advances(now) {
            sat_u64(now + spec_interval_us(self.speed))
        } else {
            sat_u64(self.prev_us + spec_interval_us(self.speed))
        }
    }

    /// A fresh state at offset zero.
    pub fn new(speed: i64, now_us: u64) -> (r: ScrollState)
        requires
            speed_bounded(speed),
        ensures
            r == (ScrollState { speed, x_offset: 0, prev_us: now_us }),
    {
        ScrollState { speed, x_offset: 0, prev_us: now_us }
    }

    /// One update tick at time `now_us` against a pixmap `width` pixels
    /// wide: advances the offset if the line's interval has elapsed, and
    /// returns the absolute time of the line's next eligible advance, which
    /// is never in the past.
    pub fn update(&mut self, now_us: u64, width: usize) -> (next_t: u64)
        requires
            width > 0,
            old(self).wf(width as int),
        ensures
            *final(self) == old(self).stepped(now_us, width as int),
            final(self).wf(width as int),
            next_t == old(self).next_deadline(now_us),
            next_t >= now_us,
    {
        if self.speed != 0 {
            let dt: u64 = interval_us(self.speed);
            let elapsed: u64 = if now_us >= self.prev_us {
                now_us - self.prev_us
            } else {
                0
            };
            if elapsed >= dt {
                if self.speed > 0 {
                    self.x_offset = if self.x_offset + 1 == width {
                        0
                    } else {
                        self.x_offset + 1
                    };
                    proof {
                        if old(self).x_offset + 1 == width {
                            lemma_fundamental_div_mod_converse(
                                old(self).x_offset + 1,
                                width as int,
                                1,
                                0,
                            );
                        } else {
                            lemma_fundamental_div_mod_converse(
                                old(self).x_offset + 1,
                                width as int,
                                0,
                                old(self).x_offset + 1,
                            );
                        }
                    }
                } else {
                    self.x_offset = if self.x_offset == 0 {
                        width - 1
                    } else {
                        self.x_offset - 1
                    };
                    proof {
                        if old(self).x_offset == 0 {
                            lemma_fundamental_div_mod_converse(-1, width as int, -1, width - 1);
                        } else {
                            lemma_fundamental_div_mod_converse(
                                old(self).x_offset - 1,
                                width as int,
                                0,
                                old(self).x_offset - 1,
                            );
                        }
                    }
                }
                self.prev_us = now_us;
                now_us.saturating_add(dt)
            } else {
                self.prev_us.saturating_add(dt)
            }
        } else {
            now_us.saturating_add(STATIC_POLL_US)
        }
    }
}

/// Law: an update keeps the scroll offset inside `[0, pixmap width)`,
/// whichever direction it moves and whether or not it wraps.
pub proof fn lemma_step_keeps_offset_in_range(s: ScrollState, now: u64, width: int)
    requires
        width > 0,
        s.wf(width),
    ensures
        s.stepped(now, width).wf(width),
        0 <= s.stepped(now, width).x_offset < width,
{
    if s.advances(now) {
        let dir: int = if s.speed > 0 {
            1
        } else {
            -1
        };
        if s.x_offset + dir == width {
            lemma_fundamental_div_mod_converse(s.x_offset + dir, width, 1, 0);
        } else if s.x_offset + dir < 0 {
            lemma_fundamental_div_mod_converse(-1, width, -1, width - 1);
        } else {
            lemma_fundamental_div_mod_converse(s.x_offset + dir, width, 0, s.x_offset + dir);
        }
    }
}

/// Law: an advance from offset `width - 1` in the left direction (positive
/// speed) wraps the offset to zero.
pub proof fn lemma_left_advance_wraps(s: ScrollState, now: u64, width: int)
    requires
        width > 0,
        s.wf(width),
        s.speed > 0,
        s.x_offset == width - 1,
        s.advances(now),
    ensures
        s.stepped(now, width).x_offset == 0,
{
    lemma_fundamental_div_mod_converse(width, width, 1, 0);
}

/// Law: an advance from offset zero in the right direction (negative
/// speed) wraps the offset to `width - 1`.
pub proof fn lemma_right_advance_wraps(s: ScrollState, now: u64, width: int)
    requires
        0 < width <= usize::MAX,
        s.wf(width),
        s.speed < 0,
        s.x_offset == 0,
        s.advances(now),
    ensures
        s.stepped(now, width).x_offset == width - 1,
{
    lemma_fundamental_div_mod_converse(-1, width, -1, width - 1);
}

/// Law: a line whose speed resolved to zero never advances; an update
/// leaves its state untouched.
pub proof fn lemma_static_never_advances(s: ScrollState, now: u64, width: int)
    requires
        s.speed == 0,
    ensures
        s.stepped(now, width) == s,
{
}

/// Law: the auto modes resolve to zero speed when the text fits the
/// display's character capacity, and to exactly the speed of the plain
/// `Left`/`Right` modes when it does not.
pub proof fn lemma_auto_mode_speed(speed: u32, spacing: u32, text_len: int, capacity: int)
    ensures
        text_len <= capacity ==> spec_resolve_speed(
            Scroll::LeftAuto { speed, spacing },
            text_len,
            capacity,
        ) == 0,
        text_len <= capacity ==> spec_resolve_speed(
            Scroll::RightAuto { speed, spacing },
            text_len,
            capacity,
        ) == 0,
        text_len > capacity ==> spec_resolve_speed(
            Scroll::LeftAuto { speed, spacing },
            text_len,
            capacity,
        ) == spec_resolve_speed(Scroll::Left { speed, spacing }, text_len, capacity),
        text_len > capacity ==> spec_resolve_speed(
            Scroll::RightAuto { speed, spacing },
            text_len,
            capacity,
        ) == spec_resolve_speed(Scroll::Right { speed, spacing }, text_len, capacity),
{
}

/// Law: the next deadline an update reports never lies in the past, so the
/// scheduler never sleeps a negative duration; for a static line it is the
/// fixed polling interval after `now`.
pub proof fn lemma_deadline_not_past(s: ScrollState, now: u64)
    ensures
        s.next_deadline(now) >= now,
        s.speed == 0 ==> s.next_deadline(now) == sat_u64(now + STATIC_POLL_US),
{
    if s.speed != 0 {
        let mag: int = if s.speed < 0 {
            -(s.speed as int)
        } else {
            s.speed as int
        };
        vstd::arithmetic::div_mod::lemma_div_pos_is_pos(1_000_000_000, mag);
    }
}

} // verus!
