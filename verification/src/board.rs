//! The board: lines composed onto the display, and the minimum-deadline
//! scheduler. Each tick renders every line's current window into one frame
//! and advances each line whose per-pixel interval has elapsed; the next
//! global wake time is the minimum of all lines' next eligible instants, so
//! the loop sleeps until an absolute deadline and accumulates no drift.
//!
//! The board itself is a lifecycle wrapper: idle until activated with a
//! nonempty line list, active until torn down. Running the loop on a
//! background thread, pushing frames to the hardware and sleeping until the
//! returned deadline are left to the embedding program; `display` is the whole
//! decision of one iteration.

use vstd::prelude::*;
use crate::bitmap::Bitmap;
use crate::font::{atlas_wf, FontMaps};
use crate::frame::Frame;
use crate::line::{augmented_text, Line};
use crate::pixmap::{
    composed_pixel, line_period_text, make_pixmap, pixmap_width, spec_capacity, Pixmap,
};
use crate::scroll::{resolve_speed, spec_resolve_speed, ScrollState};
use crate::{SCREEN_H, SCREEN_W};
use vstd::arithmetic::div_mod::lemma_mod_multiples_vanish;

verus! {

/// Errors of the board lifecycle.
#[derive(Clone, Copy, PartialEq, Eq, Structural, Debug)]
pub enum BoardError {
    /// A second activation was requested while one is outstanding.
    AlreadyActive,
}

/// One animated row of the display: its vertical position, its scroll
/// state, and the composed pixmap it samples from.
pub struct BoardLine {
    /// Vertical pixel position on the screen, fixed at construction.
    pub y: usize,
    /// Scroll speed, offset and last-advance time.
    pub scroll: ScrollState,
    /// The full horizontal period of the line, composed once and never
    /// mutated; scrolling moves the sampled window only.
    pub pixmap: Pixmap,
}

/// Whether screen row `y` belongs to this line's band.
pub open spec fn line_covers(line: BoardLine, y: int) -> bool {
    line.y <= y < line.y + line.pixmap.height
}

/// The pixmap pixel this line shows at screen position `(x, y)`: the
/// line's window starts at its scroll offset and wraps around the pixmap.
pub open spec fn line_sample(line: BoardLine, x: int, y: int) -> (u8, u8, u8) {
    line.pixmap.pixel((line.scroll.x_offset + x) % (line.pixmap.width as int), y - line.y)
}

/// The line after one scheduler tick at time `now`: only its scroll state
/// can change.
pub open spec fn line_stepped(line: BoardLine, now: u64) -> BoardLine {
    BoardLine {
        y: line.y,
        scroll: line.scroll.stepped(now, line.pixmap.width as int),
        pixmap: line.pixmap,
    }
}

/// The color the composed frame shows at `(x, y)`: the sample of the last
/// line whose band covers row `y`, black where no line does.
pub open spec fn frame_pixel_spec(lines: Seq<BoardLine>, x: int, y: int) -> (u8, u8, u8)
    decreases lines.len(),
{
    if lines.len() == 0 {
        (0u8, 0u8, 0u8)
    } else if line_covers(lines.last(), y) {
        line_sample(lines.last(), x, y)
    } else {
        frame_pixel_spec(lines.drop_last(), x, y)
    }
}

/// The earliest of the lines' next eligible advance times, as computed by
/// an update at time `now`; the maximum clock value when there are none.
pub open spec fn min_next_deadline(lines: Seq<BoardLine>, now: u64) -> u64
    decreases lines.len(),
{
    if lines.len() == 0 {
        u64::MAX
    } else {
        let m = min_next_deadline(lines.drop_last(), now);
        let d = lines.last().scroll.next_deadline(now);
        if d < m {
            d
        } else {
            m
        }
    }
}

/// Law: when every line is static, the scheduler's next wake time is still
/// finite and deterministic — the fixed polling interval after `now` — so
/// a board of only static lines keeps redrawing without dividing by a zero
/// speed.
pub proof fn lemma_all_static_min_deadline(lines: Seq<BoardLine>, now: u64)
    requires
        lines.len() > 0,
        forall|k: int| 0 <= k < lines.len() ==> (#[trigger] lines[k]).scroll.speed == 0,
    ensures
        min_next_deadline(lines, now) == crate::scroll::sat_u64(now + crate::scroll::STATIC_POLL_US),
        now + crate::scroll::STATIC_POLL_US <= u64::MAX ==> min_next_deadline(lines, now) > now,
    decreases lines.len(),
{
    let last = lines[lines.len() - 1];
    assert(last.scroll.speed == 0);
    crate::scroll::lemma_deadline_not_past(last.scroll, now);
    if lines.len() == 1 {
        assert(lines.drop_last().len() == 0);
        assert(min_next_deadline(lines.drop_last(), now) == u64::MAX);
    }
    if lines.len() > 1 {
        let prefix = lines.drop_last();
        assert forall|k: int| 0 <= k < prefix.len() implies (#[trigger] prefix[k]).scroll.speed
            == 0 by {
            assert(lines[k].scroll.speed == 0);
        }
        lemma_all_static_min_deadline(prefix, now);
    }
}

/// The machine can hold this configuration's composed pixmap: its text
/// with spacing fits a vector, and the pixmap width fits a `usize`.
pub open spec fn config_fits(atlas: Seq<Bitmap>, config: Line) -> bool {
    let augmented = augmented_text(
        config.scroll_mode,
        config.text@,
        spec_capacity(atlas[0].width as int),
    );
    &&& augmented.len() <= usize::MAX
    &&& pixmap_width(atlas, augmented) <= usize::MAX
}

/// `line` is the board line built from `config` under `atlas`, placed at
/// vertical position `y`, with its clock started at `now`: speed resolved
/// from the mode against the unpadded text length, offset zero, and the
/// pixmap composed from the spacing-augmented, padded text.
pub open spec fn line_matches_config(
    line: BoardLine,
    atlas: Seq<Bitmap>,
    config: Line,
    y: int,
    now: u64,
) -> bool {
    &&& line.wf()
    &&& line.y == y
    &&& line.scroll.x_offset == 0
    &&& line.scroll.prev_us == now
    &&& line.scroll.speed == spec_resolve_speed(
        config.scroll_mode,
        config.text@.len() as int,
        spec_capacity(atlas[0].width as int),
    )
    &&& line.pixmap.height == atlas[0].height
    &&& line.pixmap.width == pixmap_width(
        atlas,
        augmented_text(config.scroll_mode, config.text@, spec_capacity(atlas[0].width as int)),
    )
    &&& forall|x: int, y2: int|
        0 <= x < line.pixmap.width && 0 <= y2 < line.pixmap.height ==> #[trigger] line.pixmap.pixel(
            x,
            y2,
        ) == composed_pixel(
            atlas,
            line_period_text(config.scroll_mode, config.text@, atlas[0].width as int),
            config.color,
            x,
            y2,
        )
}

/// `(off + dx) % w`, computed without overflow.
fn mod_add(off: usize, dx: usize, w: usize) -> (r: usize)
    requires
        w > 0,
        off < w,
    ensures
        r == (off + dx) % (w as int),
        r < w,
{
    let rem = w - off;
    if dx < rem {
        proof {
            vstd::arithmetic::div_mod::lemma_small_mod((off + dx) as nat, w as nat);
        }
        off + dx
    } else {
        let r = (dx - rem) % w;
        proof {
            lemma_mod_multiples_vanish(1, dx - rem, w as int);
            assert(off + dx == 1 * (w as int) + (dx - rem));
        }
        r
    }
}

impl BoardLine {
    /// Pixmap well-formed and nonempty, scroll state within it.
    pub open spec fn wf(&self) -> bool {
        &&& self.pixmap.wf()
        &&& self.pixmap.width > 0
        &&& self.scroll.wf(self.pixmap.width as int)
    }

    /// Builds the line for one configuration: resolves the scroll mode to
    /// a speed against the unpadded text length, augments the text with
    /// the mode's spacing (none when an auto mode degrades to static), and
    /// composes the pixmap.
    pub fn new(font_map: &Vec<Bitmap>, y: usize, line_config: &Line, now_us: u64) -> (r: BoardLine)
        requires
            atlas_wf(font_map@),
            font_map@[0].width <= SCREEN_W,
            config_fits(font_map@, *line_config),
        ensures
            line_matches_config(r, font_map@, *line_config, y as int, now_us),
    {
        let cw = font_map[0].width();
        let n = SCREEN_W / cw;
        let speed = resolve_speed(&line_config.scroll_mode, line_config.text.len(), n);
        let augmented = crate::line::augment_text(&line_config.text, &line_config.scroll_mode, n);
        let pixmap = make_pixmap(font_map, &augmented, line_config.color);
        BoardLine { y, scroll: ScrollState::new(speed, now_us), pixmap }
    }

    /// One scroll update at time `now_us`: advances the offset if this
    /// line's interval has elapsed, and returns the absolute time at which
    /// the line is next eligible to advance, never in the past.
    pub fn update_scroll(&mut self, now_us: u64) -> (next_t: u64)
        requires
            old(self).wf(),
        ensures
            *final(self) == line_stepped(*old(self), now_us),
            final(self).wf(),
            next_t == old(self).scroll.next_deadline(now_us),
            next_t >= now_us,
    {
        let w = self.pixmap.width;
        self.scroll.update(now_us, w)
    }

    /// Paints this line's current window into the frame: screen columns
    /// sample the pixmap from the scroll offset, wrapping at its width;
    /// rows below the bottom of the screen are clipped; every pixel
    /// outside the line's band is left untouched.
    pub fn display(&self, frame: &mut Frame)
        requires
            self.wf(),
            old(frame).wf(),
        ensures
            final(frame).wf(),
            forall|x: int, y: int|
                0 <= x < SCREEN_W && 0 <= y < SCREEN_H ==> #[trigger] final(frame).pixel(x, y) == (
                if line_covers(*self, y) {
                    line_sample(*self, x, y)
                } else {
                    old(frame).pixel(x, y)
                }),
    {
        if self.y >= SCREEN_H {
            return;
        }
        let h = self.pixmap.height;
        let avail = SCREEN_H - self.y;
        let max_dy = if h < avail {
            h
        } else {
            avail
        };
        let mut dy: usize = 0;
        while dy < max_dy
            invariant
                self.wf(),
                frame.wf(),
                self.y < SCREEN_H,
                max_dy <= self.pixmap.height,
                self.y + max_dy <= SCREEN_H,
                self.y + self.pixmap.height > SCREEN_H ==> self.y + max_dy == SCREEN_H,
                self.y + self.pixmap.height <= SCREEN_H ==> max_dy == self.pixmap.height,
                dy <= max_dy,
                forall|x: int, y: int|
                    0 <= x < SCREEN_W && 0 <= y < SCREEN_H ==> #[trigger] frame.pixel(x, y) == (
                    if self.y <= y < self.y + dy {
                        line_sample(*self, x, y)
                    } else {
                        old(frame).pixel(x, y)
                    }),
            decreases max_dy - dy,
        {
            let ys = self.y + dy;
            let mut dx: usize = 0;
            while dx < SCREEN_W
                invariant
                    self.wf(),
                    frame.wf(),
                    self.y < SCREEN_H,
                    dy < max_dy,
                    max_dy <= self.pixmap.height,
                    self.y + max_dy <= SCREEN_H,
                    ys == self.y + dy,
                    dx <= SCREEN_W,
                    forall|x: int, y: int|
                        0 <= x < SCREEN_W && 0 <= y < SCREEN_H ==> #[trigger] frame.pixel(x, y)
                            == (if self.y <= y < self.y + dy || (y == ys && x < dx) {
                            line_sample(*self, x, y)
                        } else {
                            old(frame).pixel(x, y)
                        }),
                decreases SCREEN_W - dx,
            {
                let xs = mod_add(self.scroll.x_offset, dx, self.pixmap.width);
                let c = self.pixmap.get(xs, dy);
                frame.set(dx, ys, c);
                dx += 1;
            }
            dy += 1;
        }
    }
}

/// The board: the set of lines being animated, and whether a render loop
/// is outstanding.
pub struct UnicornBoard {
    /// The animated lines, in the order they were configured.
    pub lines: Vec<BoardLine>,
    /// Whether an activation is outstanding.
    pub active: bool,
}

/// Vertical position of the `k`-th configured line: the sum of the glyph
/// heights of the lines placed before it.
pub open spec fn heights_prefix_sum(fonts: FontMaps, configs: Seq<Line>, k: int) -> int
    decreases k,
{
    if k <= 0 {
        0
    } else {
        heights_prefix_sum(fonts, configs, k - 1) + fonts.spec_get(configs[k - 1].font)[0].height
    }
}

/// Every prefix of the height sum is bounded by the whole sum.
proof fn lemma_heights_prefix_monotone(fonts: FontMaps, configs: Seq<Line>, k: int)
    requires
        0 <= k <= configs.len(),
    ensures
        heights_prefix_sum(fonts, configs, k) <= heights_prefix_sum(
            fonts,
            configs,
            configs.len() as int,
        ),
        heights_prefix_sum(fonts, configs, k) >= 0,
    decreases configs.len() - k,
{
    if k < configs.len() {
        lemma_heights_prefix_monotone(fonts, configs, k + 1);
    }
    if k > 0 {
        lemma_heights_prefix_nonneg(fonts, configs, k);
    }
}

/// Height sums never go negative.
proof fn lemma_heights_prefix_nonneg(fonts: FontMaps, configs: Seq<Line>, k: int)
    ensures
        heights_prefix_sum(fonts, configs, k) >= 0,
    decreases k,
{
    if k > 0 {
        lemma_heights_prefix_nonneg(fonts, configs, k - 1);
    }
}

impl UnicornBoard {
    /// Every line well-formed; an active board animates at least one line.
    pub open spec fn wf(&self) -> bool {
        &&& forall|k: int| 0 <= k < self.lines@.len() ==> (#[trigger] self.lines@[k]).wf()
        &&& (self.active ==> self.lines@.len() > 0)
    }

    /// An idle board with no lines.
    pub fn new() -> (b: UnicornBoard)
        ensures
            b.wf(),
            !b.active,
            b.lines@.len() == 0,
    {
        UnicornBoard { lines: Vec::new(), active: false }
    }

    /// Whether an activation is outstanding.
    pub fn is_active(&self) -> (r: bool)
        ensures
            r == self.active,
    {
        self.active
    }

    /// Builds and appends one board line per configuration, assigning each
    /// its vertical position by accumulating the glyph heights of the
    /// lines placed before it.
    pub fn set_lines(&mut self, font_maps: &FontMaps, line_configs_list: &Vec<Line>, now_us: u64)
        requires
            old(self).wf(),
            font_maps.wf(),
            forall|k: int|
                0 <= k < line_configs_list@.len() ==> config_fits(
                    font_maps.spec_get(line_configs_list@[k].font),
                    #[trigger] line_configs_list@[k],
                ),
            heights_prefix_sum(*font_maps, line_configs_list@, line_configs_list@.len() as int)
                <= usize::MAX,
        ensures
            final(self).wf(),
            final(self).active == old(self).active,
            final(self).lines@.len() == old(self).lines@.len() + line_configs_list@.len(),
            final(self).lines@.subrange(0, old(self).lines@.len() as int) == old(self).lines@,
            forall|k: int|
                0 <= k < line_configs_list@.len() ==> line_matches_config(
                    #[trigger] final(self).lines@[old(self).lines@.len() + k],
                    font_maps.spec_get(line_configs_list@[k].font),
                    line_configs_list@[k],
                    heights_prefix_sum(*font_maps, line_configs_list@, k),
                    now_us,
                ),
    {
        let ghost old_len = self.lines@.len() as int;
        let mut y: usize = 0;
        let mut idx: usize = 0;
        while idx < line_configs_list.len()
            invariant
                font_maps.wf(),
                forall|k: int|
                    0 <= k < line_configs_list@.len() ==> config_fits(
                        font_maps.spec_get(line_configs_list@[k].font),
                        #[trigger] line_configs_list@[k],
                    ),
                heights_prefix_sum(*font_maps, line_configs_list@, line_configs_list@.len() as int)
                    <= usize::MAX,
                idx <= line_configs_list@.len(),
                y == heights_prefix_sum(*font_maps, line_configs_list@, idx as int),
                self.lines@.len() == old_len + idx,
                old_len == old(self).lines@.len(),
                self.lines@.subrange(0, old_len) == old(self).lines@,
                self.active == old(self).active,
                forall|k: int| 0 <= k < old_len ==> (#[trigger] self.lines@[k]).wf(),
                forall|k: int|
                    0 <= k < idx ==> line_matches_config(
                        #[trigger] self.lines@[old_len + k],
                        font_maps.spec_get(line_configs_list@[k].font),
                        line_configs_list@[k],
                        heights_prefix_sum(*font_maps, line_configs_list@, k),
                        now_us,
                    ),
            decreases line_configs_list@.len() - idx,
        {
            proof {
                lemma_heights_prefix_monotone(*font_maps, line_configs_list@, idx + 1);
                lemma_heights_prefix_nonneg(*font_maps, line_configs_list@, idx as int);
            }
            let config = &line_configs_list[idx];
            let font_map = font_maps.get(config.font);
            let line = BoardLine::new(font_map, y, config, now_us);
            self.lines.push(line);
            proof {
                assert(self.lines@.subrange(0, old_len) =~= old(self).lines@);
            }
            y = y + font_map[0].height();
            idx += 1;
        }
        proof {
            assert forall|k: int| 0 <= k < self.lines@.len() implies (#[trigger] self.lines@[k]).wf() by {
                if k >= old_len {
                    assert(line_matches_config(
                        self.lines@[old_len + (k - old_len)],
                        font_maps.spec_get(line_configs_list@[k - old_len].font),
                        line_configs_list@[k - old_len],
                        heights_prefix_sum(*font_maps, line_configs_list@, k - old_len),
                        now_us,
                    ));
                }
            }
        }
    }

    /// Activates the board: a no-op on an empty line list (the board stays
    /// idle, nothing is scheduled), an error if an activation is already
    /// outstanding, and otherwise builds the lines and marks the board
    /// active. Running the loop is the embedding program's part.
    pub fn activate(&mut self, font_maps: &FontMaps, line_configs_list: &Vec<Line>, now_us: u64)
        -> (r: Result<(), BoardError>)
        requires
            old(self).wf(),
            font_maps.wf(),
            forall|k: int|
                0 <= k < line_configs_list@.len() ==> config_fits(
                    font_maps.spec_get(line_configs_list@[k].font),
                    #[trigger] line_configs_list@[k],
                ),
            heights_prefix_sum(*font_maps, line_configs_list@, line_configs_list@.len() as int)
                <= usize::MAX,
        ensures
            final(self).wf(),
            old(self).active ==> r == Result::<(), BoardError>::Err(BoardError::AlreadyActive)
                && *final(self) == *old(self),
            !old(self).active && line_configs_list@.len() == 0 ==> {
                &&& r == Result::<(), BoardError>::Ok(())
                &&& *final(self) == *old(self)
                &&& !final(self).active
            },
            !old(self).active && line_configs_list@.len() > 0 ==> {
                &&& r == Result::<(), BoardError>::Ok(())
                &&& final(self).active
                &&& final(self).lines@.len() == line_configs_list@.len()
                &&& forall|k: int|
                    0 <= k < line_configs_list@.len() ==> line_matches_config(
                        #[trigger] final(self).lines@[k],
                        font_maps.spec_get(line_configs_list@[k].font),
                        line_configs_list@[k],
                        heights_prefix_sum(*font_maps, line_configs_list@, k),
                        now_us,
                    )
            },
    {
        if self.active {
            return Err(BoardError::AlreadyActive);
        }
        if line_configs_list.len() == 0 {
            return Ok(());
        }
        self.lines.clear();
        self.set_lines(font_maps, line_configs_list, now_us);
        proof {
            assert forall|k: int| 0 <= k < line_configs_list@.len() implies line_matches_config(
                #[trigger] self.lines@[k],
                font_maps.spec_get(line_configs_list@[k].font),
                line_configs_list@[k],
                heights_prefix_sum(*font_maps, line_configs_list@, k),
                now_us,
            ) by {
                assert(line_matches_config(
                    self.lines@[0 + k],
                    font_maps.spec_get(line_configs_list@[k].font),
                    line_configs_list@[k],
                    heights_prefix_sum(*font_maps, line_configs_list@, k),
                    now_us,
                ));
            }
        }
        self.active = true;
        Ok(())
    }

    /// Tears the board down to idle, dropping its lines. Signalling the
    /// render loop, joining it and clearing the display are the embedding
    /// program's part, done before this.
    pub fn deactivate(&mut self)
        ensures
            final(self).wf(),
            !final(self).active,
            final(self).lines@.len() == 0,
    {
        self.lines.clear();
        self.active = false;
    }

    /// One scheduler iteration at time `now_us`: composes the frame the
    /// display should show (after this tick's advances), advances every
    /// line whose interval has elapsed, and returns the frame together
    /// with the earliest next deadline of any line — the absolute time to
    /// sleep until, never in the past.
    pub fn display(&mut self, now_us: u64) -> (r: (Frame, u64))
        requires
            old(self).wf(),
            old(self).lines@.len() > 0,
        ensures
            final(self).wf(),
            final(self).active == old(self).active,
            final(self).lines@.len() == old(self).lines@.len(),
            forall|k: int|
                0 <= k < old(self).lines@.len() ==> #[trigger] final(self).lines@[k]
                    == line_stepped(old(self).lines@[k], now_us),
            r.1 == min_next_deadline(old(self).lines@, now_us),
            r.1 >= now_us,
            r.0.wf(),
            forall|x: int, y: int|
                0 <= x < SCREEN_W && 0 <= y < SCREEN_H ==> #[trigger] r.0.pixel(x, y)
                    == frame_pixel_spec(final(self).lines@, x, y),
    {
        let n = self.lines.len();
        let mut next_t: u64 = u64::MAX;
        let mut k: usize = 0;
        while k < n
            invariant
                n == self.lines@.len(),
                self.lines@.len() == old(self).lines@.len(),
                self.active == old(self).active,
                k <= n,
                forall|m: int| 0 <= m < old(self).lines@.len() ==> (#[trigger] old(
                    self,
                ).lines@[m]).wf(),
                forall|m: int|
                    0 <= m < k ==> #[trigger] self.lines@[m] == line_stepped(
                        old(self).lines@[m],
                        now_us,
                    ) && self.lines@[m].wf(),
                forall|m: int| k <= m < n ==> #[trigger] self.lines@[m] == old(self).lines@[m],
                next_t == min_next_deadline(old(self).lines@.subrange(0, k as int), now_us),
                next_t >= now_us,
            decreases n - k,
        {
            let nt = self.lines[k].update_scroll(now_us);
            if nt < next_t {
                next_t = nt;
            }
            k += 1;
            proof {
                let pre = old(self).lines@.subrange(0, k as int);
                assert(pre.drop_last() =~= old(self).lines@.subrange(0, k - 1));
                assert(pre.last() == old(self).lines@[k - 1]);
            }
        }
        proof {
            assert(old(self).lines@.subrange(0, n as int) =~= old(self).lines@);
        }
        let mut frame = Frame::new();
        let mut k2: usize = 0;
        while k2 < n
            invariant
                n == self.lines@.len(),
                k2 <= n,
                frame.wf(),
                forall|m: int| 0 <= m < n ==> (#[trigger] self.lines@[m]).wf(),
                forall|x: int, y: int|
                    0 <= x < SCREEN_W && 0 <= y < SCREEN_H ==> #[trigger] frame.pixel(x, y)
                        == frame_pixel_spec(self.lines@.subrange(0, k2 as int), x, y),
            decreases n - k2,
        {
            let line = &self.lines[k2];
            line.display(&mut frame);
            k2 += 1;
            proof {
                let pre = self.lines@.subrange(0, k2 as int);
                assert(pre.drop_last() =~= self.lines@.subrange(0, k2 - 1));
                assert(pre.last() == self.lines@[k2 - 1]);
            }
        }
        proof {
            assert(self.lines@.subrange(0, n as int) =~= self.lines@);
        }
        (frame, next_t)
    }
}

} // verus!
