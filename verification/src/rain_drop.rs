//! The rain drop itself: a falling character stream with a fixed column, a
//! fractional row, a bounded body, and a time-driven grow / traverse /
//! recycle state machine.
//!
//! The fractional row `fy` is kept in milli-rows: `fy == 10_800` means the
//! head sits at row 10.8. All position arithmetic is exact on that fixed
//! point; the projection to whole rows rounds to the nearest integer with
//! ties away from zero.

use vstd::prelude::*;
use vstd::math::min;
use crate::chars::{CharacterPool, pool_chars};
use crate::options::DigitalRainOptions;
use crate::style::{RainDropStyle, random_style};
use crate::sampling::{random_range_u16, random_range_usize};

verus! {

/// Milli-rows per row of the character grid.
pub const MILLI: u64 = 1000;

/// Nearest whole row of a milli-row position, ties away from zero.
/// For non-negative `fy` this is the usual "round half up".
pub open spec fn rounded(fy: int) -> int {
    fy / 1000 + if fy % 1000 >= 500 {
        1int
    } else {
        0int
    }
}

/// Exact executable counterpart of [`rounded`].
pub fn round_row(fy: u64) -> (r: u64)
    ensures
        r == rounded(fy as int),
{
    fy / MILLI + if fy % MILLI >= 500 {
        1
    } else {
        0
    }
}

/// How many characters `grow` inserts at the head: none on the
/// capacity-truncation path or when the head has not advanced; one new
/// character per row crossed for a fast drop (`speed > 8`); at most one for
/// a slow drop, however far the head moved.
pub open spec fn grow_count(pre: RainDrop, head_row: int) -> int {
    if pre.body@.len() >= pre.max_length {
        0
    } else {
        let delta = head_row - rounded(pre.fy as int);
        if delta <= 0 {
            0
        } else if pre.speed > 8 {
            delta
        } else {
            1
        }
    }
}

/// What one `grow` call does to a drop: `grow_count` fresh pool characters
/// appear at the head, the previous body follows them shifted up, the whole
/// is cut to `max_length` from the tail end, and every other field is left
/// alone. The fractional row is not mentioned here; `grow` states separately
/// that it never moves it.
pub open spec fn grown(pre: RainDrop, post: RainDrop, head_row: int) -> bool {
    let k = grow_count(pre, head_row);
    &&& post.drop_id == pre.drop_id
    &&& post.style == pre.style
    &&& post.fx == pre.fx
    &&& post.max_length == pre.max_length
    &&& post.speed == pre.speed
    &&& post.body@.len() == min(pre.body@.len() + k, pre.max_length as int)
    &&& (forall|i: int| k <= i < post.body@.len() ==> post.body@[i] == pre.body@[i - k])
    &&& (forall|i: int|
        0 <= i < k && i < post.body@.len() ==> pool_chars().contains(#[trigger] post.body@[i]))
}

/// What a recycle leaves behind: the identity survives, the body is reseeded
/// with exactly one pool character, the head restarts at row zero, and
/// column, speed and length cap are re-drawn from their recycle ranges. The
/// style is re-drawn too, with no constraint worth stating.
pub open spec fn reset_state(
    pre: RainDrop,
    post: RainDrop,
    width: int,
    height: int,
    opts: DigitalRainOptions,
) -> bool {
    &&& post.drop_id == pre.drop_id
    &&& post.body@.len() == 1
    &&& pool_chars().contains(post.body@[0])
    &&& post.fy == 0
    &&& post.fx < width
    &&& opts.min_speed <= post.speed <= opts.max_speed
    &&& height / 4 + 1 <= post.max_length <= height / 2
}

/// What creation guarantees: every randomized field lies in its documented
/// range, the initial body holds between one and `max_length / 2` pool
/// characters, and the head starts on a whole row inside the top quarter
/// band.
pub open spec fn created(
    post: RainDrop,
    drop_id: int,
    width: int,
    height: int,
    opts: DigitalRainOptions,
) -> bool {
    &&& post.drop_id == drop_id
    &&& 1 <= post.body@.len() <= post.max_length / 2
    &&& (forall|i: int|
        0 <= i < post.body@.len() ==> pool_chars().contains(#[trigger] post.body@[i]))
    &&& post.fx < width
    &&& post.fy % 1000 == 0
    &&& post.fy / 1000 < height / 4
    &&& 4 <= post.max_length <= 2 * height / 3
    &&& opts.min_speed <= post.speed <= opts.max_speed
    &&& post.wf()
}

/// The head's milli-row position after `dt_ms` milliseconds of fall.
pub open spec fn milli_after(pre: RainDrop, dt_ms: int) -> int {
    pre.fy + pre.speed * dt_ms
}

/// The head's projected whole row after `dt_ms` milliseconds.
pub open spec fn head_row_after(pre: RainDrop, dt_ms: int) -> int {
    rounded(milli_after(pre, dt_ms))
}

/// The tail's projected whole row after `dt_ms` milliseconds; may be
/// negative while the drop is still entering from the top.
pub open spec fn tail_row_after(pre: RainDrop, dt_ms: int) -> int {
    head_row_after(pre, dt_ms) - pre.body@.len()
}

/// The whole tick state machine, branch for branch.
///
/// An empty body is a defect state and recycles at once. Otherwise the new
/// position decides: still emerging from the top (tail row at or above zero)
/// or fully on screen (head row at most `height`) - grow and commit the new
/// position; head past the bottom but tail still visible - only commit the
/// position; tail fully below the surface - recycle, discarding the new
/// position. The branches are tried in exactly this order.
pub open spec fn updated(
    pre: RainDrop,
    post: RainDrop,
    width: int,
    height: int,
    opts: DigitalRainOptions,
    dt_ms: int,
) -> bool {
    if pre.body@.len() == 0 {
        reset_state(pre, post, width, height, opts)
    } else {
        let nm = milli_after(pre, dt_ms);
        let h = head_row_after(pre, dt_ms);
        let t = tail_row_after(pre, dt_ms);
        if t <= 0 {
            grown(pre, post, h) && post.fy == nm
        } else if h <= height {
            grown(pre, post, h) && post.fy == nm
        } else if t < height {
            &&& post.drop_id == pre.drop_id
            &&& post.body == pre.body
            &&& post.style == pre.style
            &&& post.fx == pre.fx
            &&& post.max_length == pre.max_length
            &&& post.speed == pre.speed
            &&& post.fy == nm
        } else {
            reset_state(pre, post, width, height, opts)
        }
    }
}

/// One falling character stream.
///
/// `body[0]` is the head: the leading, bottom-most character; higher indices
/// trail behind it, one row further up each.
pub struct RainDrop {
    /// Stable identity; survives every recycle.
    pub drop_id: usize,
    /// Head-first character sequence.
    pub body: Vec<char>,
    /// Rendering-intensity variant, re-sampled on every recycle.
    pub style: RainDropStyle,
    /// Fixed horizontal column.
    pub fx: u16,
    /// Fractional vertical row of the head, in milli-rows.
    pub fy: u64,
    /// Cap on the body length.
    pub max_length: usize,
    /// Fall rate in rows per second.
    pub speed: u16,
}

impl RainDrop {
    /// The standing invariant of a healthy drop: the body never exceeds its
    /// cap.
    pub open spec fn wf(self) -> bool {
        self.body@.len() <= self.max_length
    }

    /// Builds a drop from explicit values.
    pub fn from_values(
        drop_id: usize,
        body: Vec<char>,
        style: RainDropStyle,
        fx: u16,
        fy: u64,
        max_length: usize,
        speed: u16,
    ) -> (r: RainDrop)
        ensures
            r.drop_id == drop_id,
            r.body == body,
            r.style == style,
            r.fx == fx,
            r.fy == fy,
            r.max_length == max_length,
            r.speed == speed,
    {
        RainDrop { drop_id, body, style, fx, fy, max_length, speed }
    }

    /// Projects the head to whole screen coordinates: the fixed column and
    /// the nearest row, ties rounding away from zero.
    pub fn to_point(&self) -> (r: (u16, u64))
        ensures
            r.0 == self.fx,
            r.1 == rounded(self.fy as int),
    {
        (self.fx, round_row(self.fy))
    }

    /// Projects the whole body to screen coordinates, head first: index `i`
    /// lands one row above index `i - 1`, and the walk stops at the first
    /// row that would be negative. The caller clips rows beyond the bottom.
    pub fn to_points_vec(&self) -> (r: Vec<(u16, u64, char)>)
        ensures
            r@.len() == min(self.body@.len() as int, rounded(self.fy as int) + 1),
            forall|i: int|
                0 <= i < r@.len() ==> #[trigger] r@[i] == (
                    self.fx,
                    (rounded(self.fy as int) - i) as u64,
                    self.body@[i],
                ),
            rounded(self.fy as int) + 1 >= self.body@.len() ==> r@.len() == self.body@.len(),
    {
        let mut points: Vec<(u16, u64, char)> = Vec::new();
        let head_x = self.fx;
        let head_y: u64 = round_row(self.fy);
        let mut idx: usize = 0;
        while idx < self.body.len() && (idx as u64) <= head_y
            invariant
                head_x == self.fx,
                head_y == rounded(self.fy as int),
                idx <= self.body@.len(),
                idx <= head_y + 1,
                points@.len() == idx,
                forall|i: int|
                    0 <= i < idx ==> #[trigger] points@[i] == (
                        self.fx,
                        (rounded(self.fy as int) - i) as u64,
                        self.body@[i],
                    ),
            decreases self.body@.len() - idx,
        {
            points.push((head_x, head_y - (idx as u64), self.body[idx]));
            idx += 1;
        }
        points
    }

    /// Advances the body for a head that moved to `head_row` while the
    /// stored position still holds the previous tick's value: fresh pool
    /// characters are inserted at the head as [`grow_count`] says, and the
    /// body is truncated to `max_length`, which also repairs a body already
    /// over the cap. The position itself is untouched.
    pub fn grow(
        &mut self,
        head_row: u64,
        pool: &CharacterPool,
        rng: &mut rand::rngs::ThreadRng,
    )
        requires
            pool.wf(),
        ensures
            grown(*old(self), *final(self), head_row as int),
            final(self).fy == old(self).fy,
            final(self).wf(),
    {
        if self.body.len() >= self.max_length {
            self.body.truncate(self.max_length);
            return;
        }
        let prev: u64 = round_row(self.fy);
        if head_row > prev {
            let delta: u64 = head_row - prev;
            if self.speed > 8 {
                let mut j: u64 = 0;
                while j < delta
                    invariant
                        j <= delta,
                        pool.wf(),
                        self.drop_id == old(self).drop_id,
                        self.style == old(self).style,
                        self.fx == old(self).fx,
                        self.fy == old(self).fy,
                        self.max_length == old(self).max_length,
                        self.speed == old(self).speed,
                        self.body@.len() == old(self).body@.len() + j,
                        forall|i: int|
                            j <= i < self.body@.len() ==> self.body@[i] == old(self).body@[i - j],
                        forall|i: int|
                            0 <= i < j ==> pool_chars().contains(#[trigger] self.body@[i]),
                    decreases delta - j,
                {
                    let c = pool.random_character(rng);
                    self.body.insert(0, c);
                    j = j + 1;
                }
                self.body.truncate(self.max_length);
            } else {
                let c = pool.random_character(rng);
                self.body.insert(0, c);
                self.body.truncate(self.max_length);
            }
        } else {
            self.body.truncate(self.max_length);
        }
    }

    /// Recycles the drop in place: everything but the identity is
    /// re-randomized, the body shrinks to a single fresh character and the
    /// head restarts at row zero. The recycle length cap is drawn from
    /// `[height / 4 + 1, height / 2]`, deliberately narrower than the
    /// creation-time range.
    pub fn reset(
        &mut self,
        screen_size: (u16, u16),
        options: &DigitalRainOptions,
        pool: &CharacterPool,
        rng: &mut rand::rngs::ThreadRng,
    )
        requires
            screen_size.0 >= 1,
            screen_size.1 >= 2,
            options.wf(),
            pool.wf(),
        ensures
            reset_state(
                *old(self),
                *final(self),
                screen_size.0 as int,
                screen_size.1 as int,
                *options,
            ),
            final(self).wf(),
    {
        self.body.clear();
        let c = pool.random_character(rng);
        self.body.insert(0, c);
        self.style = random_style(rng);
        self.fy = 0;
        self.fx = random_range_u16(rng, 0, screen_size.0 - 1);
        self.speed = random_range_u16(rng, options.get_min_speed(), options.get_max_speed());
        let lo: u16 = screen_size.1 / 4 + 1;
        let hi: u16 = screen_size.1 / 2;
        self.max_length = random_range_u16(rng, lo, hi) as usize;
    }

    /// Creates a drop with randomized defaults bounded by the surface size
    /// and the speed configuration: a column inside the surface, a whole
    /// starting row inside the top quarter band, a length cap in
    /// `[4, 2 * height / 3]`, a speed inside the configured range, and an
    /// initial body of one to `max_length / 2` pool characters.
    pub fn new(
        screen_size: (u16, u16),
        options: &DigitalRainOptions,
        drop_id: usize,
        pool: &CharacterPool,
        rng: &mut rand::rngs::ThreadRng,
    ) -> (r: RainDrop)
        requires
            screen_size.0 >= 1,
            screen_size.1 >= 6,
            options.wf(),
            pool.wf(),
        ensures
            created(r, drop_id as int, screen_size.0 as int, screen_size.1 as int, *options),
    {
        let style = random_style(rng);
        let fx = random_range_u16(rng, 0, screen_size.0 - 1);
        let fy_row = random_range_u16(rng, 0, screen_size.1 / 4 - 1);
        let fy: u64 = (fy_row as u64) * MILLI;
        let cap_hi: usize = 2 * (screen_size.1 as usize) / 3;
        let max_length: usize = random_range_usize(rng, 4, cap_hi);
        let speed = random_range_u16(rng, options.get_min_speed(), options.get_max_speed());
        let init_length: usize = random_range_usize(rng, 1, max_length / 2 - 1);
        let mut body: Vec<char> = Vec::new();
        body.push(pool.random_character(rng));
        let mut n: usize = 1;
        while n < init_length
            invariant
                1 <= n <= init_length || (init_length == 0 && n == 1),
                pool.wf(),
                body@.len() == n,
                forall|i: int| 0 <= i < n ==> pool_chars().contains(#[trigger] body@[i]),
            decreases init_length - n,
        {
            body.push(pool.random_character(rng));
            n = n + 1;
        }
        Self::from_values(drop_id, body, style, fx, fy, max_length, speed)
    }

    /// Advances the simulation by `dt_ms` milliseconds, exactly as
    /// [`updated`] describes: grow while emerging or traversing, coast while
    /// exiting through the bottom, recycle once the tail has fully left, and
    /// recycle at once from the defect state of an empty body.
    pub fn update(
        &mut self,
        screen_size: (u16, u16),
        options: &DigitalRainOptions,
        dt_ms: u64,
        pool: &CharacterPool,
        rng: &mut rand::rngs::ThreadRng,
    )
        requires
            old(self).fy + old(self).speed * dt_ms <= u64::MAX,
            screen_size.0 >= 1,
            screen_size.1 >= 2,
            options.wf(),
            pool.wf(),
        ensures
            updated(
                *old(self),
                *final(self),
                screen_size.0 as int,
                screen_size.1 as int,
                *options,
                dt_ms as int,
            ),
            old(self).wf() ==> final(self).wf(),
    {
        if self.body.len() == 0 {
            self.reset(screen_size, options, pool, rng);
            return;
        }

        let nm: u64 = self.fy + (self.speed as u64) * dt_ms;
        let head: u64 = round_row(nm);
        let height: u16 = screen_size.1;

        if (head as u128) <= (self.body.len() as u128) {
            // the tail has not yet fully entered from the top
            self.grow(head, pool, rng);
            self.fy = nm;
            return;
        }

        if head <= height as u64 {
            // fully on screen
            self.grow(head, pool, rng);
            self.fy = nm;
            return;
        }

        if (head as u128) < (height as u128) + (self.body.len() as u128) {
            // the head has left through the bottom, the tail is still visible
            self.fy = nm;
            return;
        }

        // the tail has fully left the surface
        self.reset(screen_size, options, pool, rng);
    }
}

/// Law: growth never removes the current head. On the normal growth path the
/// old head keeps its place right after the `grow_count` freshly inserted
/// characters, whenever the cap has not cut it off; on the
/// capacity-truncation path characters are only trimmed from the tail end,
/// so every surviving index keeps its character.
pub proof fn lemma_grow_keeps_head(pre: RainDrop, post: RainDrop, head_row: int)
    requires
        grown(pre, post, head_row),
        pre.body@.len() >= 1,
    ensures
        pre.body@.len() < pre.max_length && grow_count(pre, head_row) < post.body@.len()
            ==> post.body@[grow_count(pre, head_row)] == pre.body@[0],
        pre.body@.len() >= pre.max_length ==> (forall|i: int|
            0 <= i < post.body@.len() ==> post.body@[i] == pre.body@[i]),
{
}

/// Law: once the tail's projected row has reached the surface height, the
/// very next update recycles the drop - the fractional row restarts at
/// exactly zero and the body holds exactly one character, whatever length
/// it had before.
pub proof fn lemma_update_recycles(
    pre: RainDrop,
    post: RainDrop,
    width: int,
    height: int,
    opts: DigitalRainOptions,
    dt_ms: int,
)
    requires
        updated(pre, post, width, height, opts, dt_ms),
        pre.body@.len() >= 1,
        height >= 1,
        tail_row_after(pre, dt_ms) >= height,
    ensures
        post.fy == 0,
        post.body@.len() == 1,
{
}

} // verus!
