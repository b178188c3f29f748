//! Procedural platform generation: the position and size of the next landing
//! platform are drawn from bounded ranges whose joint constraints keep every
//! generated platform reachable from the previous one at maximum jump power.

use vstd::prelude::*;

verus! {

/// Largest left coordinate a platform may take; the generator saturates here
/// so that coordinate arithmetic never overflows over an endless run.
pub const COORD_CAP: i64 = 1_000_000_000_000;

/// Smallest platform width the generator draws.
pub const WIDTH_MIN: i64 = 2;

/// Largest platform width the generator draws.
pub const WIDTH_MAX: i64 = 4;

/// Smallest edge-to-edge gap the generator draws at score zero.
pub const GAP_MIN: i64 = 2;

/// Largest edge-to-edge gap the generator ever draws; kept at most the
/// maximum jump distance so every platform stays reachable.
pub const GAP_MAX: i64 = 5;

/// Landings per difficulty step: every this many score points the lower end
/// of the gap range rises by one unit.
pub const DIFFICULTY_STEP: u64 = 10;

/// Cap on the difficulty bump, so the gap range narrows toward
/// `[GAP_MAX, GAP_MAX]` and never passes it.
pub const DIFFICULTY_CAP: u64 = 3;

/// Most platforms kept live at once: older ones are pruned as the player
/// progresses, bounding memory over an endless run.
pub const PLATFORM_WINDOW: usize = 5;

/// Left coordinate of the first platform of a run.
pub const FIRST_LEFT: i64 = 0;

/// Width of the first platform of a run.
pub const FIRST_WIDTH: i64 = 4;

/// A landing platform: a horizontal span `[left, left + width]` and the order
/// index of the player's progress. Platforms all sit at ground height zero.
#[derive(Clone, Copy, PartialEq, Eq, Structural, Debug)]
pub struct Platform {
    pub left: i64,
    pub width: i64,
    pub index: u32,
}

impl Platform {
    /// Well-formed: coordinates in range and width within the drawn bounds.
    pub open spec fn wf(self) -> bool {
        &&& 0 <= self.left <= COORD_CAP
        &&& WIDTH_MIN <= self.width <= WIDTH_MAX
    }

    /// The right edge of the platform's span.
    pub open spec fn right(self) -> int {
        self.left + self.width
    }

    /// Whether a horizontal position lies within the platform's span,
    /// both edges included.
    pub open spec fn spec_contains(self, x: int) -> bool {
        self.left <= x <= self.right()
    }

    /// Landing-check test: is `x` within this platform's span?
    pub fn contains(&self, x: i64) -> (b: bool)
        requires
            self.wf(),
        ensures
            b == self.spec_contains(x as int),
    {
        self.left <= x && x <= self.left + self.width
    }
}

/// The first platform of every run.
pub open spec fn first_platform_spec() -> Platform {
    Platform { left: FIRST_LEFT, width: FIRST_WIDTH, index: 0 }
}

/// Build the first platform of a run.
pub fn first_platform() -> (p: Platform)
    ensures
        p == first_platform_spec(),
        p.wf(),
{
    Platform { left: FIRST_LEFT, width: FIRST_WIDTH, index: 0 }
}

/// Lower end of the gap range at a given score: rises by one unit every
/// `DIFFICULTY_STEP` points, capped so it never passes `GAP_MAX`.
pub open spec fn gap_lower(score: u64) -> int {
    if score / DIFFICULTY_STEP < DIFFICULTY_CAP {
        GAP_MIN + (score / DIFFICULTY_STEP) as int
    } else {
        GAP_MIN + DIFFICULTY_CAP as int
    }
}

/// The platform that follows `prev` at the given score, for raw random draws
/// `r1` (gap) and `r2` (width). The gap is drawn from
/// `[gap_lower(score), GAP_MAX]` and the width from `[WIDTH_MIN, WIDTH_MAX]`.
/// The left coordinate saturates at `COORD_CAP`; a saturated platform takes
/// the full width `WIDTH_MAX`, so that its span still covers a landing from
/// the previous platform's edge and reachability holds with no exception.
pub open spec fn next_platform_spec(prev: Platform, score: u64, r1: u64, r2: u64) -> Platform {
    let lo = gap_lower(score);
    let span = GAP_MAX - lo + 1;
    let gap = lo + r1 as int % span;
    let drawn = WIDTH_MIN + r2 as int % (WIDTH_MAX - WIDTH_MIN + 1);
    let left_raw = prev.left + prev.width + gap;
    let left = if left_raw <= COORD_CAP {
        left_raw
    } else {
        COORD_CAP as int
    };
    let w = if left_raw <= COORD_CAP {
        drawn
    } else {
        WIDTH_MAX as int
    };
    let idx = if prev.index < u32::MAX {
        prev.index + 1
    } else {
        prev.index as int
    };
    Platform { left: left as i64, width: w as i64, index: idx as u32 }
}

/// Draw the next platform from the previous one and the current score.
/// The raw random words `r1` and `r2` come from the caller; the generator
/// folds them into the bounded ranges itself, so the difficulty curve and the
/// reachability constraint hold for every value of them.
pub fn next_platform(prev: &Platform, score: u64, r1: u64, r2: u64) -> (p: Platform)
    requires
        prev.wf(),
    ensures
        p == next_platform_spec(*prev, score, r1, r2),
        p.wf(),
        p.left >= prev.left,
{
    let steps: u64 = score / DIFFICULTY_STEP;
    let bump: u64 = if steps < DIFFICULTY_CAP {
        steps
    } else {
        DIFFICULTY_CAP
    };
    let lo: i64 = GAP_MIN + bump as i64;
    let span: u64 = (GAP_MAX - lo + 1) as u64;
    let gap: i64 = lo + (r1 % span) as i64;
    let drawn: i64 = WIDTH_MIN + (r2 % 3) as i64;
    let left_raw: i64 = prev.left + prev.width + gap;
    let left: i64 = if left_raw <= COORD_CAP {
        left_raw
    } else {
        COORD_CAP
    };
    let w: i64 = if left_raw <= COORD_CAP {
        drawn
    } else {
        WIDTH_MAX
    };
    let idx: u32 = if prev.index < u32::MAX {
        prev.index + 1
    } else {
        prev.index
    };
    Platform { left, width: w, index: idx }
}

/// The generator's output is well-formed whenever its input is.
pub proof fn lemma_next_platform_wf(prev: Platform, score: u64, r1: u64, r2: u64)
    requires
        prev.wf(),
    ensures
        next_platform_spec(prev, score, r1, r2).wf(),
        next_platform_spec(prev, score, r1, r2).left >= prev.left,
{
}

} // verus!
