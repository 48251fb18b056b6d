//! The spiral tile cursor: a stateful, non-restartable generator of grid
//! coordinates in expanding square rings around a starting cell, used to
//! enumerate nearby tiles in draw order.
//!
//! Coordinates live in the non-negative quadrant: a step that would leave it
//! ends the sequence for good, as does reaching the (unreachably large)
//! machine limit on ring size.

use vstd::prelude::*;

verus! {

/// Largest coordinate and ring size the cursor supports.
pub const SPIRAL_LIMIT: i64 = 1_000_000_000;

/// The same limit for the ring counter, which is a `usize`.
pub const LAYER_LIMIT: usize = 1_000_000_000;

/// The square-spiral cursor.
pub struct SpiralIterator {
    /// Current movement direction: one of the four cardinal unit steps.
    pub direction: (i64, i64),
    /// Steps remaining before the next turn.
    pub steps_remaining: usize,
    /// Current ring: the run length used when a run is refilled.
    pub layer: usize,
    /// Current grid position.
    pub position: (i64, i64),
    /// Turns taken since the start; every second turn grows the ring.
    pub steps_in_layer: usize,
}

/// Directions cycle right → down → left → up → right.
pub open spec fn rotate_dir(d: (i64, i64)) -> (i64, i64) {
    if d == (1i64, 0i64) {
        (0i64, 1i64)
    } else if d == (0i64, 1i64) {
        (-1i64, 0i64)
    } else if d == (-1i64, 0i64) {
        (0i64, -1i64)
    } else {
        (1i64, 0i64)
    }
}

/// A coordinate pair lies in the supported quadrant.
pub open spec fn in_grid(x: int, y: int) -> bool {
    0 <= x <= SPIRAL_LIMIT && 0 <= y <= SPIRAL_LIMIT
}

/// The turn phase of one step: when the current run is exhausted, the
/// direction rotates, every second rotation grows the ring by one, and the
/// run is refilled to the ring size. Otherwise nothing changes.
pub open spec fn spiral_pre_step(s: SpiralIterator) -> SpiralIterator {
    if s.steps_remaining == 0 {
        let turns = (s.steps_in_layer + 1) as usize;
        let grown = if (s.steps_in_layer + 1) % 2 == 0 {
            (s.layer + 1) as usize
        } else {
            s.layer
        };
        SpiralIterator {
            direction: rotate_dir(s.direction),
            steps_in_layer: turns,
            layer: grown,
            steps_remaining: grown,
            position: s.position,
        }
    } else {
        s
    }
}

/// One full step of the cursor, as a function on states: the new state and
/// the yielded cell, `None` when the sequence has ended.
pub open spec fn spiral_next(s: SpiralIterator) -> (SpiralIterator, Option<(usize, usize)>) {
    if s.steps_remaining == 0 && s.layer >= LAYER_LIMIT {
        (s, None)
    } else {
        let pre = spiral_pre_step(s);
        let cx = pre.position.0 + pre.direction.0;
        let cy = pre.position.1 + pre.direction.1;
        if in_grid(cx, cy) {
            (
                SpiralIterator {
                    position: (cx as i64, cy as i64),
                    steps_remaining: (pre.steps_remaining - 1) as usize,
                    ..pre
                },
                Some(((cx as usize), (cy as usize))),
            )
        } else {
            (pre, None)
        }
    }
}

/// The cursor a fresh spiral starts from.
pub open spec fn spiral_start(cx: usize, cy: usize) -> SpiralIterator {
    SpiralIterator {
        direction: (1i64, 0i64),
        steps_remaining: 1,
        layer: 1,
        position: (cx as i64, cy as i64),
        steps_in_layer: 0,
    }
}

/// Up to `n` further cells of the spiral from state `s`, appended to `acc`;
/// collection stops early when the sequence ends.
pub open spec fn spiral_take(s: SpiralIterator, n: nat, acc: Seq<(usize, usize)>) -> Seq<
    (usize, usize),
>
    decreases n,
{
    if n == 0 {
        acc
    } else {
        let (s1, r) = spiral_next(s);
        match r {
            None => acc,
            Some(p) => spiral_take(s1, (n - 1) as nat, acc.push(p)),
        }
    }
}

impl SpiralIterator {
    /// The cursor state the algorithm maintains: a cardinal direction, a
    /// position in the quadrant, a run no longer than the ring, and a ring
    /// within the machine limit that has seen at most two turns per growth.
    pub open spec fn wf(self) -> bool {
        &&& (self.direction == (1i64, 0i64) || self.direction == (0i64, 1i64) || self.direction
            == (-1i64, 0i64) || self.direction == (0i64, -1i64))
        &&& in_grid(self.position.0 as int, self.position.1 as int)
        &&& self.steps_remaining <= self.layer
        &&& 1 <= self.layer <= LAYER_LIMIT
        &&& self.layer == 1 + (self.steps_in_layer as int) / 2
    }

    /// A cursor that starts at the given cell, about to move right one step,
    /// in the first ring.
    pub fn new(start: (usize, usize)) -> (r: SpiralIterator)
        requires
            start.0 <= SPIRAL_LIMIT as usize,
            start.1 <= SPIRAL_LIMIT as usize,
        ensures
            r == spiral_start(start.0, start.1),
            r.wf(),
    {
        SpiralIterator {
            direction: (1, 0),
            steps_remaining: 1,
            layer: 1,
            position: (start.0 as i64, start.1 as i64),
            steps_in_layer: 0,
        }
    }

    /// Yields the next cell of the spiral: after the turn phase, the cursor
    /// advances one step and reports the new cell. A step that would leave
    /// the quadrant (or a ring at the machine limit) ends the sequence: the
    /// cursor stops advancing and every later call returns `None` as well.
    pub fn next(&mut self) -> (r: Option<(usize, usize)>)
        requires
            old(self).wf(),
        ensures
            final (self).wf(),
            (*final (self), r) == spiral_next(*old(self)),
    {
        if self.steps_remaining == 0 {
            if self.layer >= LAYER_LIMIT {
                return None;
            }
            self.rotate_direction();
            self.steps_in_layer = self.steps_in_layer + 1;
            if self.steps_in_layer % 2 == 0 {
                self.layer = self.layer + 1;
            }
            self.steps_remaining = self.layer;
        }
        let cx = self.position.0 + self.direction.0;
        let cy = self.position.1 + self.direction.1;
        if 0 <= cx && cx <= SPIRAL_LIMIT && 0 <= cy && cy <= SPIRAL_LIMIT {
            self.position = (cx, cy);
            self.steps_remaining = self.steps_remaining - 1;
            Some((cx as usize, cy as usize))
        } else {
            None
        }
    }

    /// Turns the cursor: right → down → left → up → right.
    fn rotate_direction(&mut self)
        ensures
            final (self).direction == rotate_dir(old(self).direction),
            *final (self) == (SpiralIterator { direction: final (self).direction, ..*old(self) }),
    {
        self.direction = if self.direction.0 == 1 && self.direction.1 == 0 {
            (0, 1)
        } else if self.direction.0 == 0 && self.direction.1 == 1 {
            (-1, 0)
        } else if self.direction.0 == -1 && self.direction.1 == 0 {
            (0, -1)
        } else {
            (1, 0)
        };
    }
}

} // verus!
