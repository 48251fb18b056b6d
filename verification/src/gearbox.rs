//! A discrete gearbox: an ordered ladder of gear ratios and a current-gear
//! cursor, with bounds-checked shifting.
//!
//! Ratios are carried in milli-units (a ratio of 8.0 is stored as `8000`);
//! they multiply the engine torque in the vehicle dynamics.

use vstd::prelude::*;

verus! {

/// Largest milli-ratio a gear may carry.
pub const RATIO_MAX: i64 = 100_000;

/// One gear: a torque multiplier in milli-units.
#[derive(Clone, Copy, Debug, PartialEq, Eq, Structural)]
pub struct Gear {
    pub ratio: i64,
}

impl Gear {
    fn new(ratio: i64) -> (r: Gear)
        ensures
            r.ratio == ratio,
    {
        Gear { ratio }
    }
}

/// A rejected gear shift: the target index does not name a gear.
#[derive(Clone, Copy, Debug, PartialEq, Eq, Structural)]
pub enum GearError {
    InvalidGear,
}

/// The gear ladder and the cursor into it.
pub struct Gearbox {
    gears: Vec<Gear>,
    current_gear: usize,
}

impl Gearbox {
    /// The ladder's milli-ratios, in order.
    pub closed spec fn ratios(&self) -> Seq<i64> {
        self.gears@.map_values(|g: Gear| g.ratio)
    }

    /// The current-gear index.
    pub closed spec fn cur(&self) -> int {
        self.current_gear as int
    }

    /// The cursor always names a gear, and every ratio is a bounded
    /// non-negative milli-value.
    pub open spec fn wf(&self) -> bool {
        &&& 0 <= self.cur() < self.ratios().len()
        &&& forall|i: int| 0 <= i < self.ratios().len() ==> 0 <= #[trigger] self.ratios()[i] <= RATIO_MAX
    }

    /// The active gear's milli-ratio.
    pub open spec fn current_ratio_spec(&self) -> i64 {
        self.ratios()[self.cur()]
    }

    /// Milli-ratio of the active gear, the direct multiplier on engine torque.
    pub fn gear_ratio(&self) -> (r: i64)
        requires
            self.wf(),
        ensures
            r == self.current_ratio_spec(),
    {
        self.current_gear().ratio
    }

    /// The active gear.
    pub fn current_gear(&self) -> (r: &Gear)
        requires
            self.wf(),
        ensures
            r.ratio == self.current_ratio_spec(),
    {
        &self.gears[self.current_gear]
    }

    /// The current-gear index.
    pub fn current_gear_num(&self) -> (r: usize)
        ensures
            r == self.cur(),
    {
        self.current_gear
    }

    /// Shifts to the given gear. Fails, leaving the gearbox unchanged, if and
    /// only if the index names no gear.
    pub fn shift_to(&mut self, gear: usize) -> (r: Result<(), GearError>)
        ensures
            r.is_ok() == (gear < old(self).ratios().len()),
            r.is_ok() ==> final (self).cur() == gear && final (self).ratios() == old(self).ratios(),
            r.is_err() ==> *final (self) == *old(self),
    {
        if gear >= self.gears.len() {
            return Err(GearError::InvalidGear);
        }
        self.current_gear = gear;
        Ok(())
    }

    /// Shifts one gear up; fails at the top of the ladder, leaving the
    /// gearbox unchanged.
    pub fn shift_up(&mut self) -> (r: Result<(), GearError>)
        requires
            old(self).wf(),
        ensures
            r.is_ok() == (old(self).cur() + 1 < old(self).ratios().len()),
            r.is_ok() ==> final (self).cur() == old(self).cur() + 1 && final (self).ratios() == old(
                self,
            ).ratios(),
            r.is_err() ==> *final (self) == *old(self),
    {
        let n = self.gears.len();
        proof {
            assert(self.cur() < n);
        }
        let next = self.current_gear + 1;
        self.shift_to(next)
    }

    /// Shifts one gear down; fails at gear 0 (no wraparound), leaving the
    /// gearbox unchanged.
    pub fn shift_down(&mut self) -> (r: Result<(), GearError>)
        requires
            old(self).wf(),
        ensures
            r.is_ok() == (old(self).cur() > 0),
            r.is_ok() ==> final (self).cur() == old(self).cur() - 1 && final (self).ratios() == old(
                self,
            ).ratios(),
            r.is_err() ==> *final (self) == *old(self),
    {
        if self.current_gear == 0 {
            return Err(GearError::InvalidGear);
        }
        let prev = self.current_gear - 1;
        self.shift_to(prev)
    }

    /// The standard six-gear ladder, starting in first gear.
    pub fn six_step() -> (r: Gearbox)
        ensures
            r.ratios() == seq![8000i64, 2000i64, 1400i64, 1000i64, 800i64, 600i64],
            r.cur() == 0,
            r.wf(),
    {
        let gears = vec![
            Gear::new(8000),
            Gear::new(2000),
            Gear::new(1400),
            Gear::new(1000),
            Gear::new(800),
            Gear::new(600),
        ];
        let r = Gearbox { gears, current_gear: 0 };
        proof {
            assert(r.ratios() =~= seq![8000i64, 2000i64, 1400i64, 1000i64, 800i64, 600i64]);
        }
        r
    }
}

} // verus!
