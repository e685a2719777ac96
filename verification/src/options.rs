use vstd::prelude::*;

verus! {

/// Speed configuration for the rain simulation: every drop samples its fall
/// rate (rows per second) from the inclusive range `[min_speed, max_speed]`.
pub struct DigitalRainOptions {
    pub min_speed: u16,
    pub max_speed: u16,
}

impl DigitalRainOptions {
    /// A usable configuration has positive bounds in the right order.
    pub open spec fn wf(self) -> bool {
        0 < self.min_speed <= self.max_speed
    }

    pub fn new(min_speed: u16, max_speed: u16) -> (r: DigitalRainOptions)
        requires
            0 < min_speed <= max_speed,
        ensures
            r.min_speed == min_speed,
            r.max_speed == max_speed,
            r.wf(),
    {
        DigitalRainOptions { min_speed, max_speed }
    }

    pub fn get_min_speed(&self) -> (r: u16)
        ensures
            r == self.min_speed,
    {
        self.min_speed
    }

    pub fn get_max_speed(&self) -> (r: u16)
        ensures
            r == self.max_speed,
    {
        self.max_speed
    }
}

} // verus!
