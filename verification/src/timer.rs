use vstd::prelude::*;

verus! {

/// How long a client waits between periodic marker spawns, in milliseconds.
pub const RESPAWN_DELAY_MILLIS: u64 = 5000;

/// Resource driving the client's periodic marker spawn, counting down in
/// milliseconds. It starts elapsed, so the first frame spawns at once.
#[derive(Clone, Copy, PartialEq, Eq, Structural, Debug)]
pub struct Timmy {
    pub time_left: u64,
}

impl Default for Timmy {
    fn default() -> (r: Self)
        ensures
            r.time_left == 0,
    {
        Timmy { time_left: 0 }
    }
}

impl Timmy {
    /// Advances the countdown by one frame.
    ///
    /// Returns true exactly when the delay has elapsed; the countdown then
    /// restarts from the full delay, otherwise it keeps the remainder.
    pub fn tick(&mut self, elapsed_millis: u64) -> (spawn: bool)
        ensures
            spawn == (old(self).time_left <= elapsed_millis),
            spawn ==> final(self).time_left == RESPAWN_DELAY_MILLIS,
            !spawn ==> final(self).time_left == old(self).time_left - elapsed_millis,
    {
        if self.time_left <= elapsed_millis {
            self.time_left = RESPAWN_DELAY_MILLIS;
            true
        } else {
            self.time_left = self.time_left - elapsed_millis;
            false
        }
    }
}

} // verus!
