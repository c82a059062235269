//! Recording lap times for a car race and totalling them at the finish.

use vstd::prelude::*;
use vstd::string::StringExecFns;

verus! {

/// The sum of a sequence of lap times.
pub open spec fn lap_total(laps: Seq<i32>) -> int
    decreases laps.len(),
{
    if laps.len() == 0 {
        0
    } else {
        lap_total(laps.drop_last()) + laps.last()
    }
}

/// A race with a name and the lap times recorded so far.
#[derive(Debug)]
pub struct CarRace {
    pub name: String,
    pub laps: Vec<i32>,
}

impl CarRace {
    /// Start a race with no laps recorded.
    pub fn new(name: &str) -> (race: CarRace)
        ensures
            race.name@ == name@,
            race.laps@ == Seq::<i32>::empty(),
    {
        CarRace { name: String::from_str(name), laps: Vec::new() }
    }

    /// Record one more lap time.
    pub fn add_lap(&mut self, lap: i32)
        ensures
            final(self).laps@ == old(self).laps@.push(lap),
            final(self).name == old(self).name,
    {
        self.laps.push(lap);
    }

    /// Total the recorded lap times.  Summing goes left to right, so every
    /// partial total along the way must stay within `i32`.
    pub fn finish(self) -> (total: i32)
        requires
            forall|k: int|
                0 <= k <= self.laps@.len() ==> i32::MIN <= #[trigger] lap_total(
                    self.laps@.take(k),
                ) <= i32::MAX,
        ensures
            total == lap_total(self.laps@),
    {
        let mut total: i32 = 0;
        let laps = self.laps;
        for idx in 0..laps.len()
            invariant
                total == lap_total(laps@.take(idx as int)),
                forall|k: int|
                    0 <= k <= laps@.len() ==> i32::MIN <= #[trigger] lap_total(laps@.take(k))
                        <= i32::MAX,
        {
            proof {
                assert(laps@.take(idx + 1).drop_last() =~= laps@.take(idx as int));
                assert(laps@.take(idx + 1).last() == laps@[idx as int]);
                assert(lap_total(laps@.take(idx + 1)) == lap_total(laps@.take(idx as int))
                    + laps@[idx as int]);
            }
            total = total + laps[idx];
        }
        proof {
            assert(laps@.take(laps@.len() as int) =~= laps@);
        }
        total
    }
}

} // verus!
