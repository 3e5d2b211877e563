//! In-place addition and the workout planner.
use vstd::prelude::*;

verus! {

/// Adds `y` to the integer behind the reference.
pub fn add_to_x1(x: &mut i32, y: i32)
    requires
        i32::MIN <= *old(x) + y <= i32::MAX,
    ensures
        *final(x) == *old(x) + y,
{
    *x += y;
}

/// A day's workout.
#[derive(Debug, PartialEq, Eq, Structural)]
pub enum Workout {
    Strength { pushups: i32, situps: i32 },
    Rest,
    Run { minutes: i32 },
}

/// Plans the day's workout: light days get strength work scaled by intensity,
/// and on other days a lucky number grants rest, otherwise a run.
pub fn generate_workout(intensity: i32, random_number: i32) -> (w: Workout)
    ensures
        intensity < 25 ==> w == (Workout::Strength { pushups: intensity, situps: intensity }),
        intensity >= 25 && random_number == 3 ==> w == Workout::Rest,
        intensity >= 25 && random_number != 3 ==> w == (Workout::Run { minutes: intensity }),
{
    if intensity < 25 {
        Workout::Strength { pushups: intensity, situps: intensity }
    } else {
        if random_number == 3 {
            Workout::Rest
        } else {
            Workout::Run { minutes: intensity }
        }
    }
}

} // verus!
