//! A backlash (deadband / hysteresis) filter: the reported output moves only
//! once the input leaves a dead zone around the last output.

mod backlash;
mod sample;

pub use backlash::{Backlash, BacklashView};
pub use sample::{fits, trunc_half, Sample};
