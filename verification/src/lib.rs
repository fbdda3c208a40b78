//! Prayer-time schedules: the six daily prayers, the times of one day, the
//! next prayer after a given moment and the countdown to it.

pub mod clock;
pub mod error;
pub mod number;
pub mod parsed;
pub mod period;
pub mod prayer;
pub mod responses;
pub mod source;
pub mod text;
pub mod time;
