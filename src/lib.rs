//! The Generic Cell Rate Algorithm: a rate limit of so many resources per period,
//! enforced by keeping one theoretical arrival time per limited entity.
use vstd::prelude::*;

pub mod laws;
pub mod quota;
pub mod state;
pub mod time;

pub use quota::Quota;
pub use state::{Error, State};
pub use time::{Duration, Instant};

verus! {

} // verus!
