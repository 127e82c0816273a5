//! Purchase pricing for an incremental-game "multiplier item".
//!
//! The library prices a batch purchase of a multiplier item and finds the
//! largest batch a budget can buy.  The cost of a batch is a scaled,
//! floored sum of a per-level price curve over the inclusive level range
//! covered by the purchase; the curve itself (a fractional power of the
//! level) is real-valued and is supplied by the caller as a closure, while
//! everything that can be stated over the integers - the level range, the
//! empty-purchase case, the gain, and the whole affordability search - is
//! verified here.

pub mod cost;
pub mod search;
