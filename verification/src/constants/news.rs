//! News bulletin message types.
use vstd::prelude::*;

verus! {

/// A regular news bulletin.
pub const NEWS_MSG: i32 = 1;

/// An exchange is available for trading again.
pub const EXCHANGE_AVAIL_MSG: i32 = 2;

/// An exchange is no longer available for trading.
pub const EXCHANGE_UNAVAIL_MSG: i32 = 3;

} // verus!
