//! A single-player farming economy: a cash balance, purchased fields, crops that
//! take time to grow, and harvests that pay out according to a field's level.
//!
//! Every amount of money is an exact fixed-point number (see [`money`]), so the
//! price and payout formulas are stated and proved without rounding.
pub mod farm;
pub mod money;
pub mod theorems;
pub mod util;
