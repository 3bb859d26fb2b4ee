//! Decisions on an open position: its side, and whether its stop loss or take
//! profit has been reached. Prices are floating-point values that stay with the
//! caller; the caller compares the current price with a level and hands the
//! outcome over.

use vstd::prelude::*;
use crate::text::str_eq;

verus! {

/// How the current price stands against a price level (stop loss or take
/// profit), as the caller found by comparing the two values.
#[derive(Debug, Clone, Copy, PartialEq, Eq, Structural)]
pub struct LevelCheck {
    /// The current price is at or below the level.
    pub price_at_or_below: bool,
    /// The current price is at or above the level.
    pub price_at_or_above: bool,
}

/// A position side reads long only when it is exactly `LONG`.
pub open spec fn long_side(side: Seq<char>) -> bool {
    side == "LONG"@
}

/// Whether a position with this side is long.
pub fn is_long(side: &str) -> (r: bool)
    ensures
        r == long_side(side@),
{
    str_eq(side, "LONG")
}

/// Whether a position with this side is short (exactly `SHORT`).
pub fn is_short(side: &str) -> (r: bool)
    ensures
        r == (side@ == "SHORT"@),
{
    str_eq(side, "SHORT")
}

/// A stop loss is reached when the price has fallen to it on a long position,
/// or risen to it on any other; a position without one never reaches it.
pub open spec fn stop_loss_reached(side: Seq<char>, stop_loss: Option<LevelCheck>) -> bool {
    match stop_loss {
        None => false,
        Some(c) => if long_side(side) {
            c.price_at_or_below
        } else {
            c.price_at_or_above
        },
    }
}

/// A take profit is reached when the price has risen to it on a long position,
/// or fallen to it on any other; a position without one never reaches it.
pub open spec fn take_profit_reached(side: Seq<char>, take_profit: Option<LevelCheck>) -> bool {
    match take_profit {
        None => false,
        Some(c) => if long_side(side) {
            c.price_at_or_above
        } else {
            c.price_at_or_below
        },
    }
}

/// Whether the stop loss of a position with `side` has been hit.
pub fn is_stop_loss_hit(side: &str, stop_loss: Option<LevelCheck>) -> (r: bool)
    ensures
        r == stop_loss_reached(side@, stop_loss),
{
    match stop_loss {
        None => false,
        Some(c) => if is_long(side) {
            c.price_at_or_below
        } else {
            c.price_at_or_above
        },
    }
}

/// Whether the take profit of a position with `side` has been hit.
pub fn is_take_profit_hit(side: &str, take_profit: Option<LevelCheck>) -> (r: bool)
    ensures
        r == take_profit_reached(side@, take_profit),
{
    match take_profit {
        None => false,
        Some(c) => if is_long(side) {
            c.price_at_or_above
        } else {
            c.price_at_or_below
        },
    }
}

/// A level that the price sits exactly on is both reached as a stop loss and
/// as a take profit, whatever the side; a level the price lies strictly beyond
/// is reached as exactly one of the two.
pub proof fn lemma_level_reached_once(side: Seq<char>, level: LevelCheck)
    requires
        level.price_at_or_below || level.price_at_or_above,
    ensures
        (level.price_at_or_below && level.price_at_or_above) ==> (stop_loss_reached(
            side,
            Some(level),
        ) && take_profit_reached(side, Some(level))),
        (level.price_at_or_below != level.price_at_or_above) ==> (stop_loss_reached(
            side,
            Some(level),
        ) != take_profit_reached(side, Some(level))),
{
}

} // verus!
