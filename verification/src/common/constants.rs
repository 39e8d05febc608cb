use vstd::prelude::*;

verus! {

/// Seconds after which an active game may be drawn (30 minutes).
pub const GAME_TIMEOUT_SECONDS: i64 = 1800;

/// Stake of each participant, in whole units of the stake asset.
pub const ENTRY_AMOUNT_USDC: u64 = 1000;

/// Decimal places of the stake asset: one whole unit is `10^6` base units.
pub const USDC_DECIMALS: u32 = 6;

/// Base units in one whole unit of the stake asset, `10^USDC_DECIMALS`.
pub const USDC_BASE_UNITS: u64 = 1_000_000;

/// A join is refused once the price has moved by this many percent.
pub const MAX_JOIN_PRICE_MOVEMENT_PERCENT: i128 = 1;

/// A game can be settled once the price has moved by this many percent.
pub const WIN_PRICE_THRESHOLD_PERCENT: i128 = 5;

} // verus!
