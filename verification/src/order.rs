//! Order-side catalog enums: the closed token sets that order schemas use.
//!
//! The full order record itself is part of the broker's ever-growing message
//! catalog and is not decoded by this client; these value types stand here
//! for callers that build or inspect order data.

use vstd::prelude::*;

verus! {

/// An order's type; each variant travels as its listed wire text.
#[allow(non_camel_case_types)]
#[derive(Clone, Copy, Debug, Default, PartialEq, Eq, Structural)]
pub enum OrderType {
    /// The empty token.
    #[default]
    Unset,
    MKT,
    LMT,
    STP,
    /// `STP LMT` on the wire.
    STP_LMT,
    REL,
    TRAIL,
    /// `BOX TOP` on the wire.
    BOX_TOP,
    /// `FIX PEGGED` on the wire.
    FIX_PEGGED,
    LIT,
    /// `LMT + MKT` on the wire.
    LMT_PLUS_MKT,
    LOC,
    MIT,
    /// `MKT PRT` on the wire.
    MKT_PRT,
    MOC,
    MTL,
    /// `PASSV REL` on the wire.
    PASSV_REL,
    /// `PEG MID` on the wire.
    PEG_MID,
    /// `PEG MKT` on the wire.
    PEG_MKT,
    /// `PEG PRIM` on the wire.
    PEG_PRIM,
    /// `PEG STK` on the wire.
    PEG_STK,
    /// `REL + LMT` on the wire.
    REL_PLUS_LMT,
    /// `REL + MKT` on the wire.
    REL_PLUS_MKT,
    /// `SNAP MID` on the wire.
    SNAP_MID,
    /// `SNAP MKT` on the wire.
    SNAP_MKT,
    /// `SNAP PRIM` on the wire.
    SNAP_PRIM,
    /// `STP PRT` on the wire.
    STP_PRT,
    /// `TRAIL LIMIT` on the wire.
    TRAIL_LIMIT,
    /// `TRAIL LIT` on the wire.
    TRAIL_LIT,
    /// `TRAIL LMT + MKT` on the wire.
    TRAIL_LMT_PLUS_MKT,
    /// `TRAIL MIT` on the wire.
    TRAIL_MIT,
    /// `TRAIL REL + MKT` on the wire.
    TRAIL_REL_PLUS_MKT,
    VOL,
    VWAP,
    QUOTE,
    /// `PPV` on the wire.
    PEG_PRIM_VOL,
    /// `PDV` on the wire.
    PEG_MID_VOL,
    /// `PMV` on the wire.
    PEG_MKT_VOL,
    /// `PSV` on the wire.
    PEG_SRF_VOL,
}

#[allow(non_camel_case_types)]
#[derive(Clone, Copy, Debug, Default, PartialEq, Eq, Structural)]
pub enum ClearingIntent {
    /// The empty token.
    #[default]
    Default,
    IB,
    Away,
    PTA,
}

/// Wire tokens `0` and `1`.
#[derive(Clone, Copy, Debug, Default, PartialEq, Eq, Structural)]
pub enum Origin {
    #[default]
    Customer,
    Firm,
}

/// Wire tokens `0` through `3`.
#[derive(Clone, Copy, Debug, Default, PartialEq, Eq, Structural)]
pub enum AuctionStrategy {
    #[default]
    AuctionUnset,
    AuctionMatch,
    AuctionImprovement,
    AuctionTransparent,
}

/// Institutional orders only; wire tokens: empty (or `?`) for none, `O`
/// open, `C` close.
#[derive(Clone, Copy, Debug, Default, PartialEq, Eq, Structural)]
pub enum OpenClose {
    #[default]
    Unset,
    Open,
    Close,
}

/// How two order conditions combine; wire tokens `a` and `o`.
#[derive(Clone, Copy, Debug, Default, PartialEq, Eq, Structural)]
pub enum AndOr {
    #[default]
    And,
    Or,
}

/// One condition attached to an order; the leading wire token names the
/// variant (`1` price, `3` time, `4` margin, `5` execution, `6` volume,
/// `7` percent change).
#[derive(Clone, Debug, PartialEq, Eq)]
pub enum OrderCondition {
    Price { and_or: AndOr, trigger_method: crate::types::TriggerMethod },
    Time { and_or: AndOr },
    Margin { and_or: AndOr },
    Execution { and_or: AndOr, sec_type: String, exchange: String, symbol: String },
    Volume { and_or: AndOr },
    PercentChange { and_or: AndOr },
}

impl Default for OrderCondition {
    /// A price condition with both parts at their defaults.
    fn default() -> (r: OrderCondition)
        ensures
            r matches OrderCondition::Price { and_or, trigger_method } && and_or == AndOr::And
                && trigger_method == crate::types::TriggerMethod::Default,
    {
        OrderCondition::Price {
            and_or: AndOr::And,
            trigger_method: crate::types::TriggerMethod::Default,
        }
    }
}

} // verus!
