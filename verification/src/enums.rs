//! Semantic enums for values that are represented as integers or strings on the wire.
use vstd::prelude::*;

use crate::comm::str_eq;

verus! {

/// IB market-data tick type.
#[derive(Debug, Clone, Copy, PartialEq, Eq, Hash, Structural)]
pub enum TickType {
    /// `BID_SIZE` on the wire as 0.
    BidSize,
    /// `BID` on the wire as 1.
    Bid,
    /// `ASK` on the wire as 2.
    Ask,
    /// `ASK_SIZE` on the wire as 3.
    AskSize,
    /// `LAST` on the wire as 4.
    Last,
    /// `LAST_SIZE` on the wire as 5.
    LastSize,
    /// `HIGH` on the wire as 6.
    High,
    /// `LOW` on the wire as 7.
    Low,
    /// `VOLUME` on the wire as 8.
    Volume,
    /// `CLOSE` on the wire as 9.
    Close,
    /// `BID_OPTION_COMPUTATION` on the wire as 10.
    BidOptionComputation,
    /// `ASK_OPTION_COMPUTATION` on the wire as 11.
    AskOptionComputation,
    /// `LAST_OPTION_COMPUTATION` on the wire as 12.
    LastOptionComputation,
    /// `MODEL_OPTION` on the wire as 13.
    ModelOption,
    /// `OPEN` on the wire as 14.
    Open,
    /// `LOW_13_WEEK` on the wire as 15.
    Low13Week,
    /// `HIGH_13_WEEK` on the wire as 16.
    High13Week,
    /// `LOW_26_WEEK` on the wire as 17.
    Low26Week,
    /// `HIGH_26_WEEK` on the wire as 18.
    High26Week,
    /// `LOW_52_WEEK` on the wire as 19.
    Low52Week,
    /// `HIGH_52_WEEK` on the wire as 20.
    High52Week,
    /// `AVG_VOLUME` on the wire as 21.
    AverageVolume,
    /// `OPEN_INTEREST` on the wire as 22.
    OpenInterest,
    /// `OPTION_HISTORICAL_VOL` on the wire as 23.
    OptionHistoricalVolatility,
    /// `OPTION_IMPLIED_VOL` on the wire as 24.
    OptionImpliedVolatility,
    /// `OPTION_BID_EXCH` on the wire as 25.
    OptionBidExchange,
    /// `OPTION_ASK_EXCH` on the wire as 26.
    OptionAskExchange,
    /// `OPTION_CALL_OPEN_INTEREST` on the wire as 27.
    OptionCallOpenInterest,
    /// `OPTION_PUT_OPEN_INTEREST` on the wire as 28.
    OptionPutOpenInterest,
    /// `OPTION_CALL_VOLUME` on the wire as 29.
    OptionCallVolume,
    /// `OPTION_PUT_VOLUME` on the wire as 30.
    OptionPutVolume,
    /// `INDEX_FUTURE_PREMIUM` on the wire as 31.
    IndexFuturePremium,
    /// `BID_EXCH` on the wire as 32.
    BidExchange,
    /// `ASK_EXCH` on the wire as 33.
    AskExchange,
    /// `AUCTION_VOLUME` on the wire as 34.
    AuctionVolume,
    /// `AUCTION_PRICE` on the wire as 35.
    AuctionPrice,
    /// `AUCTION_IMBALANCE` on the wire as 36.
    AuctionImbalance,
    /// `MARK_PRICE` on the wire as 37.
    MarkPrice,
    /// `BID_EFP_COMPUTATION` on the wire as 38.
    BidEfpComputation,
    /// `ASK_EFP_COMPUTATION` on the wire as 39.
    AskEfpComputation,
    /// `LAST_EFP_COMPUTATION` on the wire as 40.
    LastEfpComputation,
    /// `OPEN_EFP_COMPUTATION` on the wire as 41.
    OpenEfpComputation,
    /// `HIGH_EFP_COMPUTATION` on the wire as 42.
    HighEfpComputation,
    /// `LOW_EFP_COMPUTATION` on the wire as 43.
    LowEfpComputation,
    /// `CLOSE_EFP_COMPUTATION` on the wire as 44.
    CloseEfpComputation,
    /// `LAST_TIMESTAMP` on the wire as 45.
    LastTimestamp,
    /// `SHORTABLE` on the wire as 46.
    Shortable,
    /// `NOT_USED` on the wire as 47.
    NotUsed,
    /// `RT_VOLUME` on the wire as 48.
    RealTimeVolume,
    /// `HALTED` on the wire as 49.
    Halted,
    /// `BID_YIELD` on the wire as 50.
    BidYield,
    /// `ASK_YIELD` on the wire as 51.
    AskYield,
    /// `LAST_YIELD` on the wire as 52.
    LastYield,
    /// `CUST_OPTION_COMPUTATION` on the wire as 53.
    CustomerOptionComputation,
    /// `TRADE_COUNT` on the wire as 54.
    TradeCount,
    /// `TRADE_RATE` on the wire as 55.
    TradeRate,
    /// `VOLUME_RATE` on the wire as 56.
    VolumeRate,
    /// `LAST_RTH_TRADE` on the wire as 57.
    LastRthTrade,
    /// `RT_HISTORICAL_VOL` on the wire as 58.
    RealTimeHistoricalVolatility,
    /// `IB_DIVIDENDS` on the wire as 59.
    IbDividends,
    /// `BOND_FACTOR_MULTIPLIER` on the wire as 60.
    BondFactorMultiplier,
    /// `REGULATORY_IMBALANCE` on the wire as 61.
    RegulatoryImbalance,
    /// `NEWS_TICK` on the wire as 62.
    NewsTick,
    /// `SHORT_TERM_VOLUME_3_MIN` on the wire as 63.
    ShortTermVolume3Min,
    /// `SHORT_TERM_VOLUME_5_MIN` on the wire as 64.
    ShortTermVolume5Min,
    /// `SHORT_TERM_VOLUME_10_MIN` on the wire as 65.
    ShortTermVolume10Min,
    /// `DELAYED_BID` on the wire as 66.
    DelayedBid,
    /// `DELAYED_ASK` on the wire as 67.
    DelayedAsk,
    /// `DELAYED_LAST` on the wire as 68.
    DelayedLast,
    /// `DELAYED_BID_SIZE` on the wire as 69.
    DelayedBidSize,
    /// `DELAYED_ASK_SIZE` on the wire as 70.
    DelayedAskSize,
    /// `DELAYED_LAST_SIZE` on the wire as 71.
    DelayedLastSize,
    /// `DELAYED_HIGH` on the wire as 72.
    DelayedHigh,
    /// `DELAYED_LOW` on the wire as 73.
    DelayedLow,
    /// `DELAYED_VOLUME` on the wire as 74.
    DelayedVolume,
    /// `DELAYED_CLOSE` on the wire as 75.
    DelayedClose,
    /// `DELAYED_OPEN` on the wire as 76.
    DelayedOpen,
    /// `RT_TRD_VOLUME` on the wire as 77.
    RealTimeTradeVolume,
    /// `CREDITMAN_MARK_PRICE` on the wire as 78.
    CreditmanMarkPrice,
    /// `CREDITMAN_SLOW_MARK_PRICE` on the wire as 79.
    CreditmanSlowMarkPrice,
    /// `DELAYED_BID_OPTION` on the wire as 80.
    DelayedBidOption,
    /// `DELAYED_ASK_OPTION` on the wire as 81.
    DelayedAskOption,
    /// `DELAYED_LAST_OPTION` on the wire as 82.
    DelayedLastOption,
    /// `DELAYED_MODEL_OPTION` on the wire as 83.
    DelayedModelOption,
    /// `LAST_EXCH` on the wire as 84.
    LastExchange,
    /// `LAST_REG_TIME` on the wire as 85.
    LastRegulatoryTime,
    /// `FUTURES_OPEN_INTEREST` on the wire as 86.
    FuturesOpenInterest,
    /// `AVG_OPT_VOLUME` on the wire as 87.
    AverageOptionVolume,
    /// `DELAYED_LAST_TIMESTAMP` on the wire as 88.
    DelayedLastTimestamp,
    /// `SHORTABLE_SHARES` on the wire as 89.
    ShortableShares,
    /// `DELAYED_HALTED` on the wire as 90.
    DelayedHalted,
    /// `REUTERS_2_MUTUAL_FUNDS` on the wire as 91.
    Reuters2MutualFunds,
    /// `ETF_NAV_CLOSE` on the wire as 92.
    EtfNavClose,
    /// `ETF_NAV_PRIOR_CLOSE` on the wire as 93.
    EtfNavPriorClose,
    /// `ETF_NAV_BID` on the wire as 94.
    EtfNavBid,
    /// `ETF_NAV_ASK` on the wire as 95.
    EtfNavAsk,
    /// `ETF_NAV_LAST` on the wire as 96.
    EtfNavLast,
    /// `ETF_FROZEN_NAV_LAST` on the wire as 97.
    EtfFrozenNavLast,
    /// `ETF_NAV_HIGH` on the wire as 98.
    EtfNavHigh,
    /// `ETF_NAV_LOW` on the wire as 99.
    EtfNavLow,
    /// `SOCIAL_MARKET_ANALYTICS` on the wire as 100.
    SocialMarketAnalytics,
    /// `ESTIMATED_IPO_MIDPOINT` on the wire as 101.
    EstimatedIpoMidpoint,
    /// `FINAL_IPO_LAST` on the wire as 102.
    FinalIpoLast,
    /// `DELAYED_YIELD_BID` on the wire as 103.
    DelayedYieldBid,
    /// `DELAYED_YIELD_ASK` on the wire as 104.
    DelayedYieldAsk,
    /// `ODD_LOT_BID` on the wire as 105.
    OddLotBid,
    /// `ODD_LOT_ASK` on the wire as 106.
    OddLotAsk,
    /// `ODD_LOT_BID_SIZE` on the wire as 107.
    OddLotBidSize,
    /// `ODD_LOT_ASK_SIZE` on the wire as 108.
    OddLotAskSize,
    /// `ODD_LOT_BID_EXCH` on the wire as 109.
    OddLotBidExchange,
    /// `ODD_LOT_ASK_EXCH` on the wire as 110.
    OddLotAskExchange,
    /// `NOT_SET` on the wire as 111.
    NotSet,
    /// A value this library does not know, kept as it came.
    Unknown(i32),
}

impl TickType {
    /// True for the wire values that name a known variant.
    pub open spec fn is_known(value: i32) -> bool {
        (0 <= value && value <= 111)
    }

    /// The value used by the TWS wire protocol.
    pub open spec fn wire_value(self) -> i32 {
        match self {
            TickType::BidSize => 0,
            TickType::Bid => 1,
            TickType::Ask => 2,
            TickType::AskSize => 3,
            TickType::Last => 4,
            TickType::LastSize => 5,
            TickType::High => 6,
            TickType::Low => 7,
            TickType::Volume => 8,
            TickType::Close => 9,
            TickType::BidOptionComputation => 10,
            TickType::AskOptionComputation => 11,
            TickType::LastOptionComputation => 12,
            TickType::ModelOption => 13,
            TickType::Open => 14,
            TickType::Low13Week => 15,
            TickType::High13Week => 16,
            TickType::Low26Week => 17,
            TickType::High26Week => 18,
            TickType::Low52Week => 19,
            TickType::High52Week => 20,
            TickType::AverageVolume => 21,
            TickType::OpenInterest => 22,
            TickType::OptionHistoricalVolatility => 23,
            TickType::OptionImpliedVolatility => 24,
            TickType::OptionBidExchange => 25,
            TickType::OptionAskExchange => 26,
            TickType::OptionCallOpenInterest => 27,
            TickType::OptionPutOpenInterest => 28,
            TickType::OptionCallVolume => 29,
            TickType::OptionPutVolume => 30,
            TickType::IndexFuturePremium => 31,
            TickType::BidExchange => 32,
            TickType::AskExchange => 33,
            TickType::AuctionVolume => 34,
            TickType::AuctionPrice => 35,
            TickType::AuctionImbalance => 36,
            TickType::MarkPrice => 37,
            TickType::BidEfpComputation => 38,
            TickType::AskEfpComputation => 39,
            TickType::LastEfpComputation => 40,
            TickType::OpenEfpComputation => 41,
            TickType::HighEfpComputation => 42,
            TickType::LowEfpComputation => 43,
            TickType::CloseEfpComputation => 44,
            TickType::LastTimestamp => 45,
            TickType::Shortable => 46,
            TickType::NotUsed => 47,
            TickType::RealTimeVolume => 48,
            TickType::Halted => 49,
            TickType::BidYield => 50,
            TickType::AskYield => 51,
            TickType::LastYield => 52,
            TickType::CustomerOptionComputation => 53,
            TickType::TradeCount => 54,
            TickType::TradeRate => 55,
            TickType::VolumeRate => 56,
            TickType::LastRthTrade => 57,
            TickType::RealTimeHistoricalVolatility => 58,
            TickType::IbDividends => 59,
            TickType::BondFactorMultiplier => 60,
            TickType::RegulatoryImbalance => 61,
            TickType::NewsTick => 62,
            TickType::ShortTermVolume3Min => 63,
            TickType::ShortTermVolume5Min => 64,
            TickType::ShortTermVolume10Min => 65,
            TickType::DelayedBid => 66,
            TickType::DelayedAsk => 67,
            TickType::DelayedLast => 68,
            TickType::DelayedBidSize => 69,
            TickType::DelayedAskSize => 70,
            TickType::DelayedLastSize => 71,
            TickType::DelayedHigh => 72,
            TickType::DelayedLow => 73,
            TickType::DelayedVolume => 74,
            TickType::DelayedClose => 75,
            TickType::DelayedOpen => 76,
            TickType::RealTimeTradeVolume => 77,
            TickType::CreditmanMarkPrice => 78,
            TickType::CreditmanSlowMarkPrice => 79,
            TickType::DelayedBidOption => 80,
            TickType::DelayedAskOption => 81,
            TickType::DelayedLastOption => 82,
            TickType::DelayedModelOption => 83,
            TickType::LastExchange => 84,
            TickType::LastRegulatoryTime => 85,
            TickType::FuturesOpenInterest => 86,
            TickType::AverageOptionVolume => 87,
            TickType::DelayedLastTimestamp => 88,
            TickType::ShortableShares => 89,
            TickType::DelayedHalted => 90,
            TickType::Reuters2MutualFunds => 91,
            TickType::EtfNavClose => 92,
            TickType::EtfNavPriorClose => 93,
            TickType::EtfNavBid => 94,
            TickType::EtfNavAsk => 95,
            TickType::EtfNavLast => 96,
            TickType::EtfFrozenNavLast => 97,
            TickType::EtfNavHigh => 98,
            TickType::EtfNavLow => 99,
            TickType::SocialMarketAnalytics => 100,
            TickType::EstimatedIpoMidpoint => 101,
            TickType::FinalIpoLast => 102,
            TickType::DelayedYieldBid => 103,
            TickType::DelayedYieldAsk => 104,
            TickType::OddLotBid => 105,
            TickType::OddLotAsk => 106,
            TickType::OddLotBidSize => 107,
            TickType::OddLotAskSize => 108,
            TickType::OddLotBidExchange => 109,
            TickType::OddLotAskExchange => 110,
            TickType::NotSet => 111,
            TickType::Unknown(value) => value,
        }
    }

    /// True unless the value is `Unknown` with a value that names a known variant.
    pub open spec fn is_canonical(self) -> bool {
        (self is Unknown) <==> !Self::is_known(self.wire_value())
    }

    /// The official symbolic name, or `UNKNOWN`.
    pub open spec fn label(self) -> Seq<char> {
        match self {
            TickType::BidSize => "BID_SIZE"@,
            TickType::Bid => "BID"@,
            TickType::Ask => "ASK"@,
            TickType::AskSize => "ASK_SIZE"@,
            TickType::Last => "LAST"@,
            TickType::LastSize => "LAST_SIZE"@,
            TickType::High => "HIGH"@,
            TickType::Low => "LOW"@,
            TickType::Volume => "VOLUME"@,
            TickType::Close => "CLOSE"@,
            TickType::BidOptionComputation => "BID_OPTION_COMPUTATION"@,
            TickType::AskOptionComputation => "ASK_OPTION_COMPUTATION"@,
            TickType::LastOptionComputation => "LAST_OPTION_COMPUTATION"@,
            TickType::ModelOption => "MODEL_OPTION"@,
            TickType::Open => "OPEN"@,
            TickType::Low13Week => "LOW_13_WEEK"@,
            TickType::High13Week => "HIGH_13_WEEK"@,
            TickType::Low26Week => "LOW_26_WEEK"@,
            TickType::High26Week => "HIGH_26_WEEK"@,
            TickType::Low52Week => "LOW_52_WEEK"@,
            TickType::High52Week => "HIGH_52_WEEK"@,
            TickType::AverageVolume => "AVG_VOLUME"@,
            TickType::OpenInterest => "OPEN_INTEREST"@,
            TickType::OptionHistoricalVolatility => "OPTION_HISTORICAL_VOL"@,
            TickType::OptionImpliedVolatility => "OPTION_IMPLIED_VOL"@,
            TickType::OptionBidExchange => "OPTION_BID_EXCH"@,
            TickType::OptionAskExchange => "OPTION_ASK_EXCH"@,
            TickType::OptionCallOpenInterest => "OPTION_CALL_OPEN_INTEREST"@,
            TickType::OptionPutOpenInterest => "OPTION_PUT_OPEN_INTEREST"@,
            TickType::OptionCallVolume => "OPTION_CALL_VOLUME"@,
            TickType::OptionPutVolume => "OPTION_PUT_VOLUME"@,
            TickType::IndexFuturePremium => "INDEX_FUTURE_PREMIUM"@,
            TickType::BidExchange => "BID_EXCH"@,
            TickType::AskExchange => "ASK_EXCH"@,
            TickType::AuctionVolume => "AUCTION_VOLUME"@,
            TickType::AuctionPrice => "AUCTION_PRICE"@,
            TickType::AuctionImbalance => "AUCTION_IMBALANCE"@,
            TickType::MarkPrice => "MARK_PRICE"@,
            TickType::BidEfpComputation => "BID_EFP_COMPUTATION"@,
            TickType::AskEfpComputation => "ASK_EFP_COMPUTATION"@,
            TickType::LastEfpComputation => "LAST_EFP_COMPUTATION"@,
            TickType::OpenEfpComputation => "OPEN_EFP_COMPUTATION"@,
            TickType::HighEfpComputation => "HIGH_EFP_COMPUTATION"@,
            TickType::LowEfpComputation => "LOW_EFP_COMPUTATION"@,
            TickType::CloseEfpComputation => "CLOSE_EFP_COMPUTATION"@,
            TickType::LastTimestamp => "LAST_TIMESTAMP"@,
            TickType::Shortable => "SHORTABLE"@,
            TickType::NotUsed => "NOT_USED"@,
            TickType::RealTimeVolume => "RT_VOLUME"@,
            TickType::Halted => "HALTED"@,
            TickType::BidYield => "BID_YIELD"@,
            TickType::AskYield => "ASK_YIELD"@,
            TickType::LastYield => "LAST_YIELD"@,
            TickType::CustomerOptionComputation => "CUST_OPTION_COMPUTATION"@,
            TickType::TradeCount => "TRADE_COUNT"@,
            TickType::TradeRate => "TRADE_RATE"@,
            TickType::VolumeRate => "VOLUME_RATE"@,
            TickType::LastRthTrade => "LAST_RTH_TRADE"@,
            TickType::RealTimeHistoricalVolatility => "RT_HISTORICAL_VOL"@,
            TickType::IbDividends => "IB_DIVIDENDS"@,
            TickType::BondFactorMultiplier => "BOND_FACTOR_MULTIPLIER"@,
            TickType::RegulatoryImbalance => "REGULATORY_IMBALANCE"@,
            TickType::NewsTick => "NEWS_TICK"@,
            TickType::ShortTermVolume3Min => "SHORT_TERM_VOLUME_3_MIN"@,
            TickType::ShortTermVolume5Min => "SHORT_TERM_VOLUME_5_MIN"@,
            TickType::ShortTermVolume10Min => "SHORT_TERM_VOLUME_10_MIN"@,
            TickType::DelayedBid => "DELAYED_BID"@,
            TickType::DelayedAsk => "DELAYED_ASK"@,
            TickType::DelayedLast => "DELAYED_LAST"@,
            TickType::DelayedBidSize => "DELAYED_BID_SIZE"@,
            TickType::DelayedAskSize => "DELAYED_ASK_SIZE"@,
            TickType::DelayedLastSize => "DELAYED_LAST_SIZE"@,
            TickType::DelayedHigh => "DELAYED_HIGH"@,
            TickType::DelayedLow => "DELAYED_LOW"@,
            TickType::DelayedVolume => "DELAYED_VOLUME"@,
            TickType::DelayedClose => "DELAYED_CLOSE"@,
            TickType::DelayedOpen => "DELAYED_OPEN"@,
            TickType::RealTimeTradeVolume => "RT_TRD_VOLUME"@,
            TickType::CreditmanMarkPrice => "CREDITMAN_MARK_PRICE"@,
            TickType::CreditmanSlowMarkPrice => "CREDITMAN_SLOW_MARK_PRICE"@,
            TickType::DelayedBidOption => "DELAYED_BID_OPTION"@,
            TickType::DelayedAskOption => "DELAYED_ASK_OPTION"@,
            TickType::DelayedLastOption => "DELAYED_LAST_OPTION"@,
            TickType::DelayedModelOption => "DELAYED_MODEL_OPTION"@,
            TickType::LastExchange => "LAST_EXCH"@,
            TickType::LastRegulatoryTime => "LAST_REG_TIME"@,
            TickType::FuturesOpenInterest => "FUTURES_OPEN_INTEREST"@,
            TickType::AverageOptionVolume => "AVG_OPT_VOLUME"@,
            TickType::DelayedLastTimestamp => "DELAYED_LAST_TIMESTAMP"@,
            TickType::ShortableShares => "SHORTABLE_SHARES"@,
            TickType::DelayedHalted => "DELAYED_HALTED"@,
            TickType::Reuters2MutualFunds => "REUTERS_2_MUTUAL_FUNDS"@,
            TickType::EtfNavClose => "ETF_NAV_CLOSE"@,
            TickType::EtfNavPriorClose => "ETF_NAV_PRIOR_CLOSE"@,
            TickType::EtfNavBid => "ETF_NAV_BID"@,
            TickType::EtfNavAsk => "ETF_NAV_ASK"@,
            TickType::EtfNavLast => "ETF_NAV_LAST"@,
            TickType::EtfFrozenNavLast => "ETF_FROZEN_NAV_LAST"@,
            TickType::EtfNavHigh => "ETF_NAV_HIGH"@,
            TickType::EtfNavLow => "ETF_NAV_LOW"@,
            TickType::SocialMarketAnalytics => "SOCIAL_MARKET_ANALYTICS"@,
            TickType::EstimatedIpoMidpoint => "ESTIMATED_IPO_MIDPOINT"@,
            TickType::FinalIpoLast => "FINAL_IPO_LAST"@,
            TickType::DelayedYieldBid => "DELAYED_YIELD_BID"@,
            TickType::DelayedYieldAsk => "DELAYED_YIELD_ASK"@,
            TickType::OddLotBid => "ODD_LOT_BID"@,
            TickType::OddLotAsk => "ODD_LOT_ASK"@,
            TickType::OddLotBidSize => "ODD_LOT_BID_SIZE"@,
            TickType::OddLotAskSize => "ODD_LOT_ASK_SIZE"@,
            TickType::OddLotBidExchange => "ODD_LOT_BID_EXCH"@,
            TickType::OddLotAskExchange => "ODD_LOT_ASK_EXCH"@,
            TickType::NotSet => "NOT_SET"@,
            TickType::Unknown(_) => "UNKNOWN"@,
        }
    }

    /// Converts a wire value without rejecting values added by a newer TWS version.
    pub fn from_i32(value: i32) -> (r: Self)
        ensures
            r.wire_value() == value,
            r.is_canonical(),
    {
        match value {
            0 => Self::BidSize,
            1 => Self::Bid,
            2 => Self::Ask,
            3 => Self::AskSize,
            4 => Self::Last,
            5 => Self::LastSize,
            6 => Self::High,
            7 => Self::Low,
            8 => Self::Volume,
            9 => Self::Close,
            10 => Self::BidOptionComputation,
            11 => Self::AskOptionComputation,
            12 => Self::LastOptionComputation,
            13 => Self::ModelOption,
            14 => Self::Open,
            15 => Self::Low13Week,
            16 => Self::High13Week,
            17 => Self::Low26Week,
            18 => Self::High26Week,
            19 => Self::Low52Week,
            20 => Self::High52Week,
            21 => Self::AverageVolume,
            22 => Self::OpenInterest,
            23 => Self::OptionHistoricalVolatility,
            24 => Self::OptionImpliedVolatility,
            25 => Self::OptionBidExchange,
            26 => Self::OptionAskExchange,
            27 => Self::OptionCallOpenInterest,
            28 => Self::OptionPutOpenInterest,
            29 => Self::OptionCallVolume,
            30 => Self::OptionPutVolume,
            31 => Self::IndexFuturePremium,
            32 => Self::BidExchange,
            33 => Self::AskExchange,
            34 => Self::AuctionVolume,
            35 => Self::AuctionPrice,
            36 => Self::AuctionImbalance,
            37 => Self::MarkPrice,
            38 => Self::BidEfpComputation,
            39 => Self::AskEfpComputation,
            40 => Self::LastEfpComputation,
            41 => Self::OpenEfpComputation,
            42 => Self::HighEfpComputation,
            43 => Self::LowEfpComputation,
            44 => Self::CloseEfpComputation,
            45 => Self::LastTimestamp,
            46 => Self::Shortable,
            47 => Self::NotUsed,
            48 => Self::RealTimeVolume,
            49 => Self::Halted,
            50 => Self::BidYield,
            51 => Self::AskYield,
            52 => Self::LastYield,
            53 => Self::CustomerOptionComputation,
            54 => Self::TradeCount,
            55 => Self::TradeRate,
            56 => Self::VolumeRate,
            57 => Self::LastRthTrade,
            58 => Self::RealTimeHistoricalVolatility,
            59 => Self::IbDividends,
            60 => Self::BondFactorMultiplier,
            61 => Self::RegulatoryImbalance,
            62 => Self::NewsTick,
            63 => Self::ShortTermVolume3Min,
            64 => Self::ShortTermVolume5Min,
            65 => Self::ShortTermVolume10Min,
            66 => Self::DelayedBid,
            67 => Self::DelayedAsk,
            68 => Self::DelayedLast,
            69 => Self::DelayedBidSize,
            70 => Self::DelayedAskSize,
            71 => Self::DelayedLastSize,
            72 => Self::DelayedHigh,
            73 => Self::DelayedLow,
            74 => Self::DelayedVolume,
            75 => Self::DelayedClose,
            76 => Self::DelayedOpen,
            77 => Self::RealTimeTradeVolume,
            78 => Self::CreditmanMarkPrice,
            79 => Self::CreditmanSlowMarkPrice,
            80 => Self::DelayedBidOption,
            81 => Self::DelayedAskOption,
            82 => Self::DelayedLastOption,
            83 => Self::DelayedModelOption,
            84 => Self::LastExchange,
            85 => Self::LastRegulatoryTime,
            86 => Self::FuturesOpenInterest,
            87 => Self::AverageOptionVolume,
            88 => Self::DelayedLastTimestamp,
            89 => Self::ShortableShares,
            90 => Self::DelayedHalted,
            91 => Self::Reuters2MutualFunds,
            92 => Self::EtfNavClose,
            93 => Self::EtfNavPriorClose,
            94 => Self::EtfNavBid,
            95 => Self::EtfNavAsk,
            96 => Self::EtfNavLast,
            97 => Self::EtfFrozenNavLast,
            98 => Self::EtfNavHigh,
            99 => Self::EtfNavLow,
            100 => Self::SocialMarketAnalytics,
            101 => Self::EstimatedIpoMidpoint,
            102 => Self::FinalIpoLast,
            103 => Self::DelayedYieldBid,
            104 => Self::DelayedYieldAsk,
            105 => Self::OddLotBid,
            106 => Self::OddLotAsk,
            107 => Self::OddLotBidSize,
            108 => Self::OddLotAskSize,
            109 => Self::OddLotBidExchange,
            110 => Self::OddLotAskExchange,
            111 => Self::NotSet,
            other => Self::Unknown(other),
        }
    }

    /// Returns the value used by the TWS wire protocol.
    pub fn as_i32(self) -> (r: i32)
        ensures
            r == self.wire_value(),
    {
        match self {
            Self::BidSize => 0,
            Self::Bid => 1,
            Self::Ask => 2,
            Self::AskSize => 3,
            Self::Last => 4,
            Self::LastSize => 5,
            Self::High => 6,
            Self::Low => 7,
            Self::Volume => 8,
            Self::Close => 9,
            Self::BidOptionComputation => 10,
            Self::AskOptionComputation => 11,
            Self::LastOptionComputation => 12,
            Self::ModelOption => 13,
            Self::Open => 14,
            Self::Low13Week => 15,
            Self::High13Week => 16,
            Self::Low26Week => 17,
            Self::High26Week => 18,
            Self::Low52Week => 19,
            Self::High52Week => 20,
            Self::AverageVolume => 21,
            Self::OpenInterest => 22,
            Self::OptionHistoricalVolatility => 23,
            Self::OptionImpliedVolatility => 24,
            Self::OptionBidExchange => 25,
            Self::OptionAskExchange => 26,
            Self::OptionCallOpenInterest => 27,
            Self::OptionPutOpenInterest => 28,
            Self::OptionCallVolume => 29,
            Self::OptionPutVolume => 30,
            Self::IndexFuturePremium => 31,
            Self::BidExchange => 32,
            Self::AskExchange => 33,
            Self::AuctionVolume => 34,
            Self::AuctionPrice => 35,
            Self::AuctionImbalance => 36,
            Self::MarkPrice => 37,
            Self::BidEfpComputation => 38,
            Self::AskEfpComputation => 39,
            Self::LastEfpComputation => 40,
            Self::OpenEfpComputation => 41,
            Self::HighEfpComputation => 42,
            Self::LowEfpComputation => 43,
            Self::CloseEfpComputation => 44,
            Self::LastTimestamp => 45,
            Self::Shortable => 46,
            Self::NotUsed => 47,
            Self::RealTimeVolume => 48,
            Self::Halted => 49,
            Self::BidYield => 50,
            Self::AskYield => 51,
            Self::LastYield => 52,
            Self::CustomerOptionComputation => 53,
            Self::TradeCount => 54,
            Self::TradeRate => 55,
            Self::VolumeRate => 56,
            Self::LastRthTrade => 57,
            Self::RealTimeHistoricalVolatility => 58,
            Self::IbDividends => 59,
            Self::BondFactorMultiplier => 60,
            Self::RegulatoryImbalance => 61,
            Self::NewsTick => 62,
            Self::ShortTermVolume3Min => 63,
            Self::ShortTermVolume5Min => 64,
            Self::ShortTermVolume10Min => 65,
            Self::DelayedBid => 66,
            Self::DelayedAsk => 67,
            Self::DelayedLast => 68,
            Self::DelayedBidSize => 69,
            Self::DelayedAskSize => 70,
            Self::DelayedLastSize => 71,
            Self::DelayedHigh => 72,
            Self::DelayedLow => 73,
            Self::DelayedVolume => 74,
            Self::DelayedClose => 75,
            Self::DelayedOpen => 76,
            Self::RealTimeTradeVolume => 77,
            Self::CreditmanMarkPrice => 78,
            Self::CreditmanSlowMarkPrice => 79,
            Self::DelayedBidOption => 80,
            Self::DelayedAskOption => 81,
            Self::DelayedLastOption => 82,
            Self::DelayedModelOption => 83,
            Self::LastExchange => 84,
            Self::LastRegulatoryTime => 85,
            Self::FuturesOpenInterest => 86,
            Self::AverageOptionVolume => 87,
            Self::DelayedLastTimestamp => 88,
            Self::ShortableShares => 89,
            Self::DelayedHalted => 90,
            Self::Reuters2MutualFunds => 91,
            Self::EtfNavClose => 92,
            Self::EtfNavPriorClose => 93,
            Self::EtfNavBid => 94,
            Self::EtfNavAsk => 95,
            Self::EtfNavLast => 96,
            Self::EtfFrozenNavLast => 97,
            Self::EtfNavHigh => 98,
            Self::EtfNavLow => 99,
            Self::SocialMarketAnalytics => 100,
            Self::EstimatedIpoMidpoint => 101,
            Self::FinalIpoLast => 102,
            Self::DelayedYieldBid => 103,
            Self::DelayedYieldAsk => 104,
            Self::OddLotBid => 105,
            Self::OddLotAsk => 106,
            Self::OddLotBidSize => 107,
            Self::OddLotAskSize => 108,
            Self::OddLotBidExchange => 109,
            Self::OddLotAskExchange => 110,
            Self::NotSet => 111,
            Self::Unknown(value) => value,
        }
    }

    /// Returns the official symbolic name when known.
    pub fn name(self) -> (r: &'static str)
        ensures
            r@ == self.label(),
    {
        match self {
            Self::BidSize => "BID_SIZE",
            Self::Bid => "BID",
            Self::Ask => "ASK",
            Self::AskSize => "ASK_SIZE",
            Self::Last => "LAST",
            Self::LastSize => "LAST_SIZE",
            Self::High => "HIGH",
            Self::Low => "LOW",
            Self::Volume => "VOLUME",
            Self::Close => "CLOSE",
            Self::BidOptionComputation => "BID_OPTION_COMPUTATION",
            Self::AskOptionComputation => "ASK_OPTION_COMPUTATION",
            Self::LastOptionComputation => "LAST_OPTION_COMPUTATION",
            Self::ModelOption => "MODEL_OPTION",
            Self::Open => "OPEN",
            Self::Low13Week => "LOW_13_WEEK",
            Self::High13Week => "HIGH_13_WEEK",
            Self::Low26Week => "LOW_26_WEEK",
            Self::High26Week => "HIGH_26_WEEK",
            Self::Low52Week => "LOW_52_WEEK",
            Self::High52Week => "HIGH_52_WEEK",
            Self::AverageVolume => "AVG_VOLUME",
            Self::OpenInterest => "OPEN_INTEREST",
            Self::OptionHistoricalVolatility => "OPTION_HISTORICAL_VOL",
            Self::OptionImpliedVolatility => "OPTION_IMPLIED_VOL",
            Self::OptionBidExchange => "OPTION_BID_EXCH",
            Self::OptionAskExchange => "OPTION_ASK_EXCH",
            Self::OptionCallOpenInterest => "OPTION_CALL_OPEN_INTEREST",
            Self::OptionPutOpenInterest => "OPTION_PUT_OPEN_INTEREST",
            Self::OptionCallVolume => "OPTION_CALL_VOLUME",
            Self::OptionPutVolume => "OPTION_PUT_VOLUME",
            Self::IndexFuturePremium => "INDEX_FUTURE_PREMIUM",
            Self::BidExchange => "BID_EXCH",
            Self::AskExchange => "ASK_EXCH",
            Self::AuctionVolume => "AUCTION_VOLUME",
            Self::AuctionPrice => "AUCTION_PRICE",
            Self::AuctionImbalance => "AUCTION_IMBALANCE",
            Self::MarkPrice => "MARK_PRICE",
            Self::BidEfpComputation => "BID_EFP_COMPUTATION",
            Self::AskEfpComputation => "ASK_EFP_COMPUTATION",
            Self::LastEfpComputation => "LAST_EFP_COMPUTATION",
            Self::OpenEfpComputation => "OPEN_EFP_COMPUTATION",
            Self::HighEfpComputation => "HIGH_EFP_COMPUTATION",
            Self::LowEfpComputation => "LOW_EFP_COMPUTATION",
            Self::CloseEfpComputation => "CLOSE_EFP_COMPUTATION",
            Self::LastTimestamp => "LAST_TIMESTAMP",
            Self::Shortable => "SHORTABLE",
            Self::NotUsed => "NOT_USED",
            Self::RealTimeVolume => "RT_VOLUME",
            Self::Halted => "HALTED",
            Self::BidYield => "BID_YIELD",
            Self::AskYield => "ASK_YIELD",
            Self::LastYield => "LAST_YIELD",
            Self::CustomerOptionComputation => "CUST_OPTION_COMPUTATION",
            Self::TradeCount => "TRADE_COUNT",
            Self::TradeRate => "TRADE_RATE",
            Self::VolumeRate => "VOLUME_RATE",
            Self::LastRthTrade => "LAST_RTH_TRADE",
            Self::RealTimeHistoricalVolatility => "RT_HISTORICAL_VOL",
            Self::IbDividends => "IB_DIVIDENDS",
            Self::BondFactorMultiplier => "BOND_FACTOR_MULTIPLIER",
            Self::RegulatoryImbalance => "REGULATORY_IMBALANCE",
            Self::NewsTick => "NEWS_TICK",
            Self::ShortTermVolume3Min => "SHORT_TERM_VOLUME_3_MIN",
            Self::ShortTermVolume5Min => "SHORT_TERM_VOLUME_5_MIN",
            Self::ShortTermVolume10Min => "SHORT_TERM_VOLUME_10_MIN",
            Self::DelayedBid => "DELAYED_BID",
            Self::DelayedAsk => "DELAYED_ASK",
            Self::DelayedLast => "DELAYED_LAST",
            Self::DelayedBidSize => "DELAYED_BID_SIZE",
            Self::DelayedAskSize => "DELAYED_ASK_SIZE",
            Self::DelayedLastSize => "DELAYED_LAST_SIZE",
            Self::DelayedHigh => "DELAYED_HIGH",
            Self::DelayedLow => "DELAYED_LOW",
            Self::DelayedVolume => "DELAYED_VOLUME",
            Self::DelayedClose => "DELAYED_CLOSE",
            Self::DelayedOpen => "DELAYED_OPEN",
            Self::RealTimeTradeVolume => "RT_TRD_VOLUME",
            Self::CreditmanMarkPrice => "CREDITMAN_MARK_PRICE",
            Self::CreditmanSlowMarkPrice => "CREDITMAN_SLOW_MARK_PRICE",
            Self::DelayedBidOption => "DELAYED_BID_OPTION",
            Self::DelayedAskOption => "DELAYED_ASK_OPTION",
            Self::DelayedLastOption => "DELAYED_LAST_OPTION",
            Self::DelayedModelOption => "DELAYED_MODEL_OPTION",
            Self::LastExchange => "LAST_EXCH",
            Self::LastRegulatoryTime => "LAST_REG_TIME",
            Self::FuturesOpenInterest => "FUTURES_OPEN_INTEREST",
            Self::AverageOptionVolume => "AVG_OPT_VOLUME",
            Self::DelayedLastTimestamp => "DELAYED_LAST_TIMESTAMP",
            Self::ShortableShares => "SHORTABLE_SHARES",
            Self::DelayedHalted => "DELAYED_HALTED",
            Self::Reuters2MutualFunds => "REUTERS_2_MUTUAL_FUNDS",
            Self::EtfNavClose => "ETF_NAV_CLOSE",
            Self::EtfNavPriorClose => "ETF_NAV_PRIOR_CLOSE",
            Self::EtfNavBid => "ETF_NAV_BID",
            Self::EtfNavAsk => "ETF_NAV_ASK",
            Self::EtfNavLast => "ETF_NAV_LAST",
            Self::EtfFrozenNavLast => "ETF_FROZEN_NAV_LAST",
            Self::EtfNavHigh => "ETF_NAV_HIGH",
            Self::EtfNavLow => "ETF_NAV_LOW",
            Self::SocialMarketAnalytics => "SOCIAL_MARKET_ANALYTICS",
            Self::EstimatedIpoMidpoint => "ESTIMATED_IPO_MIDPOINT",
            Self::FinalIpoLast => "FINAL_IPO_LAST",
            Self::DelayedYieldBid => "DELAYED_YIELD_BID",
            Self::DelayedYieldAsk => "DELAYED_YIELD_ASK",
            Self::OddLotBid => "ODD_LOT_BID",
            Self::OddLotAsk => "ODD_LOT_ASK",
            Self::OddLotBidSize => "ODD_LOT_BID_SIZE",
            Self::OddLotAskSize => "ODD_LOT_ASK_SIZE",
            Self::OddLotBidExchange => "ODD_LOT_BID_EXCH",
            Self::OddLotAskExchange => "ODD_LOT_ASK_EXCH",
            Self::NotSet => "NOT_SET",
            Self::Unknown(_) => "UNKNOWN",
        }
    }

    /// Two canonical values with the same wire value are the same value; so converting the wire
    /// value of a canonical value gives that value back.
    pub proof fn lemma_wire_value_injective(a: Self, b: Self)
        requires
            a.is_canonical(),
            b.is_canonical(),
            a.wire_value() == b.wire_value(),
        ensures
            a == b,
    {
    }
}

/// Requested market-data mode.
#[derive(Debug, Clone, Copy, PartialEq, Eq, Hash, Structural)]
pub enum MarketDataType {
    /// `REALTIME` on the wire as 1.
    RealTime,
    /// `FROZEN` on the wire as 2.
    Frozen,
    /// `DELAYED` on the wire as 3.
    Delayed,
    /// `DELAYED_FROZEN` on the wire as 4.
    DelayedFrozen,
    /// A value this library does not know, kept as it came.
    Unknown(i32),
}

impl MarketDataType {
    /// True for the wire values that name a known variant.
    pub open spec fn is_known(value: i32) -> bool {
        (1 <= value && value <= 4)
    }

    /// The value used by the TWS wire protocol.
    pub open spec fn wire_value(self) -> i32 {
        match self {
            MarketDataType::RealTime => 1,
            MarketDataType::Frozen => 2,
            MarketDataType::Delayed => 3,
            MarketDataType::DelayedFrozen => 4,
            MarketDataType::Unknown(value) => value,
        }
    }

    /// True unless the value is `Unknown` with a value that names a known variant.
    pub open spec fn is_canonical(self) -> bool {
        (self is Unknown) <==> !Self::is_known(self.wire_value())
    }

    /// The official symbolic name, or `UNKNOWN`.
    pub open spec fn label(self) -> Seq<char> {
        match self {
            MarketDataType::RealTime => "REALTIME"@,
            MarketDataType::Frozen => "FROZEN"@,
            MarketDataType::Delayed => "DELAYED"@,
            MarketDataType::DelayedFrozen => "DELAYED_FROZEN"@,
            MarketDataType::Unknown(_) => "UNKNOWN"@,
        }
    }

    /// Converts a wire value without rejecting values added by a newer TWS version.
    pub fn from_i32(value: i32) -> (r: Self)
        ensures
            r.wire_value() == value,
            r.is_canonical(),
    {
        match value {
            1 => Self::RealTime,
            2 => Self::Frozen,
            3 => Self::Delayed,
            4 => Self::DelayedFrozen,
            other => Self::Unknown(other),
        }
    }

    /// Returns the value used by the TWS wire protocol.
    pub fn as_i32(self) -> (r: i32)
        ensures
            r == self.wire_value(),
    {
        match self {
            Self::RealTime => 1,
            Self::Frozen => 2,
            Self::Delayed => 3,
            Self::DelayedFrozen => 4,
            Self::Unknown(value) => value,
        }
    }

    /// Returns the official symbolic name when known.
    pub fn name(self) -> (r: &'static str)
        ensures
            r@ == self.label(),
    {
        match self {
            Self::RealTime => "REALTIME",
            Self::Frozen => "FROZEN",
            Self::Delayed => "DELAYED",
            Self::DelayedFrozen => "DELAYED_FROZEN",
            Self::Unknown(_) => "UNKNOWN",
        }
    }

    /// Two canonical values with the same wire value are the same value; so converting the wire
    /// value of a canonical value gives that value back.
    pub proof fn lemma_wire_value_injective(a: Self, b: Self)
        requires
            a.is_canonical(),
            b.is_canonical(),
            a.wire_value() == b.wire_value(),
        ensures
            a == b,
    {
    }
}

/// Financial Advisor XML data type.
#[derive(Debug, Clone, Copy, PartialEq, Eq, Hash, Structural)]
pub enum FaDataType {
    /// `GROUPS` on the wire as 1.
    Groups,
    /// `ALIASES` on the wire as 3.
    Aliases,
    /// A value this library does not know, kept as it came.
    Unknown(i32),
}

impl FaDataType {
    /// True for the wire values that name a known variant.
    pub open spec fn is_known(value: i32) -> bool {
        value == 1
            || value == 3
    }

    /// The value used by the TWS wire protocol.
    pub open spec fn wire_value(self) -> i32 {
        match self {
            FaDataType::Groups => 1,
            FaDataType::Aliases => 3,
            FaDataType::Unknown(value) => value,
        }
    }

    /// True unless the value is `Unknown` with a value that names a known variant.
    pub open spec fn is_canonical(self) -> bool {
        (self is Unknown) <==> !Self::is_known(self.wire_value())
    }

    /// The official symbolic name, or `UNKNOWN`.
    pub open spec fn label(self) -> Seq<char> {
        match self {
            FaDataType::Groups => "GROUPS"@,
            FaDataType::Aliases => "ALIASES"@,
            FaDataType::Unknown(_) => "UNKNOWN"@,
        }
    }

    /// Converts a wire value without rejecting values added by a newer TWS version.
    pub fn from_i32(value: i32) -> (r: Self)
        ensures
            r.wire_value() == value,
            r.is_canonical(),
    {
        match value {
            1 => Self::Groups,
            3 => Self::Aliases,
            other => Self::Unknown(other),
        }
    }

    /// Returns the value used by the TWS wire protocol.
    pub fn as_i32(self) -> (r: i32)
        ensures
            r == self.wire_value(),
    {
        match self {
            Self::Groups => 1,
            Self::Aliases => 3,
            Self::Unknown(value) => value,
        }
    }

    /// Returns the official symbolic name when known.
    pub fn name(self) -> (r: &'static str)
        ensures
            r@ == self.label(),
    {
        match self {
            Self::Groups => "GROUPS",
            Self::Aliases => "ALIASES",
            Self::Unknown(_) => "UNKNOWN",
        }
    }

    /// Two canonical values with the same wire value are the same value; so converting the wire
    /// value of a canonical value gives that value back.
    pub proof fn lemma_wire_value_injective(a: Self, b: Self)
        requires
            a.is_canonical(),
            b.is_canonical(),
            a.wire_value() == b.wire_value(),
        ensures
            a == b,
    {
    }
}

/// Liquidity classification reported with executions.
#[derive(Debug, Clone, Copy, PartialEq, Eq, Hash, Structural)]
pub enum Liquidities {
    /// `None` on the wire as 0.
    NoValue,
    /// `Added` on the wire as 1.
    Added,
    /// `Remove` on the wire as 2.
    Remove,
    /// `RoundedOut` on the wire as 3.
    RoundedOut,
    /// A value this library does not know, kept as it came.
    Unknown(i32),
}

impl Liquidities {
    /// True for the wire values that name a known variant.
    pub open spec fn is_known(value: i32) -> bool {
        (0 <= value && value <= 3)
    }

    /// The value used by the TWS wire protocol.
    pub open spec fn wire_value(self) -> i32 {
        match self {
            Liquidities::NoValue => 0,
            Liquidities::Added => 1,
            Liquidities::Remove => 2,
            Liquidities::RoundedOut => 3,
            Liquidities::Unknown(value) => value,
        }
    }

    /// True unless the value is `Unknown` with a value that names a known variant.
    pub open spec fn is_canonical(self) -> bool {
        (self is Unknown) <==> !Self::is_known(self.wire_value())
    }

    /// The official symbolic name, or `UNKNOWN`.
    pub open spec fn label(self) -> Seq<char> {
        match self {
            Liquidities::NoValue => "None"@,
            Liquidities::Added => "Added"@,
            Liquidities::Remove => "Remove"@,
            Liquidities::RoundedOut => "RoundedOut"@,
            Liquidities::Unknown(_) => "UNKNOWN"@,
        }
    }

    /// Converts a wire value without rejecting values added by a newer TWS version.
    pub fn from_i32(value: i32) -> (r: Self)
        ensures
            r.wire_value() == value,
            r.is_canonical(),
    {
        match value {
            0 => Self::NoValue,
            1 => Self::Added,
            2 => Self::Remove,
            3 => Self::RoundedOut,
            other => Self::Unknown(other),
        }
    }

    /// Returns the value used by the TWS wire protocol.
    pub fn as_i32(self) -> (r: i32)
        ensures
            r == self.wire_value(),
    {
        match self {
            Self::NoValue => 0,
            Self::Added => 1,
            Self::Remove => 2,
            Self::RoundedOut => 3,
            Self::Unknown(value) => value,
        }
    }

    /// Returns the official symbolic name when known.
    pub fn name(self) -> (r: &'static str)
        ensures
            r@ == self.label(),
    {
        match self {
            Self::NoValue => "None",
            Self::Added => "Added",
            Self::Remove => "Remove",
            Self::RoundedOut => "RoundedOut",
            Self::Unknown(_) => "UNKNOWN",
        }
    }

    /// Two canonical values with the same wire value are the same value; so converting the wire
    /// value of a canonical value gives that value back.
    pub proof fn lemma_wire_value_injective(a: Self, b: Self)
        requires
            a.is_canonical(),
            b.is_canonical(),
            a.wire_value() == b.wire_value(),
        ensures
            a == b,
    {
    }
}

/// Option exercise/lapse result.
#[derive(Debug, Clone, Copy, PartialEq, Eq, Hash, Structural)]
pub enum OptionExerciseType {
    /// `None` on the wire as -1.
    NoValue,
    /// `Exercise` on the wire as 1.
    Exercise,
    /// `Lapse` on the wire as 2.
    Lapse,
    /// `DoNothing` on the wire as 3.
    DoNothing,
    /// `Assigned` on the wire as 100.
    Assigned,
    /// `AutoexerciseClearing` on the wire as 101.
    AutoexerciseClearing,
    /// `Expired` on the wire as 102.
    Expired,
    /// `Netting` on the wire as 103.
    Netting,
    /// `AutoexerciseTrading` on the wire as 200.
    AutoexerciseTrading,
    /// A value this library does not know, kept as it came.
    Unknown(i32),
}

impl OptionExerciseType {
    /// True for the wire values that name a known variant.
    pub open spec fn is_known(value: i32) -> bool {
        value == -1
            || (1 <= value && value <= 3)
            || (100 <= value && value <= 103)
            || value == 200
    }

    /// The value used by the TWS wire protocol.
    pub open spec fn wire_value(self) -> i32 {
        match self {
            OptionExerciseType::NoValue => -1i32,
            OptionExerciseType::Exercise => 1,
            OptionExerciseType::Lapse => 2,
            OptionExerciseType::DoNothing => 3,
            OptionExerciseType::Assigned => 100,
            OptionExerciseType::AutoexerciseClearing => 101,
            OptionExerciseType::Expired => 102,
            OptionExerciseType::Netting => 103,
            OptionExerciseType::AutoexerciseTrading => 200,
            OptionExerciseType::Unknown(value) => value,
        }
    }

    /// True unless the value is `Unknown` with a value that names a known variant.
    pub open spec fn is_canonical(self) -> bool {
        (self is Unknown) <==> !Self::is_known(self.wire_value())
    }

    /// The official symbolic name, or `UNKNOWN`.
    pub open spec fn label(self) -> Seq<char> {
        match self {
            OptionExerciseType::NoValue => "None"@,
            OptionExerciseType::Exercise => "Exercise"@,
            OptionExerciseType::Lapse => "Lapse"@,
            OptionExerciseType::DoNothing => "DoNothing"@,
            OptionExerciseType::Assigned => "Assigned"@,
            OptionExerciseType::AutoexerciseClearing => "AutoexerciseClearing"@,
            OptionExerciseType::Expired => "Expired"@,
            OptionExerciseType::Netting => "Netting"@,
            OptionExerciseType::AutoexerciseTrading => "AutoexerciseTrading"@,
            OptionExerciseType::Unknown(_) => "UNKNOWN"@,
        }
    }

    /// Converts a wire value without rejecting values added by a newer TWS version.
    pub fn from_i32(value: i32) -> (r: Self)
        ensures
            r.wire_value() == value,
            r.is_canonical(),
    {
        match value {
            -1 => Self::NoValue,
            1 => Self::Exercise,
            2 => Self::Lapse,
            3 => Self::DoNothing,
            100 => Self::Assigned,
            101 => Self::AutoexerciseClearing,
            102 => Self::Expired,
            103 => Self::Netting,
            200 => Self::AutoexerciseTrading,
            other => Self::Unknown(other),
        }
    }

    /// Returns the value used by the TWS wire protocol.
    pub fn as_i32(self) -> (r: i32)
        ensures
            r == self.wire_value(),
    {
        match self {
            Self::NoValue => -1,
            Self::Exercise => 1,
            Self::Lapse => 2,
            Self::DoNothing => 3,
            Self::Assigned => 100,
            Self::AutoexerciseClearing => 101,
            Self::Expired => 102,
            Self::Netting => 103,
            Self::AutoexerciseTrading => 200,
            Self::Unknown(value) => value,
        }
    }

    /// Returns the official symbolic name when known.
    pub fn name(self) -> (r: &'static str)
        ensures
            r@ == self.label(),
    {
        match self {
            Self::NoValue => "None",
            Self::Exercise => "Exercise",
            Self::Lapse => "Lapse",
            Self::DoNothing => "DoNothing",
            Self::Assigned => "Assigned",
            Self::AutoexerciseClearing => "AutoexerciseClearing",
            Self::Expired => "Expired",
            Self::Netting => "Netting",
            Self::AutoexerciseTrading => "AutoexerciseTrading",
            Self::Unknown(_) => "UNKNOWN",
        }
    }

    /// Two canonical values with the same wire value are the same value; so converting the wire
    /// value of a canonical value gives that value back.
    pub proof fn lemma_wire_value_injective(a: Self, b: Self)
        requires
            a.is_canonical(),
            b.is_canonical(),
            a.wire_value() == b.wire_value(),
        ensures
            a == b,
    {
    }
}

/// Price-condition trigger method.
#[derive(Debug, Clone, Copy, PartialEq, Eq, Hash, Structural)]
pub enum TriggerMethod {
    /// `Default` on the wire as 0.
    Default,
    /// `DoubleBidAsk` on the wire as 1.
    DoubleBidAsk,
    /// `Last` on the wire as 2.
    Last,
    /// `DoubleLast` on the wire as 3.
    DoubleLast,
    /// `BidAsk` on the wire as 4.
    BidAsk,
    /// `LastBidAsk` on the wire as 7.
    LastBidAsk,
    /// `MidPoint` on the wire as 8.
    MidPoint,
    /// A value this library does not know, kept as it came.
    Unknown(i32),
}

impl TriggerMethod {
    /// True for the wire values that name a known variant.
    pub open spec fn is_known(value: i32) -> bool {
        (0 <= value && value <= 4)
            || (7 <= value && value <= 8)
    }

    /// The value used by the TWS wire protocol.
    pub open spec fn wire_value(self) -> i32 {
        match self {
            TriggerMethod::Default => 0,
            TriggerMethod::DoubleBidAsk => 1,
            TriggerMethod::Last => 2,
            TriggerMethod::DoubleLast => 3,
            TriggerMethod::BidAsk => 4,
            TriggerMethod::LastBidAsk => 7,
            TriggerMethod::MidPoint => 8,
            TriggerMethod::Unknown(value) => value,
        }
    }

    /// True unless the value is `Unknown` with a value that names a known variant.
    pub open spec fn is_canonical(self) -> bool {
        (self is Unknown) <==> !Self::is_known(self.wire_value())
    }

    /// The official symbolic name, or `UNKNOWN`.
    pub open spec fn label(self) -> Seq<char> {
        match self {
            TriggerMethod::Default => "Default"@,
            TriggerMethod::DoubleBidAsk => "DoubleBidAsk"@,
            TriggerMethod::Last => "Last"@,
            TriggerMethod::DoubleLast => "DoubleLast"@,
            TriggerMethod::BidAsk => "BidAsk"@,
            TriggerMethod::LastBidAsk => "LastBidAsk"@,
            TriggerMethod::MidPoint => "MidPoint"@,
            TriggerMethod::Unknown(_) => "UNKNOWN"@,
        }
    }

    /// Converts a wire value without rejecting values added by a newer TWS version.
    pub fn from_i32(value: i32) -> (r: Self)
        ensures
            r.wire_value() == value,
            r.is_canonical(),
    {
        match value {
            0 => Self::Default,
            1 => Self::DoubleBidAsk,
            2 => Self::Last,
            3 => Self::DoubleLast,
            4 => Self::BidAsk,
            7 => Self::LastBidAsk,
            8 => Self::MidPoint,
            other => Self::Unknown(other),
        }
    }

    /// Returns the value used by the TWS wire protocol.
    pub fn as_i32(self) -> (r: i32)
        ensures
            r == self.wire_value(),
    {
        match self {
            Self::Default => 0,
            Self::DoubleBidAsk => 1,
            Self::Last => 2,
            Self::DoubleLast => 3,
            Self::BidAsk => 4,
            Self::LastBidAsk => 7,
            Self::MidPoint => 8,
            Self::Unknown(value) => value,
        }
    }

    /// Returns the official symbolic name when known.
    pub fn name(self) -> (r: &'static str)
        ensures
            r@ == self.label(),
    {
        match self {
            Self::Default => "Default",
            Self::DoubleBidAsk => "DoubleBidAsk",
            Self::Last => "Last",
            Self::DoubleLast => "DoubleLast",
            Self::BidAsk => "BidAsk",
            Self::LastBidAsk => "LastBidAsk",
            Self::MidPoint => "MidPoint",
            Self::Unknown(_) => "UNKNOWN",
        }
    }

    /// Two canonical values with the same wire value are the same value; so converting the wire
    /// value of a canonical value gives that value back.
    pub proof fn lemma_wire_value_injective(a: Self, b: Self)
        requires
            a.is_canonical(),
            b.is_canonical(),
            a.wire_value() == b.wire_value(),
        ensures
            a == b,
    {
    }
}

/// Fund classification values use string codes in the TWS protocol.
#[derive(Debug, Clone, Copy, PartialEq, Eq, Hash, Structural)]
pub enum FundAssetType {
    /// Wire code `None`.
    NoValue,
    /// Wire code `000`.
    Others,
    /// Wire code `001`.
    MoneyMarket,
    /// Wire code `002`.
    FixedIncome,
    /// Wire code `003`.
    MultiAsset,
    /// Wire code `004`.
    Equity,
    /// Wire code `005`.
    Sector,
    /// Wire code `006`.
    Guaranteed,
    /// Wire code `007`.
    Alternative,
    /// Any other code.
    Unknown,
}

impl FundAssetType {
    /// The wire code.
    pub open spec fn code_text(self) -> Seq<char> {
        match self {
            FundAssetType::NoValue => "None"@,
            FundAssetType::Others => "000"@,
            FundAssetType::MoneyMarket => "001"@,
            FundAssetType::FixedIncome => "002"@,
            FundAssetType::MultiAsset => "003"@,
            FundAssetType::Equity => "004"@,
            FundAssetType::Sector => "005"@,
            FundAssetType::Guaranteed => "006"@,
            FundAssetType::Alternative => "007"@,
            FundAssetType::Unknown => ""@,
        }
    }

    /// The variant a wire code names; any code it does not know gives `Unknown`.
    pub open spec fn from_code_text(code: Seq<char>) -> Self {
        if code == "None"@ {
            FundAssetType::NoValue
        } else if code == "000"@ {
            FundAssetType::Others
        } else if code == "001"@ {
            FundAssetType::MoneyMarket
        } else if code == "002"@ {
            FundAssetType::FixedIncome
        } else if code == "003"@ {
            FundAssetType::MultiAsset
        } else if code == "004"@ {
            FundAssetType::Equity
        } else if code == "005"@ {
            FundAssetType::Sector
        } else if code == "006"@ {
            FundAssetType::Guaranteed
        } else if code == "007"@ {
            FundAssetType::Alternative
        } else {
            FundAssetType::Unknown
        }
    }

    /// Returns the wire code.
    pub fn code(self) -> (r: &'static str)
        ensures
            r@ == self.code_text(),
    {
        match self {
            Self::NoValue => "None",
            Self::Others => "000",
            Self::MoneyMarket => "001",
            Self::FixedIncome => "002",
            Self::MultiAsset => "003",
            Self::Equity => "004",
            Self::Sector => "005",
            Self::Guaranteed => "006",
            Self::Alternative => "007",
            Self::Unknown => "",
        }
    }

    /// Reads a wire code.
    pub fn from_code(code: &str) -> (r: Self)
        ensures
            r == Self::from_code_text(code@),
    {
        if str_eq(code, "None") {
            Self::NoValue
        } else if str_eq(code, "000") {
            Self::Others
        } else if str_eq(code, "001") {
            Self::MoneyMarket
        } else if str_eq(code, "002") {
            Self::FixedIncome
        } else if str_eq(code, "003") {
            Self::MultiAsset
        } else if str_eq(code, "004") {
            Self::Equity
        } else if str_eq(code, "005") {
            Self::Sector
        } else if str_eq(code, "006") {
            Self::Guaranteed
        } else if str_eq(code, "007") {
            Self::Alternative
        } else {
            Self::Unknown
        }
    }

    /// Reading the code of any variant gives the variant back.
    pub proof fn lemma_code_roundtrip(x: Self)
        ensures
            Self::from_code_text(x.code_text()) == x,
    {
        reveal_strlit("None");
        reveal_strlit("000");
        reveal_strlit("001");
        reveal_strlit("002");
        reveal_strlit("003");
        reveal_strlit("004");
        reveal_strlit("005");
        reveal_strlit("006");
        reveal_strlit("007");
        reveal_strlit("");
        assert("000"@.len() != "None"@.len());
        assert("000"@[2] != "001"@[2]);
        assert("000"@[2] != "002"@[2]);
        assert("000"@[2] != "003"@[2]);
        assert("000"@[2] != "004"@[2]);
        assert("000"@[2] != "005"@[2]);
        assert("000"@[2] != "006"@[2]);
        assert("000"@[2] != "007"@[2]);
        assert("001"@.len() != "None"@.len());
        assert("001"@[2] != "002"@[2]);
        assert("001"@[2] != "003"@[2]);
        assert("001"@[2] != "004"@[2]);
        assert("001"@[2] != "005"@[2]);
        assert("001"@[2] != "006"@[2]);
        assert("001"@[2] != "007"@[2]);
        assert("002"@.len() != "None"@.len());
        assert("002"@[2] != "003"@[2]);
        assert("002"@[2] != "004"@[2]);
        assert("002"@[2] != "005"@[2]);
        assert("002"@[2] != "006"@[2]);
        assert("002"@[2] != "007"@[2]);
        assert("003"@.len() != "None"@.len());
        assert("003"@[2] != "004"@[2]);
        assert("003"@[2] != "005"@[2]);
        assert("003"@[2] != "006"@[2]);
        assert("003"@[2] != "007"@[2]);
        assert("004"@.len() != "None"@.len());
        assert("004"@[2] != "005"@[2]);
        assert("004"@[2] != "006"@[2]);
        assert("004"@[2] != "007"@[2]);
        assert("005"@.len() != "None"@.len());
        assert("005"@[2] != "006"@[2]);
        assert("005"@[2] != "007"@[2]);
        assert("006"@.len() != "None"@.len());
        assert("006"@[2] != "007"@[2]);
        assert("007"@.len() != "None"@.len());
        assert(""@.len() != "None"@.len());
        assert(""@.len() != "000"@.len());
        assert(""@.len() != "001"@.len());
        assert(""@.len() != "002"@.len());
        assert(""@.len() != "003"@.len());
        assert(""@.len() != "004"@.len());
        assert(""@.len() != "005"@.len());
        assert(""@.len() != "006"@.len());
        assert(""@.len() != "007"@.len());
    }
}

/// Fund distribution policy indicator.
#[derive(Debug, Clone, Copy, PartialEq, Eq, Hash, Structural)]
pub enum FundDistributionPolicyIndicator {
    /// Wire code `None`.
    NoValue,
    /// Wire code `N`.
    AccumulationFund,
    /// Wire code `Y`.
    IncomeFund,
    /// Any other code.
    Unknown,
}

impl FundDistributionPolicyIndicator {
    /// The wire code.
    pub open spec fn code_text(self) -> Seq<char> {
        match self {
            FundDistributionPolicyIndicator::NoValue => "None"@,
            FundDistributionPolicyIndicator::AccumulationFund => "N"@,
            FundDistributionPolicyIndicator::IncomeFund => "Y"@,
            FundDistributionPolicyIndicator::Unknown => ""@,
        }
    }

    /// The variant a wire code names; any code it does not know gives `Unknown`.
    pub open spec fn from_code_text(code: Seq<char>) -> Self {
        if code == "None"@ {
            FundDistributionPolicyIndicator::NoValue
        } else if code == "N"@ {
            FundDistributionPolicyIndicator::AccumulationFund
        } else if code == "Y"@ {
            FundDistributionPolicyIndicator::IncomeFund
        } else {
            FundDistributionPolicyIndicator::Unknown
        }
    }

    /// Returns the wire code.
    pub fn code(self) -> (r: &'static str)
        ensures
            r@ == self.code_text(),
    {
        match self {
            Self::NoValue => "None",
            Self::AccumulationFund => "N",
            Self::IncomeFund => "Y",
            Self::Unknown => "",
        }
    }

    /// Reads a wire code.
    pub fn from_code(code: &str) -> (r: Self)
        ensures
            r == Self::from_code_text(code@),
    {
        if str_eq(code, "None") {
            Self::NoValue
        } else if str_eq(code, "N") {
            Self::AccumulationFund
        } else if str_eq(code, "Y") {
            Self::IncomeFund
        } else {
            Self::Unknown
        }
    }

    /// Reading the code of any variant gives the variant back.
    pub proof fn lemma_code_roundtrip(x: Self)
        ensures
            Self::from_code_text(x.code_text()) == x,
    {
        reveal_strlit("None");
        reveal_strlit("N");
        reveal_strlit("Y");
        reveal_strlit("");
        assert("None"@.len() != "Y"@.len());
        assert("N"@.len() != "None"@.len());
        assert("N"@[0] != "Y"@[0]);
        assert(""@.len() != "None"@.len());
        assert(""@.len() != "N"@.len());
        assert(""@.len() != "Y"@.len());
    }
}

} // verus!
