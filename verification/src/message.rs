//! Incoming and outgoing TWS API message identifiers.
use vstd::prelude::*;

verus! {

/// Offset added to an outgoing message id when the payload is protobuf encoded.
pub const PROTOBUF_MSG_ID: i32 = 200;

/// Incoming TWS API message identifiers.
#[derive(Debug, Clone, Copy, PartialEq, Eq, Structural)]
pub enum Incoming {
    /// Tick price callback.
    TickPrice,
    /// Tick size callback.
    TickSize,
    /// Order status callback.
    OrderStatus,
    /// Error callback.
    ErrorMessage,
    /// Open order callback.
    OpenOrder,
    /// Account value callback.
    AccountValue,
    /// Portfolio value callback.
    PortfolioValue,
    /// Account update time callback.
    AccountUpdateTime,
    /// Next valid id callback.
    NextValidId,
    /// Contract data callback.
    ContractData,
    /// Execution data callback.
    ExecutionData,
    /// Market depth callback.
    MarketDepth,
    /// Market depth L2 callback.
    MarketDepthL2,
    /// News bulletin callback.
    NewsBulletins,
    /// Managed accounts callback.
    ManagedAccounts,
    /// Receive FA callback.
    ReceiveFa,
    /// Historical data callback.
    HistoricalData,
    /// Bond contract data callback.
    BondContractData,
    /// Scanner parameters callback.
    ScannerParameters,
    /// Scanner data callback.
    ScannerData,
    /// Option computation callback.
    TickOptionComputation,
    /// Generic tick callback.
    TickGeneric,
    /// String tick callback.
    TickString,
    /// EFP tick callback.
    TickEfp,
    /// Current time callback.
    CurrentTime,
    /// Real-time bar callback.
    RealTimeBars,
    /// Contract data end callback.
    ContractDataEnd,
    /// Open order end callback.
    OpenOrderEnd,
    /// Account download end callback.
    AccountDownloadEnd,
    /// Execution data end callback.
    ExecutionDataEnd,
    /// Delta-neutral validation callback.
    DeltaNeutralValidation,
    /// Tick snapshot end callback.
    TickSnapshotEnd,
    /// Market data type callback.
    MarketDataType,
    /// Commission and fees report callback.
    CommissionAndFeesReport,
    /// Position data callback.
    PositionData,
    /// Position end callback.
    PositionEnd,
    /// Account summary callback.
    AccountSummary,
    /// Account summary end callback.
    AccountSummaryEnd,
    /// Verify message API callback.
    VerifyMessageApi,
    /// Verify completed callback.
    VerifyCompleted,
    /// Display group list callback.
    DisplayGroupList,
    /// Display group updated callback.
    DisplayGroupUpdated,
    /// Verify-and-auth message callback.
    VerifyAndAuthMessageApi,
    /// Verify-and-auth completed callback.
    VerifyAndAuthCompleted,
    /// Position multi callback.
    PositionMulti,
    /// Position multi end callback.
    PositionMultiEnd,
    /// Account update multi callback.
    AccountUpdateMulti,
    /// Account update multi end callback.
    AccountUpdateMultiEnd,
    /// Security definition option parameter callback.
    SecurityDefinitionOptionParameter,
    /// Security definition option parameter end callback.
    SecurityDefinitionOptionParameterEnd,
    /// Soft-dollar tiers callback.
    SoftDollarTiers,
    /// Family codes callback.
    FamilyCodes,
    /// Symbol samples callback.
    SymbolSamples,
    /// Market depth exchanges callback.
    MarketDepthExchanges,
    /// Tick request parameters callback.
    TickRequestParameters,
    /// Smart components callback.
    SmartComponents,
    /// News article callback.
    NewsArticle,
    /// Tick news callback.
    TickNews,
    /// News providers callback.
    NewsProviders,
    /// Historical news callback.
    HistoricalNews,
    /// Historical news end callback.
    HistoricalNewsEnd,
    /// Head timestamp callback.
    HeadTimestamp,
    /// Histogram data callback.
    HistogramData,
    /// Historical data update callback.
    HistoricalDataUpdate,
    /// Reroute market data request callback.
    RerouteMarketDataRequest,
    /// Reroute market depth request callback.
    RerouteMarketDepthRequest,
    /// Market rule callback.
    MarketRule,
    /// PnL callback.
    Pnl,
    /// PnL single callback.
    PnlSingle,
    /// Historical ticks callback.
    HistoricalTicks,
    /// Historical bid/ask ticks callback.
    HistoricalTicksBidAsk,
    /// Historical last ticks callback.
    HistoricalTicksLast,
    /// Tick-by-tick callback.
    TickByTick,
    /// Order bound callback.
    OrderBound,
    /// Completed order callback.
    CompletedOrder,
    /// Completed orders end callback.
    CompletedOrdersEnd,
    /// Replace FA end callback.
    ReplaceFaEnd,
    /// WSH metadata callback.
    WshMetaData,
    /// WSH event data callback.
    WshEventData,
    /// Historical schedule callback.
    HistoricalSchedule,
    /// User info callback.
    UserInfo,
    /// Historical data end callback.
    HistoricalDataEnd,
    /// Current time in milliseconds callback.
    CurrentTimeInMillis,
    /// Config response callback.
    ConfigResponse,
    /// Update config response callback.
    UpdateConfigResponse,
}

impl Incoming {
    /// The numeric protocol id.
    pub open spec fn wire_id(self) -> i32 {
        match self {
            Incoming::TickPrice => 1,
            Incoming::TickSize => 2,
            Incoming::OrderStatus => 3,
            Incoming::ErrorMessage => 4,
            Incoming::OpenOrder => 5,
            Incoming::AccountValue => 6,
            Incoming::PortfolioValue => 7,
            Incoming::AccountUpdateTime => 8,
            Incoming::NextValidId => 9,
            Incoming::ContractData => 10,
            Incoming::ExecutionData => 11,
            Incoming::MarketDepth => 12,
            Incoming::MarketDepthL2 => 13,
            Incoming::NewsBulletins => 14,
            Incoming::ManagedAccounts => 15,
            Incoming::ReceiveFa => 16,
            Incoming::HistoricalData => 17,
            Incoming::BondContractData => 18,
            Incoming::ScannerParameters => 19,
            Incoming::ScannerData => 20,
            Incoming::TickOptionComputation => 21,
            Incoming::TickGeneric => 45,
            Incoming::TickString => 46,
            Incoming::TickEfp => 47,
            Incoming::CurrentTime => 49,
            Incoming::RealTimeBars => 50,
            Incoming::ContractDataEnd => 52,
            Incoming::OpenOrderEnd => 53,
            Incoming::AccountDownloadEnd => 54,
            Incoming::ExecutionDataEnd => 55,
            Incoming::DeltaNeutralValidation => 56,
            Incoming::TickSnapshotEnd => 57,
            Incoming::MarketDataType => 58,
            Incoming::CommissionAndFeesReport => 59,
            Incoming::PositionData => 61,
            Incoming::PositionEnd => 62,
            Incoming::AccountSummary => 63,
            Incoming::AccountSummaryEnd => 64,
            Incoming::VerifyMessageApi => 65,
            Incoming::VerifyCompleted => 66,
            Incoming::DisplayGroupList => 67,
            Incoming::DisplayGroupUpdated => 68,
            Incoming::VerifyAndAuthMessageApi => 69,
            Incoming::VerifyAndAuthCompleted => 70,
            Incoming::PositionMulti => 71,
            Incoming::PositionMultiEnd => 72,
            Incoming::AccountUpdateMulti => 73,
            Incoming::AccountUpdateMultiEnd => 74,
            Incoming::SecurityDefinitionOptionParameter => 75,
            Incoming::SecurityDefinitionOptionParameterEnd => 76,
            Incoming::SoftDollarTiers => 77,
            Incoming::FamilyCodes => 78,
            Incoming::SymbolSamples => 79,
            Incoming::MarketDepthExchanges => 80,
            Incoming::TickRequestParameters => 81,
            Incoming::SmartComponents => 82,
            Incoming::NewsArticle => 83,
            Incoming::TickNews => 84,
            Incoming::NewsProviders => 85,
            Incoming::HistoricalNews => 86,
            Incoming::HistoricalNewsEnd => 87,
            Incoming::HeadTimestamp => 88,
            Incoming::HistogramData => 89,
            Incoming::HistoricalDataUpdate => 90,
            Incoming::RerouteMarketDataRequest => 91,
            Incoming::RerouteMarketDepthRequest => 92,
            Incoming::MarketRule => 93,
            Incoming::Pnl => 94,
            Incoming::PnlSingle => 95,
            Incoming::HistoricalTicks => 96,
            Incoming::HistoricalTicksBidAsk => 97,
            Incoming::HistoricalTicksLast => 98,
            Incoming::TickByTick => 99,
            Incoming::OrderBound => 100,
            Incoming::CompletedOrder => 101,
            Incoming::CompletedOrdersEnd => 102,
            Incoming::ReplaceFaEnd => 103,
            Incoming::WshMetaData => 104,
            Incoming::WshEventData => 105,
            Incoming::HistoricalSchedule => 106,
            Incoming::UserInfo => 107,
            Incoming::HistoricalDataEnd => 108,
            Incoming::CurrentTimeInMillis => 109,
            Incoming::ConfigResponse => 110,
            Incoming::UpdateConfigResponse => 111,
        }
    }

    /// Numeric protocol id.
    pub fn id(self) -> (r: i32)
        ensures
            r == self.wire_id(),
    {
        match self {
            Incoming::TickPrice => 1,
            Incoming::TickSize => 2,
            Incoming::OrderStatus => 3,
            Incoming::ErrorMessage => 4,
            Incoming::OpenOrder => 5,
            Incoming::AccountValue => 6,
            Incoming::PortfolioValue => 7,
            Incoming::AccountUpdateTime => 8,
            Incoming::NextValidId => 9,
            Incoming::ContractData => 10,
            Incoming::ExecutionData => 11,
            Incoming::MarketDepth => 12,
            Incoming::MarketDepthL2 => 13,
            Incoming::NewsBulletins => 14,
            Incoming::ManagedAccounts => 15,
            Incoming::ReceiveFa => 16,
            Incoming::HistoricalData => 17,
            Incoming::BondContractData => 18,
            Incoming::ScannerParameters => 19,
            Incoming::ScannerData => 20,
            Incoming::TickOptionComputation => 21,
            Incoming::TickGeneric => 45,
            Incoming::TickString => 46,
            Incoming::TickEfp => 47,
            Incoming::CurrentTime => 49,
            Incoming::RealTimeBars => 50,
            Incoming::ContractDataEnd => 52,
            Incoming::OpenOrderEnd => 53,
            Incoming::AccountDownloadEnd => 54,
            Incoming::ExecutionDataEnd => 55,
            Incoming::DeltaNeutralValidation => 56,
            Incoming::TickSnapshotEnd => 57,
            Incoming::MarketDataType => 58,
            Incoming::CommissionAndFeesReport => 59,
            Incoming::PositionData => 61,
            Incoming::PositionEnd => 62,
            Incoming::AccountSummary => 63,
            Incoming::AccountSummaryEnd => 64,
            Incoming::VerifyMessageApi => 65,
            Incoming::VerifyCompleted => 66,
            Incoming::DisplayGroupList => 67,
            Incoming::DisplayGroupUpdated => 68,
            Incoming::VerifyAndAuthMessageApi => 69,
            Incoming::VerifyAndAuthCompleted => 70,
            Incoming::PositionMulti => 71,
            Incoming::PositionMultiEnd => 72,
            Incoming::AccountUpdateMulti => 73,
            Incoming::AccountUpdateMultiEnd => 74,
            Incoming::SecurityDefinitionOptionParameter => 75,
            Incoming::SecurityDefinitionOptionParameterEnd => 76,
            Incoming::SoftDollarTiers => 77,
            Incoming::FamilyCodes => 78,
            Incoming::SymbolSamples => 79,
            Incoming::MarketDepthExchanges => 80,
            Incoming::TickRequestParameters => 81,
            Incoming::SmartComponents => 82,
            Incoming::NewsArticle => 83,
            Incoming::TickNews => 84,
            Incoming::NewsProviders => 85,
            Incoming::HistoricalNews => 86,
            Incoming::HistoricalNewsEnd => 87,
            Incoming::HeadTimestamp => 88,
            Incoming::HistogramData => 89,
            Incoming::HistoricalDataUpdate => 90,
            Incoming::RerouteMarketDataRequest => 91,
            Incoming::RerouteMarketDepthRequest => 92,
            Incoming::MarketRule => 93,
            Incoming::Pnl => 94,
            Incoming::PnlSingle => 95,
            Incoming::HistoricalTicks => 96,
            Incoming::HistoricalTicksBidAsk => 97,
            Incoming::HistoricalTicksLast => 98,
            Incoming::TickByTick => 99,
            Incoming::OrderBound => 100,
            Incoming::CompletedOrder => 101,
            Incoming::CompletedOrdersEnd => 102,
            Incoming::ReplaceFaEnd => 103,
            Incoming::WshMetaData => 104,
            Incoming::WshEventData => 105,
            Incoming::HistoricalSchedule => 106,
            Incoming::UserInfo => 107,
            Incoming::HistoricalDataEnd => 108,
            Incoming::CurrentTimeInMillis => 109,
            Incoming::ConfigResponse => 110,
            Incoming::UpdateConfigResponse => 111,
        }
    }
}

/// True for the numeric ids that name an incoming message.
pub open spec fn incoming_id_known(value: i32) -> bool {
    (1 <= value && value <= 21)
        || (45 <= value && value <= 47)
        || (49 <= value && value <= 50)
        || (52 <= value && value <= 59)
        || (61 <= value && value <= 111)
}

impl vstd::std_specs::convert::TryFromSpecImpl<i32> for Incoming {
    open spec fn obeys_try_from_spec() -> bool {
        true
    }

    open spec fn try_from_spec(v: i32) -> Result<Self, ()> {
        if incoming_id_known(v) {
            Ok(choose|e: Incoming| e.wire_id() == v)
        } else {
            Err(())
        }
    }
}

impl TryFrom<i32> for Incoming {
    type Error = ();

    /// The incoming message with numeric id `value`, or `Err(())` for an id that names none.
    fn try_from(value: i32) -> (r: Result<Self, Self::Error>)
        ensures
            r is Ok <==> incoming_id_known(value),
            r matches Ok(e) ==> e.wire_id() == value,
    {
        let r = match value {
            1 => Self::TickPrice,
            2 => Self::TickSize,
            3 => Self::OrderStatus,
            4 => Self::ErrorMessage,
            5 => Self::OpenOrder,
            6 => Self::AccountValue,
            7 => Self::PortfolioValue,
            8 => Self::AccountUpdateTime,
            9 => Self::NextValidId,
            10 => Self::ContractData,
            11 => Self::ExecutionData,
            12 => Self::MarketDepth,
            13 => Self::MarketDepthL2,
            14 => Self::NewsBulletins,
            15 => Self::ManagedAccounts,
            16 => Self::ReceiveFa,
            17 => Self::HistoricalData,
            18 => Self::BondContractData,
            19 => Self::ScannerParameters,
            20 => Self::ScannerData,
            21 => Self::TickOptionComputation,
            45 => Self::TickGeneric,
            46 => Self::TickString,
            47 => Self::TickEfp,
            49 => Self::CurrentTime,
            50 => Self::RealTimeBars,
            52 => Self::ContractDataEnd,
            53 => Self::OpenOrderEnd,
            54 => Self::AccountDownloadEnd,
            55 => Self::ExecutionDataEnd,
            56 => Self::DeltaNeutralValidation,
            57 => Self::TickSnapshotEnd,
            58 => Self::MarketDataType,
            59 => Self::CommissionAndFeesReport,
            61 => Self::PositionData,
            62 => Self::PositionEnd,
            63 => Self::AccountSummary,
            64 => Self::AccountSummaryEnd,
            65 => Self::VerifyMessageApi,
            66 => Self::VerifyCompleted,
            67 => Self::DisplayGroupList,
            68 => Self::DisplayGroupUpdated,
            69 => Self::VerifyAndAuthMessageApi,
            70 => Self::VerifyAndAuthCompleted,
            71 => Self::PositionMulti,
            72 => Self::PositionMultiEnd,
            73 => Self::AccountUpdateMulti,
            74 => Self::AccountUpdateMultiEnd,
            75 => Self::SecurityDefinitionOptionParameter,
            76 => Self::SecurityDefinitionOptionParameterEnd,
            77 => Self::SoftDollarTiers,
            78 => Self::FamilyCodes,
            79 => Self::SymbolSamples,
            80 => Self::MarketDepthExchanges,
            81 => Self::TickRequestParameters,
            82 => Self::SmartComponents,
            83 => Self::NewsArticle,
            84 => Self::TickNews,
            85 => Self::NewsProviders,
            86 => Self::HistoricalNews,
            87 => Self::HistoricalNewsEnd,
            88 => Self::HeadTimestamp,
            89 => Self::HistogramData,
            90 => Self::HistoricalDataUpdate,
            91 => Self::RerouteMarketDataRequest,
            92 => Self::RerouteMarketDepthRequest,
            93 => Self::MarketRule,
            94 => Self::Pnl,
            95 => Self::PnlSingle,
            96 => Self::HistoricalTicks,
            97 => Self::HistoricalTicksBidAsk,
            98 => Self::HistoricalTicksLast,
            99 => Self::TickByTick,
            100 => Self::OrderBound,
            101 => Self::CompletedOrder,
            102 => Self::CompletedOrdersEnd,
            103 => Self::ReplaceFaEnd,
            104 => Self::WshMetaData,
            105 => Self::WshEventData,
            106 => Self::HistoricalSchedule,
            107 => Self::UserInfo,
            108 => Self::HistoricalDataEnd,
            109 => Self::CurrentTimeInMillis,
            110 => Self::ConfigResponse,
            111 => Self::UpdateConfigResponse,
            _ => return Err(()),
        };
        proof {
            lemma_incoming_ids(r, choose|e: Incoming| e.wire_id() == value);
        }
        Ok(r)
    }
}

/// Outgoing TWS API message identifiers.
#[derive(Debug, Clone, Copy, PartialEq, Eq, Structural)]
pub enum Outgoing {
    /// Request market data.
    ReqMktData,
    /// Cancel market data.
    CancelMktData,
    /// Place order.
    PlaceOrder,
    /// Cancel order.
    CancelOrder,
    /// Request open orders.
    ReqOpenOrders,
    /// Request account data.
    ReqAcctData,
    /// Request executions.
    ReqExecutions,
    /// Request ids.
    ReqIds,
    /// Request contract data.
    ReqContractData,
    /// Request market depth.
    ReqMktDepth,
    /// Cancel market depth.
    CancelMktDepth,
    /// Request news bulletins.
    ReqNewsBulletins,
    /// Cancel news bulletins.
    CancelNewsBulletins,
    /// Set server log level.
    SetServerLogLevel,
    /// Request auto-open orders.
    ReqAutoOpenOrders,
    /// Request all open orders.
    ReqAllOpenOrders,
    /// Request managed accounts.
    ReqManagedAccounts,
    /// Request FA data.
    ReqFa,
    /// Replace FA data.
    ReplaceFa,
    /// Request historical data.
    ReqHistoricalData,
    /// Exercise options.
    ExerciseOptions,
    /// Request scanner subscription.
    ReqScannerSubscription,
    /// Cancel scanner subscription.
    CancelScannerSubscription,
    /// Request scanner parameters.
    ReqScannerParameters,
    /// Cancel historical data.
    CancelHistoricalData,
    /// Request current time.
    ReqCurrentTime,
    /// Request real-time bars.
    ReqRealTimeBars,
    /// Cancel real-time bars.
    CancelRealTimeBars,
    /// Request implied volatility calculation.
    ReqCalcImpliedVolat,
    /// Request option price calculation.
    ReqCalcOptionPrice,
    /// Cancel implied volatility calculation.
    CancelCalcImpliedVolat,
    /// Cancel option price calculation.
    CancelCalcOptionPrice,
    /// Request global cancel.
    ReqGlobalCancel,
    /// Request market data type.
    ReqMarketDataType,
    /// Request positions.
    ReqPositions,
    /// Request account summary.
    ReqAccountSummary,
    /// Cancel account summary.
    CancelAccountSummary,
    /// Cancel positions.
    CancelPositions,
    /// Verify request.
    VerifyRequest,
    /// Verify message.
    VerifyMessage,
    /// Query display groups.
    QueryDisplayGroups,
    /// Subscribe to group events.
    SubscribeToGroupEvents,
    /// Update display group.
    UpdateDisplayGroup,
    /// Unsubscribe from group events.
    UnsubscribeFromGroupEvents,
    /// Start API.
    StartApi,
    /// Verify and auth request.
    VerifyAndAuthRequest,
    /// Verify and auth message.
    VerifyAndAuthMessage,
    /// Request positions multi.
    ReqPositionsMulti,
    /// Cancel positions multi.
    CancelPositionsMulti,
    /// Request account updates multi.
    ReqAccountUpdatesMulti,
    /// Cancel account updates multi.
    CancelAccountUpdatesMulti,
    /// Request security definition option parameters.
    ReqSecDefOptParams,
    /// Request soft dollar tiers.
    ReqSoftDollarTiers,
    /// Request family codes.
    ReqFamilyCodes,
    /// Request matching symbols.
    ReqMatchingSymbols,
    /// Request market depth exchanges.
    ReqMktDepthExchanges,
    /// Request smart components.
    ReqSmartComponents,
    /// Request news article.
    ReqNewsArticle,
    /// Request news providers.
    ReqNewsProviders,
    /// Request historical news.
    ReqHistoricalNews,
    /// Request head timestamp.
    ReqHeadTimestamp,
    /// Request histogram data.
    ReqHistogramData,
    /// Cancel histogram data.
    CancelHistogramData,
    /// Cancel head timestamp.
    CancelHeadTimestamp,
    /// Request market rule.
    ReqMarketRule,
    /// Request PnL.
    ReqPnl,
    /// Cancel PnL.
    CancelPnl,
    /// Request PnL single.
    ReqPnlSingle,
    /// Cancel PnL single.
    CancelPnlSingle,
    /// Request historical ticks.
    ReqHistoricalTicks,
    /// Request tick-by-tick data.
    ReqTickByTickData,
    /// Cancel tick-by-tick data.
    CancelTickByTickData,
    /// Request completed orders.
    ReqCompletedOrders,
    /// Request WSH metadata.
    ReqWshMetaData,
    /// Cancel WSH metadata.
    CancelWshMetaData,
    /// Request WSH event data.
    ReqWshEventData,
    /// Cancel WSH event data.
    CancelWshEventData,
    /// Request user info.
    ReqUserInfo,
    /// Request current time in milliseconds.
    ReqCurrentTimeInMillis,
    /// Cancel contract data.
    CancelContractData,
    /// Cancel historical ticks.
    CancelHistoricalTicks,
    /// Request config.
    ReqConfig,
    /// Update config.
    UpdateConfig,
}

impl Outgoing {
    /// The numeric protocol id.
    pub open spec fn wire_id(self) -> i32 {
        match self {
            Outgoing::ReqMktData => 1,
            Outgoing::CancelMktData => 2,
            Outgoing::PlaceOrder => 3,
            Outgoing::CancelOrder => 4,
            Outgoing::ReqOpenOrders => 5,
            Outgoing::ReqAcctData => 6,
            Outgoing::ReqExecutions => 7,
            Outgoing::ReqIds => 8,
            Outgoing::ReqContractData => 9,
            Outgoing::ReqMktDepth => 10,
            Outgoing::CancelMktDepth => 11,
            Outgoing::ReqNewsBulletins => 12,
            Outgoing::CancelNewsBulletins => 13,
            Outgoing::SetServerLogLevel => 14,
            Outgoing::ReqAutoOpenOrders => 15,
            Outgoing::ReqAllOpenOrders => 16,
            Outgoing::ReqManagedAccounts => 17,
            Outgoing::ReqFa => 18,
            Outgoing::ReplaceFa => 19,
            Outgoing::ReqHistoricalData => 20,
            Outgoing::ExerciseOptions => 21,
            Outgoing::ReqScannerSubscription => 22,
            Outgoing::CancelScannerSubscription => 23,
            Outgoing::ReqScannerParameters => 24,
            Outgoing::CancelHistoricalData => 25,
            Outgoing::ReqCurrentTime => 49,
            Outgoing::ReqRealTimeBars => 50,
            Outgoing::CancelRealTimeBars => 51,
            Outgoing::ReqCalcImpliedVolat => 54,
            Outgoing::ReqCalcOptionPrice => 55,
            Outgoing::CancelCalcImpliedVolat => 56,
            Outgoing::CancelCalcOptionPrice => 57,
            Outgoing::ReqGlobalCancel => 58,
            Outgoing::ReqMarketDataType => 59,
            Outgoing::ReqPositions => 61,
            Outgoing::ReqAccountSummary => 62,
            Outgoing::CancelAccountSummary => 63,
            Outgoing::CancelPositions => 64,
            Outgoing::VerifyRequest => 65,
            Outgoing::VerifyMessage => 66,
            Outgoing::QueryDisplayGroups => 67,
            Outgoing::SubscribeToGroupEvents => 68,
            Outgoing::UpdateDisplayGroup => 69,
            Outgoing::UnsubscribeFromGroupEvents => 70,
            Outgoing::StartApi => 71,
            Outgoing::VerifyAndAuthRequest => 72,
            Outgoing::VerifyAndAuthMessage => 73,
            Outgoing::ReqPositionsMulti => 74,
            Outgoing::CancelPositionsMulti => 75,
            Outgoing::ReqAccountUpdatesMulti => 76,
            Outgoing::CancelAccountUpdatesMulti => 77,
            Outgoing::ReqSecDefOptParams => 78,
            Outgoing::ReqSoftDollarTiers => 79,
            Outgoing::ReqFamilyCodes => 80,
            Outgoing::ReqMatchingSymbols => 81,
            Outgoing::ReqMktDepthExchanges => 82,
            Outgoing::ReqSmartComponents => 83,
            Outgoing::ReqNewsArticle => 84,
            Outgoing::ReqNewsProviders => 85,
            Outgoing::ReqHistoricalNews => 86,
            Outgoing::ReqHeadTimestamp => 87,
            Outgoing::ReqHistogramData => 88,
            Outgoing::CancelHistogramData => 89,
            Outgoing::CancelHeadTimestamp => 90,
            Outgoing::ReqMarketRule => 91,
            Outgoing::ReqPnl => 92,
            Outgoing::CancelPnl => 93,
            Outgoing::ReqPnlSingle => 94,
            Outgoing::CancelPnlSingle => 95,
            Outgoing::ReqHistoricalTicks => 96,
            Outgoing::ReqTickByTickData => 97,
            Outgoing::CancelTickByTickData => 98,
            Outgoing::ReqCompletedOrders => 99,
            Outgoing::ReqWshMetaData => 100,
            Outgoing::CancelWshMetaData => 101,
            Outgoing::ReqWshEventData => 102,
            Outgoing::CancelWshEventData => 103,
            Outgoing::ReqUserInfo => 104,
            Outgoing::ReqCurrentTimeInMillis => 105,
            Outgoing::CancelContractData => 106,
            Outgoing::CancelHistoricalTicks => 107,
            Outgoing::ReqConfig => 108,
            Outgoing::UpdateConfig => 109,
        }
    }

    /// Numeric protocol id.
    pub fn id(self) -> (r: i32)
        ensures
            r == self.wire_id(),
    {
        match self {
            Outgoing::ReqMktData => 1,
            Outgoing::CancelMktData => 2,
            Outgoing::PlaceOrder => 3,
            Outgoing::CancelOrder => 4,
            Outgoing::ReqOpenOrders => 5,
            Outgoing::ReqAcctData => 6,
            Outgoing::ReqExecutions => 7,
            Outgoing::ReqIds => 8,
            Outgoing::ReqContractData => 9,
            Outgoing::ReqMktDepth => 10,
            Outgoing::CancelMktDepth => 11,
            Outgoing::ReqNewsBulletins => 12,
            Outgoing::CancelNewsBulletins => 13,
            Outgoing::SetServerLogLevel => 14,
            Outgoing::ReqAutoOpenOrders => 15,
            Outgoing::ReqAllOpenOrders => 16,
            Outgoing::ReqManagedAccounts => 17,
            Outgoing::ReqFa => 18,
            Outgoing::ReplaceFa => 19,
            Outgoing::ReqHistoricalData => 20,
            Outgoing::ExerciseOptions => 21,
            Outgoing::ReqScannerSubscription => 22,
            Outgoing::CancelScannerSubscription => 23,
            Outgoing::ReqScannerParameters => 24,
            Outgoing::CancelHistoricalData => 25,
            Outgoing::ReqCurrentTime => 49,
            Outgoing::ReqRealTimeBars => 50,
            Outgoing::CancelRealTimeBars => 51,
            Outgoing::ReqCalcImpliedVolat => 54,
            Outgoing::ReqCalcOptionPrice => 55,
            Outgoing::CancelCalcImpliedVolat => 56,
            Outgoing::CancelCalcOptionPrice => 57,
            Outgoing::ReqGlobalCancel => 58,
            Outgoing::ReqMarketDataType => 59,
            Outgoing::ReqPositions => 61,
            Outgoing::ReqAccountSummary => 62,
            Outgoing::CancelAccountSummary => 63,
            Outgoing::CancelPositions => 64,
            Outgoing::VerifyRequest => 65,
            Outgoing::VerifyMessage => 66,
            Outgoing::QueryDisplayGroups => 67,
            Outgoing::SubscribeToGroupEvents => 68,
            Outgoing::UpdateDisplayGroup => 69,
            Outgoing::UnsubscribeFromGroupEvents => 70,
            Outgoing::StartApi => 71,
            Outgoing::VerifyAndAuthRequest => 72,
            Outgoing::VerifyAndAuthMessage => 73,
            Outgoing::ReqPositionsMulti => 74,
            Outgoing::CancelPositionsMulti => 75,
            Outgoing::ReqAccountUpdatesMulti => 76,
            Outgoing::CancelAccountUpdatesMulti => 77,
            Outgoing::ReqSecDefOptParams => 78,
            Outgoing::ReqSoftDollarTiers => 79,
            Outgoing::ReqFamilyCodes => 80,
            Outgoing::ReqMatchingSymbols => 81,
            Outgoing::ReqMktDepthExchanges => 82,
            Outgoing::ReqSmartComponents => 83,
            Outgoing::ReqNewsArticle => 84,
            Outgoing::ReqNewsProviders => 85,
            Outgoing::ReqHistoricalNews => 86,
            Outgoing::ReqHeadTimestamp => 87,
            Outgoing::ReqHistogramData => 88,
            Outgoing::CancelHistogramData => 89,
            Outgoing::CancelHeadTimestamp => 90,
            Outgoing::ReqMarketRule => 91,
            Outgoing::ReqPnl => 92,
            Outgoing::CancelPnl => 93,
            Outgoing::ReqPnlSingle => 94,
            Outgoing::CancelPnlSingle => 95,
            Outgoing::ReqHistoricalTicks => 96,
            Outgoing::ReqTickByTickData => 97,
            Outgoing::CancelTickByTickData => 98,
            Outgoing::ReqCompletedOrders => 99,
            Outgoing::ReqWshMetaData => 100,
            Outgoing::CancelWshMetaData => 101,
            Outgoing::ReqWshEventData => 102,
            Outgoing::CancelWshEventData => 103,
            Outgoing::ReqUserInfo => 104,
            Outgoing::ReqCurrentTimeInMillis => 105,
            Outgoing::CancelContractData => 106,
            Outgoing::CancelHistoricalTicks => 107,
            Outgoing::ReqConfig => 108,
            Outgoing::UpdateConfig => 109,
        }
    }

    /// Numeric protobuf protocol id.
    pub fn protobuf_id(self) -> (r: i32)
        ensures
            r == self.wire_id() + PROTOBUF_MSG_ID,
    {
        self.id() + PROTOBUF_MSG_ID
    }
}

/// True for the numeric ids that name an outgoing message.
pub open spec fn outgoing_id_known(value: i32) -> bool {
    (1 <= value && value <= 25)
        || (49 <= value && value <= 51)
        || (54 <= value && value <= 59)
        || (61 <= value && value <= 109)
}

/// Every incoming message has a known id, and no two incoming messages share one.
pub proof fn lemma_incoming_ids(a: Incoming, b: Incoming)
    ensures
        incoming_id_known(a.wire_id()),
        a.wire_id() == b.wire_id() ==> a == b,
{
}

/// Every outgoing message has a known id below the protobuf offset, and no two outgoing messages
/// share one.
pub proof fn lemma_outgoing_ids(a: Outgoing, b: Outgoing)
    ensures
        outgoing_id_known(a.wire_id()),
        0 < a.wire_id() < PROTOBUF_MSG_ID,
        a.wire_id() == b.wire_id() ==> a == b,
{
}

/// Every known incoming message, in the order of its id.
pub open spec fn all_incoming() -> Seq<Incoming> {
    seq![
        Incoming::TickPrice,
        Incoming::TickSize,
        Incoming::OrderStatus,
        Incoming::ErrorMessage,
        Incoming::OpenOrder,
        Incoming::AccountValue,
        Incoming::PortfolioValue,
        Incoming::AccountUpdateTime,
        Incoming::NextValidId,
        Incoming::ContractData,
        Incoming::ExecutionData,
        Incoming::MarketDepth,
        Incoming::MarketDepthL2,
        Incoming::NewsBulletins,
        Incoming::ManagedAccounts,
        Incoming::ReceiveFa,
        Incoming::HistoricalData,
        Incoming::BondContractData,
        Incoming::ScannerParameters,
        Incoming::ScannerData,
        Incoming::TickOptionComputation,
        Incoming::TickGeneric,
        Incoming::TickString,
        Incoming::TickEfp,
        Incoming::CurrentTime,
        Incoming::RealTimeBars,
        Incoming::ContractDataEnd,
        Incoming::OpenOrderEnd,
        Incoming::AccountDownloadEnd,
        Incoming::ExecutionDataEnd,
        Incoming::DeltaNeutralValidation,
        Incoming::TickSnapshotEnd,
        Incoming::MarketDataType,
        Incoming::CommissionAndFeesReport,
        Incoming::PositionData,
        Incoming::PositionEnd,
        Incoming::AccountSummary,
        Incoming::AccountSummaryEnd,
        Incoming::VerifyMessageApi,
        Incoming::VerifyCompleted,
        Incoming::DisplayGroupList,
        Incoming::DisplayGroupUpdated,
        Incoming::VerifyAndAuthMessageApi,
        Incoming::VerifyAndAuthCompleted,
        Incoming::PositionMulti,
        Incoming::PositionMultiEnd,
        Incoming::AccountUpdateMulti,
        Incoming::AccountUpdateMultiEnd,
        Incoming::SecurityDefinitionOptionParameter,
        Incoming::SecurityDefinitionOptionParameterEnd,
        Incoming::SoftDollarTiers,
        Incoming::FamilyCodes,
        Incoming::SymbolSamples,
        Incoming::MarketDepthExchanges,
        Incoming::TickRequestParameters,
        Incoming::SmartComponents,
        Incoming::NewsArticle,
        Incoming::TickNews,
        Incoming::NewsProviders,
        Incoming::HistoricalNews,
        Incoming::HistoricalNewsEnd,
        Incoming::HeadTimestamp,
        Incoming::HistogramData,
        Incoming::HistoricalDataUpdate,
        Incoming::RerouteMarketDataRequest,
        Incoming::RerouteMarketDepthRequest,
        Incoming::MarketRule,
        Incoming::Pnl,
        Incoming::PnlSingle,
        Incoming::HistoricalTicks,
        Incoming::HistoricalTicksBidAsk,
        Incoming::HistoricalTicksLast,
        Incoming::TickByTick,
        Incoming::OrderBound,
        Incoming::CompletedOrder,
        Incoming::CompletedOrdersEnd,
        Incoming::ReplaceFaEnd,
        Incoming::WshMetaData,
        Incoming::WshEventData,
        Incoming::HistoricalSchedule,
        Incoming::UserInfo,
        Incoming::HistoricalDataEnd,
        Incoming::CurrentTimeInMillis,
        Incoming::ConfigResponse,
        Incoming::UpdateConfigResponse,
    ]
}

impl Incoming {
    /// All known incoming TWS API messages, in the order of their ids.
    #[verifier::spinoff_prover]
    #[verifier::rlimit(100)]
    pub fn all() -> (r: Vec<Incoming>)
        ensures
            r@ == all_incoming(),
    {
        let mut v: Vec<Incoming> = Vec::new();
        v.push(Incoming::TickPrice);
        v.push(Incoming::TickSize);
        v.push(Incoming::OrderStatus);
        v.push(Incoming::ErrorMessage);
        v.push(Incoming::OpenOrder);
        v.push(Incoming::AccountValue);
        v.push(Incoming::PortfolioValue);
        v.push(Incoming::AccountUpdateTime);
        v.push(Incoming::NextValidId);
        v.push(Incoming::ContractData);
        v.push(Incoming::ExecutionData);
        v.push(Incoming::MarketDepth);
        v.push(Incoming::MarketDepthL2);
        v.push(Incoming::NewsBulletins);
        v.push(Incoming::ManagedAccounts);
        v.push(Incoming::ReceiveFa);
        v.push(Incoming::HistoricalData);
        v.push(Incoming::BondContractData);
        v.push(Incoming::ScannerParameters);
        v.push(Incoming::ScannerData);
        v.push(Incoming::TickOptionComputation);
        v.push(Incoming::TickGeneric);
        v.push(Incoming::TickString);
        v.push(Incoming::TickEfp);
        v.push(Incoming::CurrentTime);
        v.push(Incoming::RealTimeBars);
        v.push(Incoming::ContractDataEnd);
        v.push(Incoming::OpenOrderEnd);
        v.push(Incoming::AccountDownloadEnd);
        v.push(Incoming::ExecutionDataEnd);
        v.push(Incoming::DeltaNeutralValidation);
        v.push(Incoming::TickSnapshotEnd);
        v.push(Incoming::MarketDataType);
        v.push(Incoming::CommissionAndFeesReport);
        v.push(Incoming::PositionData);
        v.push(Incoming::PositionEnd);
        v.push(Incoming::AccountSummary);
        v.push(Incoming::AccountSummaryEnd);
        v.push(Incoming::VerifyMessageApi);
        v.push(Incoming::VerifyCompleted);
        v.push(Incoming::DisplayGroupList);
        v.push(Incoming::DisplayGroupUpdated);
        v.push(Incoming::VerifyAndAuthMessageApi);
        v.push(Incoming::VerifyAndAuthCompleted);
        v.push(Incoming::PositionMulti);
        v.push(Incoming::PositionMultiEnd);
        v.push(Incoming::AccountUpdateMulti);
        v.push(Incoming::AccountUpdateMultiEnd);
        v.push(Incoming::SecurityDefinitionOptionParameter);
        v.push(Incoming::SecurityDefinitionOptionParameterEnd);
        v.push(Incoming::SoftDollarTiers);
        v.push(Incoming::FamilyCodes);
        v.push(Incoming::SymbolSamples);
        v.push(Incoming::MarketDepthExchanges);
        v.push(Incoming::TickRequestParameters);
        v.push(Incoming::SmartComponents);
        v.push(Incoming::NewsArticle);
        v.push(Incoming::TickNews);
        v.push(Incoming::NewsProviders);
        v.push(Incoming::HistoricalNews);
        v.push(Incoming::HistoricalNewsEnd);
        v.push(Incoming::HeadTimestamp);
        v.push(Incoming::HistogramData);
        v.push(Incoming::HistoricalDataUpdate);
        v.push(Incoming::RerouteMarketDataRequest);
        v.push(Incoming::RerouteMarketDepthRequest);
        v.push(Incoming::MarketRule);
        v.push(Incoming::Pnl);
        v.push(Incoming::PnlSingle);
        v.push(Incoming::HistoricalTicks);
        v.push(Incoming::HistoricalTicksBidAsk);
        v.push(Incoming::HistoricalTicksLast);
        v.push(Incoming::TickByTick);
        v.push(Incoming::OrderBound);
        v.push(Incoming::CompletedOrder);
        v.push(Incoming::CompletedOrdersEnd);
        v.push(Incoming::ReplaceFaEnd);
        v.push(Incoming::WshMetaData);
        v.push(Incoming::WshEventData);
        v.push(Incoming::HistoricalSchedule);
        v.push(Incoming::UserInfo);
        v.push(Incoming::HistoricalDataEnd);
        v.push(Incoming::CurrentTimeInMillis);
        v.push(Incoming::ConfigResponse);
        v.push(Incoming::UpdateConfigResponse);
        assert(v@ =~= all_incoming());
        v
    }
}

/// The list of known incoming messages holds every one of them.
pub proof fn lemma_all_incoming(e: Incoming)
    ensures
        all_incoming().contains(e),
{
    match e {
        Incoming::TickPrice => assert(all_incoming()[0] == e),
        Incoming::TickSize => assert(all_incoming()[1] == e),
        Incoming::OrderStatus => assert(all_incoming()[2] == e),
        Incoming::ErrorMessage => assert(all_incoming()[3] == e),
        Incoming::OpenOrder => assert(all_incoming()[4] == e),
        Incoming::AccountValue => assert(all_incoming()[5] == e),
        Incoming::PortfolioValue => assert(all_incoming()[6] == e),
        Incoming::AccountUpdateTime => assert(all_incoming()[7] == e),
        Incoming::NextValidId => assert(all_incoming()[8] == e),
        Incoming::ContractData => assert(all_incoming()[9] == e),
        Incoming::ExecutionData => assert(all_incoming()[10] == e),
        Incoming::MarketDepth => assert(all_incoming()[11] == e),
        Incoming::MarketDepthL2 => assert(all_incoming()[12] == e),
        Incoming::NewsBulletins => assert(all_incoming()[13] == e),
        Incoming::ManagedAccounts => assert(all_incoming()[14] == e),
        Incoming::ReceiveFa => assert(all_incoming()[15] == e),
        Incoming::HistoricalData => assert(all_incoming()[16] == e),
        Incoming::BondContractData => assert(all_incoming()[17] == e),
        Incoming::ScannerParameters => assert(all_incoming()[18] == e),
        Incoming::ScannerData => assert(all_incoming()[19] == e),
        Incoming::TickOptionComputation => assert(all_incoming()[20] == e),
        Incoming::TickGeneric => assert(all_incoming()[21] == e),
        Incoming::TickString => assert(all_incoming()[22] == e),
        Incoming::TickEfp => assert(all_incoming()[23] == e),
        Incoming::CurrentTime => assert(all_incoming()[24] == e),
        Incoming::RealTimeBars => assert(all_incoming()[25] == e),
        Incoming::ContractDataEnd => assert(all_incoming()[26] == e),
        Incoming::OpenOrderEnd => assert(all_incoming()[27] == e),
        Incoming::AccountDownloadEnd => assert(all_incoming()[28] == e),
        Incoming::ExecutionDataEnd => assert(all_incoming()[29] == e),
        Incoming::DeltaNeutralValidation => assert(all_incoming()[30] == e),
        Incoming::TickSnapshotEnd => assert(all_incoming()[31] == e),
        Incoming::MarketDataType => assert(all_incoming()[32] == e),
        Incoming::CommissionAndFeesReport => assert(all_incoming()[33] == e),
        Incoming::PositionData => assert(all_incoming()[34] == e),
        Incoming::PositionEnd => assert(all_incoming()[35] == e),
        Incoming::AccountSummary => assert(all_incoming()[36] == e),
        Incoming::AccountSummaryEnd => assert(all_incoming()[37] == e),
        Incoming::VerifyMessageApi => assert(all_incoming()[38] == e),
        Incoming::VerifyCompleted => assert(all_incoming()[39] == e),
        Incoming::DisplayGroupList => assert(all_incoming()[40] == e),
        Incoming::DisplayGroupUpdated => assert(all_incoming()[41] == e),
        Incoming::VerifyAndAuthMessageApi => assert(all_incoming()[42] == e),
        Incoming::VerifyAndAuthCompleted => assert(all_incoming()[43] == e),
        Incoming::PositionMulti => assert(all_incoming()[44] == e),
        Incoming::PositionMultiEnd => assert(all_incoming()[45] == e),
        Incoming::AccountUpdateMulti => assert(all_incoming()[46] == e),
        Incoming::AccountUpdateMultiEnd => assert(all_incoming()[47] == e),
        Incoming::SecurityDefinitionOptionParameter => assert(all_incoming()[48] == e),
        Incoming::SecurityDefinitionOptionParameterEnd => assert(all_incoming()[49] == e),
        Incoming::SoftDollarTiers => assert(all_incoming()[50] == e),
        Incoming::FamilyCodes => assert(all_incoming()[51] == e),
        Incoming::SymbolSamples => assert(all_incoming()[52] == e),
        Incoming::MarketDepthExchanges => assert(all_incoming()[53] == e),
        Incoming::TickRequestParameters => assert(all_incoming()[54] == e),
        Incoming::SmartComponents => assert(all_incoming()[55] == e),
        Incoming::NewsArticle => assert(all_incoming()[56] == e),
        Incoming::TickNews => assert(all_incoming()[57] == e),
        Incoming::NewsProviders => assert(all_incoming()[58] == e),
        Incoming::HistoricalNews => assert(all_incoming()[59] == e),
        Incoming::HistoricalNewsEnd => assert(all_incoming()[60] == e),
        Incoming::HeadTimestamp => assert(all_incoming()[61] == e),
        Incoming::HistogramData => assert(all_incoming()[62] == e),
        Incoming::HistoricalDataUpdate => assert(all_incoming()[63] == e),
        Incoming::RerouteMarketDataRequest => assert(all_incoming()[64] == e),
        Incoming::RerouteMarketDepthRequest => assert(all_incoming()[65] == e),
        Incoming::MarketRule => assert(all_incoming()[66] == e),
        Incoming::Pnl => assert(all_incoming()[67] == e),
        Incoming::PnlSingle => assert(all_incoming()[68] == e),
        Incoming::HistoricalTicks => assert(all_incoming()[69] == e),
        Incoming::HistoricalTicksBidAsk => assert(all_incoming()[70] == e),
        Incoming::HistoricalTicksLast => assert(all_incoming()[71] == e),
        Incoming::TickByTick => assert(all_incoming()[72] == e),
        Incoming::OrderBound => assert(all_incoming()[73] == e),
        Incoming::CompletedOrder => assert(all_incoming()[74] == e),
        Incoming::CompletedOrdersEnd => assert(all_incoming()[75] == e),
        Incoming::ReplaceFaEnd => assert(all_incoming()[76] == e),
        Incoming::WshMetaData => assert(all_incoming()[77] == e),
        Incoming::WshEventData => assert(all_incoming()[78] == e),
        Incoming::HistoricalSchedule => assert(all_incoming()[79] == e),
        Incoming::UserInfo => assert(all_incoming()[80] == e),
        Incoming::HistoricalDataEnd => assert(all_incoming()[81] == e),
        Incoming::CurrentTimeInMillis => assert(all_incoming()[82] == e),
        Incoming::ConfigResponse => assert(all_incoming()[83] == e),
        Incoming::UpdateConfigResponse => assert(all_incoming()[84] == e),
    }
}

} // verus!
