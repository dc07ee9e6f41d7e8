//! Protocol constants.
use vstd::prelude::*;

pub mod news;

verus! {

/// TWS API's sentinel for "no valid request/order id".
pub const NO_VALID_ID: i32 = -1;

/// Maximum message length used by the official client: 16 MiB minus one byte.
pub const MAX_MSG_LEN: usize = 0xFF_FFFF;

/// TWS API integer unset sentinel.
pub const UNSET_INTEGER: i32 = i32::MAX;

/// TWS API long unset sentinel.
pub const UNSET_LONG: i64 = i64::MAX;

/// String representation used by the official client for positive infinity.
pub const INFINITY_STR: &'static str = "Infinity";

/// Standard tags accepted by `reqAccountSummary`.
pub struct AccountSummaryTags;

impl AccountSummaryTags {
    pub const ACCOUNT_TYPE: &'static str = "AccountType";
    pub const NET_LIQUIDATION: &'static str = "NetLiquidation";
    pub const TOTAL_CASH_VALUE: &'static str = "TotalCashValue";
    pub const SETTLED_CASH: &'static str = "SettledCash";
    pub const ACCRUED_CASH: &'static str = "AccruedCash";
    pub const BUYING_POWER: &'static str = "BuyingPower";
    pub const EQUITY_WITH_LOAN_VALUE: &'static str = "EquityWithLoanValue";
    pub const PREVIOUS_DAY_EQUITY_WITH_LOAN_VALUE: &'static str = "PreviousDayEquityWithLoanValue";
    pub const GROSS_POSITION_VALUE: &'static str = "GrossPositionValue";
    pub const REQ_T_EQUITY: &'static str = "ReqTEquity";
    pub const REQ_T_MARGIN: &'static str = "ReqTMargin";
    pub const SMA: &'static str = "SMA";
    pub const INIT_MARGIN_REQ: &'static str = "InitMarginReq";
    pub const MAINT_MARGIN_REQ: &'static str = "MaintMarginReq";
    pub const AVAILABLE_FUNDS: &'static str = "AvailableFunds";
    pub const EXCESS_LIQUIDITY: &'static str = "ExcessLiquidity";
    pub const CUSHION: &'static str = "Cushion";
    pub const FULL_INIT_MARGIN_REQ: &'static str = "FullInitMarginReq";
    pub const FULL_MAINT_MARGIN_REQ: &'static str = "FullMaintMarginReq";
    pub const FULL_AVAILABLE_FUNDS: &'static str = "FullAvailableFunds";
    pub const FULL_EXCESS_LIQUIDITY: &'static str = "FullExcessLiquidity";
    pub const LOOK_AHEAD_NEXT_CHANGE: &'static str = "LookAheadNextChange";
    pub const LOOK_AHEAD_INIT_MARGIN_REQ: &'static str = "LookAheadInitMarginReq";
    pub const LOOK_AHEAD_MAINT_MARGIN_REQ: &'static str = "LookAheadMaintMarginReq";
    pub const LOOK_AHEAD_AVAILABLE_FUNDS: &'static str = "LookAheadAvailableFunds";
    pub const LOOK_AHEAD_EXCESS_LIQUIDITY: &'static str = "LookAheadExcessLiquidity";
    pub const HIGHEST_SEVERITY: &'static str = "HighestSeverity";
    pub const DAY_TRADES_REMAINING: &'static str = "DayTradesRemaining";
    pub const LEVERAGE: &'static str = "Leverage";
    /// All tags in the order used by the official Python client.
    pub const ALL: &'static str = "AccountType,NetLiquidation,TotalCashValue,SettledCash,AccruedCash,BuyingPower,EquityWithLoanValue,PreviousDayEquityWithLoanValue,GrossPositionValue,ReqTEquity,ReqTMargin,SMA,InitMarginReq,MaintMarginReq,AvailableFunds,ExcessLiquidity,Cushion,FullInitMarginReq,FullMaintMarginReq,FullAvailableFunds,FullExcessLiquidity,LookAheadNextChange,LookAheadInitMarginReq,LookAheadMaintMarginReq,LookAheadAvailableFunds,LookAheadExcessLiquidity,HighestSeverity,DayTradesRemaining,Leverage";
}

/// TWS error code and its standard description prefix.
#[derive(Debug, Clone, Copy, PartialEq, Eq)]
pub struct ErrorCode {
    /// Numeric code.
    pub code: i32,
    /// Standard description prefix.
    pub message: &'static str,
}

/// The standard description of each client-side error code the catalog holds.
pub open spec fn error_message(code: i32) -> Option<Seq<char>> {
    match code {
        501 => Some("Already connected."@),
        502 => Some("Couldn't connect to TWS."@),
        503 => Some("The TWS is out of date and must be upgraded."@),
        504 => Some("Not connected"@),
        505 => Some("Fatal Error: Unknown message id."@),
        507 => Some("Bad message length"@),
        508 => Some("Bad message"@),
        510 => Some("Request Market Data Sending Error - "@),
        511 => Some("Cancel Market Data Sending Error - "@),
        512 => Some("Order Sending Error - "@),
        513 => Some("Account Update Request Sending Error - "@),
        514 => Some("Request For Executions Sending Error - "@),
        515 => Some("Cancel Order Sending Error - "@),
        516 => Some("Request Open Order Sending Error - "@),
        518 => Some("Request Contract Data Sending Error - "@),
        519 => Some("Request Market Depth Sending Error - "@),
        520 => Some("Failed to create socket"@),
        521 => Some("Set Server Log Level Sending Error - "@),
        522 => Some("FA Information Request Sending Error - "@),
        523 => Some("FA Information Replace Sending Error - "@),
        524 => Some("Request Scanner Subscription Sending Error - "@),
        525 => Some("Cancel Scanner Subscription Sending Error - "@),
        526 => Some("Request Scanner Parameter Sending Error - "@),
        527 => Some("Request Historical Data Sending Error - "@),
        528 => Some("Request Historical Data Sending Error - "@),
        529 => Some("Request Real-time Bar Data Sending Error - "@),
        530 => Some("Cancel Real-time Bar Data Sending Error - "@),
        531 => Some("Request Current Time Sending Error - "@),
        534 => Some("Request Calculate Implied Volatility Sending Error - "@),
        535 => Some("Request Calculate Option Price Sending Error - "@),
        536 => Some("Cancel Calculate Implied Volatility Sending Error - "@),
        537 => Some("Cancel Calculate Option Price Sending Error - "@),
        538 => Some("Request Global Cancel Sending Error - "@),
        539 => Some("Request Market Data Type Sending Error - "@),
        540 => Some("Request Positions Sending Error - "@),
        541 => Some("Cancel Positions Sending Error - "@),
        542 => Some("Request Account Data Sending Error - "@),
        543 => Some("Cancel Account Data Sending Error - "@),
        544 => Some("Verify Request Sending Error - "@),
        545 => Some("Verify Message Sending Error - "@),
        546 => Some("Query Display Groups Sending Error - "@),
        547 => Some("Subscribe To Group Events Sending Error - "@),
        548 => Some("Update Display Group Sending Error - "@),
        549 => Some("Unsubscribe From Group Events Sending Error - "@),
        550 => Some("Start API Sending Error - "@),
        551 => Some("Verify And Auth Request Sending Error - "@),
        552 => Some("Verify And Auth Message Sending Error - "@),
        553 => Some("Request Positions Multi Sending Error - "@),
        554 => Some("Cancel Positions Multi Sending Error - "@),
        555 => Some("Request Account Updates Multi Sending Error - "@),
        556 => Some("Cancel Account Updates Multi Sending Error - "@),
        557 => Some("Request Security Definition Option Params Sending Error - "@),
        558 => Some("Request Soft Dollar Tiers Sending Error - "@),
        559 => Some("Request Family Codes Sending Error - "@),
        560 => Some("Request Matching Symbols Sending Error - "@),
        561 => Some("Request Market Depth Exchanges Sending Error - "@),
        562 => Some("Request Smart Components Sending Error - "@),
        563 => Some("Request News Providers Sending Error - "@),
        564 => Some("Request News Article Sending Error - "@),
        565 => Some("Request Historical News Sending Error - "@),
        566 => Some("Request Head Time Stamp Sending Error - "@),
        567 => Some("Request Histogram Data Sending Error - "@),
        568 => Some("Cancel Request Histogram Data Sending Error - "@),
        569 => Some("Cancel Head Time Stamp Sending Error - "@),
        570 => Some("Request Market Rule Sending Error - "@),
        571 => Some("Request PnL Sending Error - "@),
        572 => Some("Cancel PnL Sending Error - "@),
        573 => Some("Request PnL Single Error - "@),
        574 => Some("Cancel PnL Single Sending Error - "@),
        575 => Some("Request Historical Ticks Error - "@),
        576 => Some("Request Tick-By-Tick Data Sending Error - "@),
        577 => Some("Cancel Tick-By-Tick Data Sending Error - "@),
        578 => Some("Request Completed Orders Sending Error - "@),
        579 => Some("Invalid symbol in string - "@),
        580 => Some("Request WSH Meta Data Sending Error - "@),
        581 => Some("Cancel WSH Meta Data Sending Error - "@),
        582 => Some("Request WSH Event Data Sending Error - "@),
        583 => Some("Cancel WSH Event Data Sending Error - "@),
        584 => Some("Request User Info Sending Error - "@),
        585 => Some("FA Profile is not supported anymore, use FA Group instead - "@),
        587 => Some("Request Current Time In Millis Sending Error - "@),
        588 => Some("Error encoding protobuf - "@),
        589 => Some("Cancel Market Depth Sending Error - "@),
        590 => Some("Cancel Contract Data Sending Error - "@),
        591 => Some("Cancel Historical Ticks Sending Error - "@),
        592 => Some("Request Config Sending Error - "@),
        593 => Some("Update Config Request Sending Error - "@),
        _ => None,
    }
}

impl ErrorCode {
    /// Error code 510.
    pub fn fail_send_req_mkt_data() -> (r: Self)
        ensures
            r.code == 510,
            r.message@ == "Request Market Data Sending Error - "@,
    {
        Self { code: 510, message: "Request Market Data Sending Error - " }
    }

    /// Error code 511.
    pub fn fail_send_can_mkt_data() -> (r: Self)
        ensures
            r.code == 511,
            r.message@ == "Cancel Market Data Sending Error - "@,
    {
        Self { code: 511, message: "Cancel Market Data Sending Error - " }
    }

    /// Error code 512.
    pub fn fail_send_order() -> (r: Self)
        ensures
            r.code == 512,
            r.message@ == "Order Sending Error - "@,
    {
        Self { code: 512, message: "Order Sending Error - " }
    }

    /// Error code 513.
    pub fn fail_send_cancel_order() -> (r: Self)
        ensures
            r.code == 513,
            r.message@ == "Cancel Order Sending Error - "@,
    {
        Self { code: 513, message: "Cancel Order Sending Error - " }
    }

    /// Error code 518.
    pub fn fail_send_req_contract_data() -> (r: Self)
        ensures
            r.code == 518,
            r.message@ == "Request Contract Data Sending Error - "@,
    {
        Self { code: 518, message: "Request Contract Data Sending Error - " }
    }

    /// Error code 527.
    pub fn fail_send_req_historical_data() -> (r: Self)
        ensures
            r.code == 527,
            r.message@ == "Request Historical Data Sending Error - "@,
    {
        Self { code: 527, message: "Request Historical Data Sending Error - " }
    }

    /// Error code 528.
    pub fn fail_send_can_historical_data() -> (r: Self)
        ensures
            r.code == 528,
            r.message@ == "Request Historical Data Sending Error - "@,
    {
        Self { code: 528, message: "Request Historical Data Sending Error - " }
    }

    /// Error code 529.
    pub fn fail_send_req_real_time_bars() -> (r: Self)
        ensures
            r.code == 529,
            r.message@ == "Request Real-time Bar Data Sending Error - "@,
    {
        Self { code: 529, message: "Request Real-time Bar Data Sending Error - " }
    }

    /// Error code 530.
    pub fn fail_send_can_real_time_bars() -> (r: Self)
        ensures
            r.code == 530,
            r.message@ == "Cancel Real-time Bar Data Sending Error - "@,
    {
        Self { code: 530, message: "Cancel Real-time Bar Data Sending Error - " }
    }

    /// Error code 531.
    pub fn fail_send_req_current_time() -> (r: Self)
        ensures
            r.code == 531,
            r.message@ == "Request Current Time Sending Error - "@,
    {
        Self { code: 531, message: "Request Current Time Sending Error - " }
    }

    /// Error code 540.
    pub fn fail_send_req_positions() -> (r: Self)
        ensures
            r.code == 540,
            r.message@ == "Request Positions Sending Error - "@,
    {
        Self { code: 540, message: "Request Positions Sending Error - " }
    }

    /// Error code 541.
    pub fn fail_send_can_positions() -> (r: Self)
        ensures
            r.code == 541,
            r.message@ == "Cancel Positions Sending Error - "@,
    {
        Self { code: 541, message: "Cancel Positions Sending Error - " }
    }

    /// Error code 542.
    pub fn fail_send_req_account_data() -> (r: Self)
        ensures
            r.code == 542,
            r.message@ == "Request Account Data Sending Error - "@,
    {
        Self { code: 542, message: "Request Account Data Sending Error - " }
    }

    /// Error code 579.
    pub fn invalid_symbol() -> (r: Self)
        ensures
            r.code == 579,
            r.message@ == "Invalid symbol in string - "@,
    {
        Self { code: 579, message: "Invalid symbol in string - " }
    }

    /// Error code 588.
    pub fn error_encoding_protobuf() -> (r: Self)
        ensures
            r.code == 588,
            r.message@ == "Error encoding protobuf - "@,
    {
        Self { code: 588, message: "Error encoding protobuf - " }
    }

    /// Looks up a client-side error in the catalog of the official client.
    pub fn from_code(code: i32) -> (r: Option<Self>)
        ensures
            r is Some <==> error_message(code) is Some,
            r matches Some(e) ==> e.code == code && Some(e.message@) == error_message(code),
    {
        let message: &'static str = match code {
            501 => "Already connected.",
            502 => "Couldn't connect to TWS.",
            503 => "The TWS is out of date and must be upgraded.",
            504 => "Not connected",
            505 => "Fatal Error: Unknown message id.",
            507 => "Bad message length",
            508 => "Bad message",
            510 => "Request Market Data Sending Error - ",
            511 => "Cancel Market Data Sending Error - ",
            512 => "Order Sending Error - ",
            513 => "Account Update Request Sending Error - ",
            514 => "Request For Executions Sending Error - ",
            515 => "Cancel Order Sending Error - ",
            516 => "Request Open Order Sending Error - ",
            518 => "Request Contract Data Sending Error - ",
            519 => "Request Market Depth Sending Error - ",
            520 => "Failed to create socket",
            521 => "Set Server Log Level Sending Error - ",
            522 => "FA Information Request Sending Error - ",
            523 => "FA Information Replace Sending Error - ",
            524 => "Request Scanner Subscription Sending Error - ",
            525 => "Cancel Scanner Subscription Sending Error - ",
            526 => "Request Scanner Parameter Sending Error - ",
            527 => "Request Historical Data Sending Error - ",
            528 => "Request Historical Data Sending Error - ",
            529 => "Request Real-time Bar Data Sending Error - ",
            530 => "Cancel Real-time Bar Data Sending Error - ",
            531 => "Request Current Time Sending Error - ",
            534 => "Request Calculate Implied Volatility Sending Error - ",
            535 => "Request Calculate Option Price Sending Error - ",
            536 => "Cancel Calculate Implied Volatility Sending Error - ",
            537 => "Cancel Calculate Option Price Sending Error - ",
            538 => "Request Global Cancel Sending Error - ",
            539 => "Request Market Data Type Sending Error - ",
            540 => "Request Positions Sending Error - ",
            541 => "Cancel Positions Sending Error - ",
            542 => "Request Account Data Sending Error - ",
            543 => "Cancel Account Data Sending Error - ",
            544 => "Verify Request Sending Error - ",
            545 => "Verify Message Sending Error - ",
            546 => "Query Display Groups Sending Error - ",
            547 => "Subscribe To Group Events Sending Error - ",
            548 => "Update Display Group Sending Error - ",
            549 => "Unsubscribe From Group Events Sending Error - ",
            550 => "Start API Sending Error - ",
            551 => "Verify And Auth Request Sending Error - ",
            552 => "Verify And Auth Message Sending Error - ",
            553 => "Request Positions Multi Sending Error - ",
            554 => "Cancel Positions Multi Sending Error - ",
            555 => "Request Account Updates Multi Sending Error - ",
            556 => "Cancel Account Updates Multi Sending Error - ",
            557 => "Request Security Definition Option Params Sending Error - ",
            558 => "Request Soft Dollar Tiers Sending Error - ",
            559 => "Request Family Codes Sending Error - ",
            560 => "Request Matching Symbols Sending Error - ",
            561 => "Request Market Depth Exchanges Sending Error - ",
            562 => "Request Smart Components Sending Error - ",
            563 => "Request News Providers Sending Error - ",
            564 => "Request News Article Sending Error - ",
            565 => "Request Historical News Sending Error - ",
            566 => "Request Head Time Stamp Sending Error - ",
            567 => "Request Histogram Data Sending Error - ",
            568 => "Cancel Request Histogram Data Sending Error - ",
            569 => "Cancel Head Time Stamp Sending Error - ",
            570 => "Request Market Rule Sending Error - ",
            571 => "Request PnL Sending Error - ",
            572 => "Cancel PnL Sending Error - ",
            573 => "Request PnL Single Error - ",
            574 => "Cancel PnL Single Sending Error - ",
            575 => "Request Historical Ticks Error - ",
            576 => "Request Tick-By-Tick Data Sending Error - ",
            577 => "Cancel Tick-By-Tick Data Sending Error - ",
            578 => "Request Completed Orders Sending Error - ",
            579 => "Invalid symbol in string - ",
            580 => "Request WSH Meta Data Sending Error - ",
            581 => "Cancel WSH Meta Data Sending Error - ",
            582 => "Request WSH Event Data Sending Error - ",
            583 => "Cancel WSH Event Data Sending Error - ",
            584 => "Request User Info Sending Error - ",
            585 => "FA Profile is not supported anymore, use FA Group instead - ",
            587 => "Request Current Time In Millis Sending Error - ",
            588 => "Error encoding protobuf - ",
            589 => "Cancel Market Depth Sending Error - ",
            590 => "Cancel Contract Data Sending Error - ",
            591 => "Cancel Historical Ticks Sending Error - ",
            592 => "Request Config Sending Error - ",
            593 => "Update Config Request Sending Error - ",
            _ => return None,
        };
        Some(Self { code, message })
    }
}

/// The client-side error codes and their descriptions, in the order of their codes.
pub open spec fn error_catalog() -> Seq<ErrorCode> {
    seq![
        ErrorCode { code: 501, message: "Already connected." },
        ErrorCode { code: 502, message: "Couldn't connect to TWS." },
        ErrorCode { code: 503, message: "The TWS is out of date and must be upgraded." },
        ErrorCode { code: 504, message: "Not connected" },
        ErrorCode { code: 505, message: "Fatal Error: Unknown message id." },
        ErrorCode { code: 507, message: "Bad message length" },
        ErrorCode { code: 508, message: "Bad message" },
        ErrorCode { code: 510, message: "Request Market Data Sending Error - " },
        ErrorCode { code: 511, message: "Cancel Market Data Sending Error - " },
        ErrorCode { code: 512, message: "Order Sending Error - " },
        ErrorCode { code: 513, message: "Account Update Request Sending Error - " },
        ErrorCode { code: 514, message: "Request For Executions Sending Error - " },
        ErrorCode { code: 515, message: "Cancel Order Sending Error - " },
        ErrorCode { code: 516, message: "Request Open Order Sending Error - " },
        ErrorCode { code: 518, message: "Request Contract Data Sending Error - " },
        ErrorCode { code: 519, message: "Request Market Depth Sending Error - " },
        ErrorCode { code: 520, message: "Failed to create socket" },
        ErrorCode { code: 521, message: "Set Server Log Level Sending Error - " },
        ErrorCode { code: 522, message: "FA Information Request Sending Error - " },
        ErrorCode { code: 523, message: "FA Information Replace Sending Error - " },
        ErrorCode { code: 524, message: "Request Scanner Subscription Sending Error - " },
        ErrorCode { code: 525, message: "Cancel Scanner Subscription Sending Error - " },
        ErrorCode { code: 526, message: "Request Scanner Parameter Sending Error - " },
        ErrorCode { code: 527, message: "Request Historical Data Sending Error - " },
        ErrorCode { code: 528, message: "Request Historical Data Sending Error - " },
        ErrorCode { code: 529, message: "Request Real-time Bar Data Sending Error - " },
        ErrorCode { code: 530, message: "Cancel Real-time Bar Data Sending Error - " },
        ErrorCode { code: 531, message: "Request Current Time Sending Error - " },
        ErrorCode { code: 534, message: "Request Calculate Implied Volatility Sending Error - " },
        ErrorCode { code: 535, message: "Request Calculate Option Price Sending Error - " },
        ErrorCode { code: 536, message: "Cancel Calculate Implied Volatility Sending Error - " },
        ErrorCode { code: 537, message: "Cancel Calculate Option Price Sending Error - " },
        ErrorCode { code: 538, message: "Request Global Cancel Sending Error - " },
        ErrorCode { code: 539, message: "Request Market Data Type Sending Error - " },
        ErrorCode { code: 540, message: "Request Positions Sending Error - " },
        ErrorCode { code: 541, message: "Cancel Positions Sending Error - " },
        ErrorCode { code: 542, message: "Request Account Data Sending Error - " },
        ErrorCode { code: 543, message: "Cancel Account Data Sending Error - " },
        ErrorCode { code: 544, message: "Verify Request Sending Error - " },
        ErrorCode { code: 545, message: "Verify Message Sending Error - " },
        ErrorCode { code: 546, message: "Query Display Groups Sending Error - " },
        ErrorCode { code: 547, message: "Subscribe To Group Events Sending Error - " },
        ErrorCode { code: 548, message: "Update Display Group Sending Error - " },
        ErrorCode { code: 549, message: "Unsubscribe From Group Events Sending Error - " },
        ErrorCode { code: 550, message: "Start API Sending Error - " },
        ErrorCode { code: 551, message: "Verify And Auth Request Sending Error - " },
        ErrorCode { code: 552, message: "Verify And Auth Message Sending Error - " },
        ErrorCode { code: 553, message: "Request Positions Multi Sending Error - " },
        ErrorCode { code: 554, message: "Cancel Positions Multi Sending Error - " },
        ErrorCode { code: 555, message: "Request Account Updates Multi Sending Error - " },
        ErrorCode { code: 556, message: "Cancel Account Updates Multi Sending Error - " },
        ErrorCode { code: 557, message: "Request Security Definition Option Params Sending Error - " },
        ErrorCode { code: 558, message: "Request Soft Dollar Tiers Sending Error - " },
        ErrorCode { code: 559, message: "Request Family Codes Sending Error - " },
        ErrorCode { code: 560, message: "Request Matching Symbols Sending Error - " },
        ErrorCode { code: 561, message: "Request Market Depth Exchanges Sending Error - " },
        ErrorCode { code: 562, message: "Request Smart Components Sending Error - " },
        ErrorCode { code: 563, message: "Request News Providers Sending Error - " },
        ErrorCode { code: 564, message: "Request News Article Sending Error - " },
        ErrorCode { code: 565, message: "Request Historical News Sending Error - " },
        ErrorCode { code: 566, message: "Request Head Time Stamp Sending Error - " },
        ErrorCode { code: 567, message: "Request Histogram Data Sending Error - " },
        ErrorCode { code: 568, message: "Cancel Request Histogram Data Sending Error - " },
        ErrorCode { code: 569, message: "Cancel Head Time Stamp Sending Error - " },
        ErrorCode { code: 570, message: "Request Market Rule Sending Error - " },
        ErrorCode { code: 571, message: "Request PnL Sending Error - " },
        ErrorCode { code: 572, message: "Cancel PnL Sending Error - " },
        ErrorCode { code: 573, message: "Request PnL Single Error - " },
        ErrorCode { code: 574, message: "Cancel PnL Single Sending Error - " },
        ErrorCode { code: 575, message: "Request Historical Ticks Error - " },
        ErrorCode { code: 576, message: "Request Tick-By-Tick Data Sending Error - " },
        ErrorCode { code: 577, message: "Cancel Tick-By-Tick Data Sending Error - " },
        ErrorCode { code: 578, message: "Request Completed Orders Sending Error - " },
        ErrorCode { code: 579, message: "Invalid symbol in string - " },
        ErrorCode { code: 580, message: "Request WSH Meta Data Sending Error - " },
        ErrorCode { code: 581, message: "Cancel WSH Meta Data Sending Error - " },
        ErrorCode { code: 582, message: "Request WSH Event Data Sending Error - " },
        ErrorCode { code: 583, message: "Cancel WSH Event Data Sending Error - " },
        ErrorCode { code: 584, message: "Request User Info Sending Error - " },
        ErrorCode { code: 585, message: "FA Profile is not supported anymore, use FA Group instead - " },
        ErrorCode { code: 587, message: "Request Current Time In Millis Sending Error - " },
        ErrorCode { code: 588, message: "Error encoding protobuf - " },
        ErrorCode { code: 589, message: "Cancel Market Depth Sending Error - " },
        ErrorCode { code: 590, message: "Cancel Contract Data Sending Error - " },
        ErrorCode { code: 591, message: "Cancel Historical Ticks Sending Error - " },
        ErrorCode { code: 592, message: "Request Config Sending Error - " },
        ErrorCode { code: 593, message: "Update Config Request Sending Error - " },
    ]
}

impl ErrorCode {
    /// Every client-side error code and its description, in the order of their codes.
    #[verifier::spinoff_prover]
    #[verifier::rlimit(100)]
    pub fn all() -> (r: Vec<ErrorCode>)
        ensures
            r@ == error_catalog(),
    {
        let mut v: Vec<ErrorCode> = Vec::new();
        v.push(ErrorCode { code: 501, message: "Already connected." });
        v.push(ErrorCode { code: 502, message: "Couldn't connect to TWS." });
        v.push(ErrorCode { code: 503, message: "The TWS is out of date and must be upgraded." });
        v.push(ErrorCode { code: 504, message: "Not connected" });
        v.push(ErrorCode { code: 505, message: "Fatal Error: Unknown message id." });
        v.push(ErrorCode { code: 507, message: "Bad message length" });
        v.push(ErrorCode { code: 508, message: "Bad message" });
        v.push(ErrorCode { code: 510, message: "Request Market Data Sending Error - " });
        v.push(ErrorCode { code: 511, message: "Cancel Market Data Sending Error - " });
        v.push(ErrorCode { code: 512, message: "Order Sending Error - " });
        v.push(ErrorCode { code: 513, message: "Account Update Request Sending Error - " });
        v.push(ErrorCode { code: 514, message: "Request For Executions Sending Error - " });
        v.push(ErrorCode { code: 515, message: "Cancel Order Sending Error - " });
        v.push(ErrorCode { code: 516, message: "Request Open Order Sending Error - " });
        v.push(ErrorCode { code: 518, message: "Request Contract Data Sending Error - " });
        v.push(ErrorCode { code: 519, message: "Request Market Depth Sending Error - " });
        v.push(ErrorCode { code: 520, message: "Failed to create socket" });
        v.push(ErrorCode { code: 521, message: "Set Server Log Level Sending Error - " });
        v.push(ErrorCode { code: 522, message: "FA Information Request Sending Error - " });
        v.push(ErrorCode { code: 523, message: "FA Information Replace Sending Error - " });
        v.push(ErrorCode { code: 524, message: "Request Scanner Subscription Sending Error - " });
        v.push(ErrorCode { code: 525, message: "Cancel Scanner Subscription Sending Error - " });
        v.push(ErrorCode { code: 526, message: "Request Scanner Parameter Sending Error - " });
        v.push(ErrorCode { code: 527, message: "Request Historical Data Sending Error - " });
        v.push(ErrorCode { code: 528, message: "Request Historical Data Sending Error - " });
        v.push(ErrorCode { code: 529, message: "Request Real-time Bar Data Sending Error - " });
        v.push(ErrorCode { code: 530, message: "Cancel Real-time Bar Data Sending Error - " });
        v.push(ErrorCode { code: 531, message: "Request Current Time Sending Error - " });
        v.push(ErrorCode { code: 534, message: "Request Calculate Implied Volatility Sending Error - " });
        v.push(ErrorCode { code: 535, message: "Request Calculate Option Price Sending Error - " });
        v.push(ErrorCode { code: 536, message: "Cancel Calculate Implied Volatility Sending Error - " });
        v.push(ErrorCode { code: 537, message: "Cancel Calculate Option Price Sending Error - " });
        v.push(ErrorCode { code: 538, message: "Request Global Cancel Sending Error - " });
        v.push(ErrorCode { code: 539, message: "Request Market Data Type Sending Error - " });
        v.push(ErrorCode { code: 540, message: "Request Positions Sending Error - " });
        v.push(ErrorCode { code: 541, message: "Cancel Positions Sending Error - " });
        v.push(ErrorCode { code: 542, message: "Request Account Data Sending Error - " });
        v.push(ErrorCode { code: 543, message: "Cancel Account Data Sending Error - " });
        v.push(ErrorCode { code: 544, message: "Verify Request Sending Error - " });
        v.push(ErrorCode { code: 545, message: "Verify Message Sending Error - " });
        v.push(ErrorCode { code: 546, message: "Query Display Groups Sending Error - " });
        v.push(ErrorCode { code: 547, message: "Subscribe To Group Events Sending Error - " });
        v.push(ErrorCode { code: 548, message: "Update Display Group Sending Error - " });
        v.push(ErrorCode { code: 549, message: "Unsubscribe From Group Events Sending Error - " });
        v.push(ErrorCode { code: 550, message: "Start API Sending Error - " });
        v.push(ErrorCode { code: 551, message: "Verify And Auth Request Sending Error - " });
        v.push(ErrorCode { code: 552, message: "Verify And Auth Message Sending Error - " });
        v.push(ErrorCode { code: 553, message: "Request Positions Multi Sending Error - " });
        v.push(ErrorCode { code: 554, message: "Cancel Positions Multi Sending Error - " });
        v.push(ErrorCode { code: 555, message: "Request Account Updates Multi Sending Error - " });
        v.push(ErrorCode { code: 556, message: "Cancel Account Updates Multi Sending Error - " });
        v.push(ErrorCode { code: 557, message: "Request Security Definition Option Params Sending Error - " });
        v.push(ErrorCode { code: 558, message: "Request Soft Dollar Tiers Sending Error - " });
        v.push(ErrorCode { code: 559, message: "Request Family Codes Sending Error - " });
        v.push(ErrorCode { code: 560, message: "Request Matching Symbols Sending Error - " });
        v.push(ErrorCode { code: 561, message: "Request Market Depth Exchanges Sending Error - " });
        v.push(ErrorCode { code: 562, message: "Request Smart Components Sending Error - " });
        v.push(ErrorCode { code: 563, message: "Request News Providers Sending Error - " });
        v.push(ErrorCode { code: 564, message: "Request News Article Sending Error - " });
        v.push(ErrorCode { code: 565, message: "Request Historical News Sending Error - " });
        v.push(ErrorCode { code: 566, message: "Request Head Time Stamp Sending Error - " });
        v.push(ErrorCode { code: 567, message: "Request Histogram Data Sending Error - " });
        v.push(ErrorCode { code: 568, message: "Cancel Request Histogram Data Sending Error - " });
        v.push(ErrorCode { code: 569, message: "Cancel Head Time Stamp Sending Error - " });
        v.push(ErrorCode { code: 570, message: "Request Market Rule Sending Error - " });
        v.push(ErrorCode { code: 571, message: "Request PnL Sending Error - " });
        v.push(ErrorCode { code: 572, message: "Cancel PnL Sending Error - " });
        v.push(ErrorCode { code: 573, message: "Request PnL Single Error - " });
        v.push(ErrorCode { code: 574, message: "Cancel PnL Single Sending Error - " });
        v.push(ErrorCode { code: 575, message: "Request Historical Ticks Error - " });
        v.push(ErrorCode { code: 576, message: "Request Tick-By-Tick Data Sending Error - " });
        v.push(ErrorCode { code: 577, message: "Cancel Tick-By-Tick Data Sending Error - " });
        v.push(ErrorCode { code: 578, message: "Request Completed Orders Sending Error - " });
        v.push(ErrorCode { code: 579, message: "Invalid symbol in string - " });
        v.push(ErrorCode { code: 580, message: "Request WSH Meta Data Sending Error - " });
        v.push(ErrorCode { code: 581, message: "Cancel WSH Meta Data Sending Error - " });
        v.push(ErrorCode { code: 582, message: "Request WSH Event Data Sending Error - " });
        v.push(ErrorCode { code: 583, message: "Cancel WSH Event Data Sending Error - " });
        v.push(ErrorCode { code: 584, message: "Request User Info Sending Error - " });
        v.push(ErrorCode { code: 585, message: "FA Profile is not supported anymore, use FA Group instead - " });
        v.push(ErrorCode { code: 587, message: "Request Current Time In Millis Sending Error - " });
        v.push(ErrorCode { code: 588, message: "Error encoding protobuf - " });
        v.push(ErrorCode { code: 589, message: "Cancel Market Depth Sending Error - " });
        v.push(ErrorCode { code: 590, message: "Cancel Contract Data Sending Error - " });
        v.push(ErrorCode { code: 591, message: "Cancel Historical Ticks Sending Error - " });
        v.push(ErrorCode { code: 592, message: "Request Config Sending Error - " });
        v.push(ErrorCode { code: 593, message: "Update Config Request Sending Error - " });
        assert(v@ =~= error_catalog());
        v
    }
}

} // verus!
