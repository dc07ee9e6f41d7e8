//! Domain model types used by requests and callbacks.
use vstd::prelude::*;

use crate::constants::UNSET_INTEGER;
use crate::enums::{Liquidities, OptionExerciseType, TriggerMethod};
use crate::num::{unset_double_text, DecimalText, Double};

verus! {

/// Market data ticker id.
pub type TickerId = i32;

/// TWS order id.
pub type OrderId = i32;

/// Financial-advisor data type.
pub type FaDataType = i32;

/// A generic tag/value pair.
#[derive(Debug, Clone, Default, PartialEq, Eq)]
pub struct TagValue {
    /// Tag name.
    pub tag: String,
    /// Tag value.
    pub value: String,
}

/// Soft-dollar tier metadata.
#[derive(Debug, Clone, Default, PartialEq, Eq)]
pub struct SoftDollarTier {
    /// Tier name.
    pub name: String,
    /// Tier value.
    pub value: String,
    /// Display name.
    pub display_name: String,
}

/// A reason why a contract cannot be traded.
#[derive(Debug, Clone, Default, PartialEq, Eq)]
pub struct IneligibilityReason {
    /// Reason id.
    pub id: String,
    /// Reason description.
    pub description: String,
}

/// A market-depth exchange description.
#[derive(Debug, Clone, Default, PartialEq, Eq)]
pub struct DepthMarketDataDescription {
    /// Exchange.
    pub exchange: String,
    /// Security type.
    pub security_type: String,
    /// Listing exchange.
    pub listing_exchange: String,
    /// Service data type.
    pub service_data_type: String,
    /// Aggregate group.
    pub aggregate_group: i32,
}

/// Account family-code mapping.
#[derive(Debug, Clone, Default, PartialEq, Eq)]
pub struct FamilyCode {
    /// Account id.
    pub account_id: String,
    /// Family code.
    pub family_code: String,
}

/// News provider metadata.
#[derive(Debug, Clone, Default, PartialEq, Eq)]
pub struct NewsProvider {
    /// Provider code.
    pub code: String,
    /// Provider name.
    pub name: String,
}

/// Structured WSH event payload. The original JSON is retained for fields added by IB later.
#[derive(Debug, Clone, Default, PartialEq, Eq)]
pub struct WshEventData {
    /// Request id.
    pub req_id: i32,
    /// Contract id.
    pub con_id: i32,
    /// Filter.
    pub filter: String,
    /// Fill watchlist flag.
    pub fill_watchlist: bool,
    /// Fill portfolio flag.
    pub fill_portfolio: bool,
    /// Fill position flag.
    pub fill_position: bool,
    /// Fill account flag.
    pub fill_account: bool,
    /// The JSON payload as received.
    pub data_json: String,
}

/// Combo leg open/close value.
#[derive(Debug, Clone, Copy, Default, PartialEq, Eq, Structural)]
pub enum LegOpenClose {
    /// Same as combo.
    #[default]
    SamePosition,
    /// Open position.
    OpenPosition,
    /// Close position.
    ClosePosition,
    /// Unknown.
    Unknown,
}

impl LegOpenClose {
    /// The wire value.
    pub open spec fn wire_value(self) -> i32 {
        match self {
            LegOpenClose::SamePosition => 0,
            LegOpenClose::OpenPosition => 1,
            LegOpenClose::ClosePosition => 2,
            LegOpenClose::Unknown => 3,
        }
    }

    /// Returns the wire value.
    pub fn value(self) -> (r: i32)
        ensures
            r == self.wire_value(),
    {
        match self {
            LegOpenClose::SamePosition => 0,
            LegOpenClose::OpenPosition => 1,
            LegOpenClose::ClosePosition => 2,
            LegOpenClose::Unknown => 3,
        }
    }
}

/// Contract combo leg.
#[derive(Debug, Clone, PartialEq, Eq)]
pub struct ComboLeg {
    /// Contract id.
    pub con_id: i32,
    /// Leg ratio.
    pub ratio: i32,
    /// BUY/SELL/SHORT.
    pub action: String,
    /// Exchange.
    pub exchange: String,
    /// Open/close marker.
    pub open_close: LegOpenClose,
    /// Short-sale slot.
    pub short_sale_slot: i32,
    /// Designated location.
    pub designated_location: String,
    /// Exempt code.
    pub exempt_code: i32,
}

impl Default for ComboLeg {
    fn default() -> (r: Self)
        ensures
            r.con_id == 0,
            r.ratio == 0,
            r.action@.len() == 0,
            r.exchange@.len() == 0,
            r.open_close == LegOpenClose::SamePosition,
            r.short_sale_slot == 0,
            r.designated_location@.len() == 0,
            r.exempt_code == -1,
    {
        Self {
            con_id: 0,
            ratio: 0,
            action: String::new(),
            exchange: String::new(),
            open_close: LegOpenClose::SamePosition,
            short_sale_slot: 0,
            designated_location: String::new(),
            exempt_code: -1,
        }
    }
}

/// Order origin.
#[derive(Debug, Clone, Copy, Default, PartialEq, Eq, Structural)]
pub enum Origin {
    /// Customer order.
    #[default]
    Customer,
    /// Firm order.
    Firm,
    /// Unknown origin.
    Unknown,
}

impl Origin {
    /// The wire value.
    pub open spec fn wire_value(self) -> i32 {
        match self {
            Origin::Customer => 0,
            Origin::Firm => 1,
            Origin::Unknown => 2,
        }
    }

    /// Returns the wire value.
    pub fn value(self) -> (r: i32)
        ensures
            r == self.wire_value(),
    {
        match self {
            Origin::Customer => 0,
            Origin::Firm => 1,
            Origin::Unknown => 2,
        }
    }
}

/// Auction strategy.
#[derive(Debug, Clone, Copy, Default, PartialEq, Eq, Structural)]
pub enum AuctionStrategy {
    /// Unset.
    #[default]
    Unset,
    /// Match.
    Match,
    /// Improvement.
    Improvement,
    /// Transparent.
    Transparent,
}

impl AuctionStrategy {
    /// The wire value.
    pub open spec fn wire_value(self) -> i32 {
        match self {
            AuctionStrategy::Unset => 0,
            AuctionStrategy::Match => 1,
            AuctionStrategy::Improvement => 2,
            AuctionStrategy::Transparent => 3,
        }
    }

    /// Returns the wire value.
    pub fn value(self) -> (r: i32)
        ensures
            r == self.wire_value(),
    {
        match self {
            AuctionStrategy::Unset => 0,
            AuctionStrategy::Match => 1,
            AuctionStrategy::Improvement => 2,
            AuctionStrategy::Transparent => 3,
        }
    }
}

/// Order cancellation metadata.
#[derive(Debug, Clone, Default, PartialEq, Eq)]
pub struct OrderCancel {
    /// Manual order cancel time.
    pub manual_order_cancel_time: String,
    /// Ext operator.
    pub ext_operator: String,
    /// Manual order indicator.
    pub manual_order_indicator: i32,
}

/// Execution filter.
#[derive(Debug, Clone, Default, PartialEq, Eq)]
pub struct ExecutionFilter {
    /// Client id.
    pub client_id: i32,
    /// Account code.
    pub acct_code: String,
    /// Time.
    pub time: String,
    /// Symbol.
    pub symbol: String,
    /// Security type.
    pub sec_type: String,
    /// Exchange.
    pub exchange: String,
    /// Side.
    pub side: String,
}

/// Smart routing component.
#[derive(Debug, Clone, Default, PartialEq, Eq)]
pub struct SmartComponent {
    /// Bit number.
    pub bit_number: i32,
    /// Exchange.
    pub exchange: String,
    /// Exchange letter.
    pub exchange_letter: String,
}

/// Historical trading session.
#[derive(Debug, Clone, Default, PartialEq, Eq)]
pub struct HistoricalSession {
    /// Session start.
    pub start_date_time: String,
    /// Session end.
    pub end_date_time: String,
    /// Reference date.
    pub ref_date: String,
}

/// Bid/ask historical tick attributes.
#[derive(Debug, Clone, Default, PartialEq, Eq)]
pub struct TickAttribBidAsk {
    /// Bid past low marker.
    pub bid_past_low: bool,
    /// Ask past high marker.
    pub ask_past_high: bool,
}

/// Last trade historical tick attributes.
#[derive(Debug, Clone, Default, PartialEq, Eq)]
pub struct TickAttribLast {
    /// Past limit marker.
    pub past_limit: bool,
    /// Unreported marker.
    pub unreported: bool,
}

/// Delta-neutral contract.
#[derive(Debug, Clone, PartialEq)]
pub struct DeltaNeutralContract {
    /// Contract id.
    pub con_id: i32,
    /// Delta.
    pub delta: Double,
    /// Price.
    pub price: Double,
}

impl DeltaNeutralContract {
    /// True when every field holds the value `default` gives it.
    pub open spec fn has_defaults(self) -> bool {
        &&& self.con_id == 0
        &&& self.delta.text@ == "0"@
        &&& self.price.text@ == "0"@
    }
}

impl Default for DeltaNeutralContract {
    fn default() -> (r: Self)
        ensures
            r.has_defaults(),
    {
        let r = DeltaNeutralContract {
            con_id: 0,
            delta: Double::zero(),
            price: Double::zero(),
        };
        r
    }
}

/// TWS contract.
#[derive(Debug, Clone, PartialEq)]
pub struct Contract {
    /// Contract id.
    pub con_id: i32,
    /// Symbol.
    pub symbol: String,
    /// Security type.
    pub sec_type: String,
    /// Last trade date or contract month.
    pub last_trade_date_or_contract_month: String,
    /// Last trade date.
    pub last_trade_date: String,
    /// Strike.
    pub strike: Double,
    /// Right.
    pub right: String,
    /// Multiplier.
    pub multiplier: String,
    /// Exchange.
    pub exchange: String,
    /// Primary exchange.
    pub primary_exchange: String,
    /// Currency.
    pub currency: String,
    /// Local symbol.
    pub local_symbol: String,
    /// Trading class.
    pub trading_class: String,
    /// Include expired contracts.
    pub include_expired: bool,
    /// Security id type.
    pub sec_id_type: String,
    /// Security id.
    pub sec_id: String,
    /// Description.
    pub description: String,
    /// Issuer id.
    pub issuer_id: String,
    /// Combo legs description.
    pub combo_legs_description: String,
    /// Combo legs.
    pub combo_legs: Vec<ComboLeg>,
    /// Optional delta-neutral contract.
    pub delta_neutral_contract: Option<DeltaNeutralContract>,
}

impl Contract {
    /// True when every field holds the value `default` gives it.
    pub open spec fn has_defaults(self) -> bool {
        &&& self.con_id == 0
        &&& self.symbol@ == Seq::<char>::empty()
        &&& self.sec_type@ == Seq::<char>::empty()
        &&& self.last_trade_date_or_contract_month@ == Seq::<char>::empty()
        &&& self.last_trade_date@ == Seq::<char>::empty()
        &&& self.strike.text@ == unset_double_text()
        &&& self.right@ == Seq::<char>::empty()
        &&& self.multiplier@ == Seq::<char>::empty()
        &&& self.exchange@ == Seq::<char>::empty()
        &&& self.primary_exchange@ == Seq::<char>::empty()
        &&& self.currency@ == Seq::<char>::empty()
        &&& self.local_symbol@ == Seq::<char>::empty()
        &&& self.trading_class@ == Seq::<char>::empty()
        &&& !self.include_expired
        &&& self.sec_id_type@ == Seq::<char>::empty()
        &&& self.sec_id@ == Seq::<char>::empty()
        &&& self.description@ == Seq::<char>::empty()
        &&& self.issuer_id@ == Seq::<char>::empty()
        &&& self.combo_legs_description@ == Seq::<char>::empty()
        &&& self.combo_legs@.len() == 0
        &&& self.delta_neutral_contract is None
    }
}

impl Default for Contract {
    fn default() -> (r: Self)
        ensures
            r.has_defaults(),
    {
        let r = Contract {
            con_id: 0,
            symbol: String::new(),
            sec_type: String::new(),
            last_trade_date_or_contract_month: String::new(),
            last_trade_date: String::new(),
            strike: Double::unset(),
            right: String::new(),
            multiplier: String::new(),
            exchange: String::new(),
            primary_exchange: String::new(),
            currency: String::new(),
            local_symbol: String::new(),
            trading_class: String::new(),
            include_expired: false,
            sec_id_type: String::new(),
            sec_id: String::new(),
            description: String::new(),
            issuer_id: String::new(),
            combo_legs_description: String::new(),
            combo_legs: Vec::new(),
            delta_neutral_contract: None,
        };
        r
    }
}

/// Contract details returned by TWS.
#[derive(Debug, Clone, PartialEq)]
pub struct ContractDetails {
    /// Contract.
    pub contract: Contract,
    /// Market name.
    pub market_name: String,
    /// Minimum tick.
    pub min_tick: Double,
    /// Supported order types.
    pub order_types: String,
    /// Valid exchanges.
    pub valid_exchanges: String,
    /// Price magnifier.
    pub price_magnifier: i32,
    /// Underlying conId.
    pub under_con_id: i32,
    /// Long name.
    pub long_name: String,
    /// Contract month.
    pub contract_month: String,
    /// Industry.
    pub industry: String,
    /// Category.
    pub category: String,
    /// Subcategory.
    pub subcategory: String,
    /// Time zone id.
    pub time_zone_id: String,
    /// Trading hours.
    pub trading_hours: String,
    /// Liquid hours.
    pub liquid_hours: String,
    /// Market rule ids.
    pub market_rule_ids: String,
    /// CUSIP.
    pub cusip: String,
    /// Issue date.
    pub issue_date: String,
    /// Ratings.
    pub ratings: String,
    /// Bond type.
    pub bond_type: String,
    /// Coupon.
    pub coupon: Double,
    /// Coupon type.
    pub coupon_type: String,
    /// Convertible flag.
    pub convertible: bool,
    /// Callable flag.
    pub callable: bool,
    /// Puttable flag.
    pub puttable: bool,
    /// Description append.
    pub desc_append: String,
    /// Next option date.
    pub next_option_date: String,
    /// Next option type.
    pub next_option_type: String,
    /// Next option partial flag.
    pub next_option_partial: bool,
    /// Bond notes.
    pub bond_notes: String,
    /// Real expiration date.
    pub real_expiration_date: String,
    /// Stock type.
    pub stock_type: String,
    /// Minimum order size.
    pub min_size: DecimalText,
    /// Order-size increment.
    pub size_increment: DecimalText,
    /// Suggested order-size increment.
    pub suggested_size_increment: DecimalText,
    /// Fund name.
    pub fund_name: String,
    /// Fund family.
    pub fund_family: String,
    /// Fund type code.
    pub fund_type: String,
    /// Fund front load.
    pub fund_front_load: String,
    /// Fund back load.
    pub fund_back_load: String,
    /// Fund back-load interval.
    pub fund_back_load_time_interval: String,
    /// Fund management fee.
    pub fund_management_fee: String,
    /// Whether the fund is closed.
    pub fund_closed: bool,
    /// Whether the fund is closed to new investors.
    pub fund_closed_for_new_investors: bool,
    /// Whether the fund is closed to new money.
    pub fund_closed_for_new_money: bool,
    /// Fund notification amount.
    pub fund_notify_amount: String,
    /// Minimum initial purchase.
    pub fund_minimum_initial_purchase: String,
    /// Minimum subsequent purchase.
    pub fund_minimum_subsequent_purchase: String,
    /// Blue-sky states.
    pub fund_blue_sky_states: String,
    /// Blue-sky territories.
    pub fund_blue_sky_territories: String,
    /// Distribution policy indicator.
    pub fund_distribution_policy_indicator: String,
    /// Asset type.
    pub fund_asset_type: String,
    /// Ineligibility reasons.
    pub ineligibility_reason_list: Vec<IneligibilityReason>,
    /// First event contract.
    pub event_contract1: String,
    /// First event contract description.
    pub event_contract_description1: String,
    /// Second event contract description.
    pub event_contract_description2: String,
    /// Minimum algorithmic order size.
    pub min_algo_size: DecimalText,
    /// Last-price precision.
    pub last_price_precision: DecimalText,
    /// Last-size precision.
    pub last_size_precision: DecimalText,
}

impl ContractDetails {
    /// True when every field holds the value `default` gives it.
    pub open spec fn has_defaults(self) -> bool {
        &&& self.contract.has_defaults()
        &&& self.market_name@ == Seq::<char>::empty()
        &&& self.min_tick.text@ == "0"@
        &&& self.order_types@ == Seq::<char>::empty()
        &&& self.valid_exchanges@ == Seq::<char>::empty()
        &&& self.price_magnifier == 0
        &&& self.under_con_id == 0
        &&& self.long_name@ == Seq::<char>::empty()
        &&& self.contract_month@ == Seq::<char>::empty()
        &&& self.industry@ == Seq::<char>::empty()
        &&& self.category@ == Seq::<char>::empty()
        &&& self.subcategory@ == Seq::<char>::empty()
        &&& self.time_zone_id@ == Seq::<char>::empty()
        &&& self.trading_hours@ == Seq::<char>::empty()
        &&& self.liquid_hours@ == Seq::<char>::empty()
        &&& self.market_rule_ids@ == Seq::<char>::empty()
        &&& self.cusip@ == Seq::<char>::empty()
        &&& self.issue_date@ == Seq::<char>::empty()
        &&& self.ratings@ == Seq::<char>::empty()
        &&& self.bond_type@ == Seq::<char>::empty()
        &&& self.coupon.text@ == "0"@
        &&& self.coupon_type@ == Seq::<char>::empty()
        &&& !self.convertible
        &&& !self.callable
        &&& !self.puttable
        &&& self.desc_append@ == Seq::<char>::empty()
        &&& self.next_option_date@ == Seq::<char>::empty()
        &&& self.next_option_type@ == Seq::<char>::empty()
        &&& !self.next_option_partial
        &&& self.bond_notes@ == Seq::<char>::empty()
        &&& self.real_expiration_date@ == Seq::<char>::empty()
        &&& self.stock_type@ == Seq::<char>::empty()
        &&& self.min_size.text@ == "0"@
        &&& self.size_increment.text@ == "0"@
        &&& self.suggested_size_increment.text@ == "0"@
        &&& self.fund_name@ == Seq::<char>::empty()
        &&& self.fund_family@ == Seq::<char>::empty()
        &&& self.fund_type@ == Seq::<char>::empty()
        &&& self.fund_front_load@ == Seq::<char>::empty()
        &&& self.fund_back_load@ == Seq::<char>::empty()
        &&& self.fund_back_load_time_interval@ == Seq::<char>::empty()
        &&& self.fund_management_fee@ == Seq::<char>::empty()
        &&& !self.fund_closed
        &&& !self.fund_closed_for_new_investors
        &&& !self.fund_closed_for_new_money
        &&& self.fund_notify_amount@ == Seq::<char>::empty()
        &&& self.fund_minimum_initial_purchase@ == Seq::<char>::empty()
        &&& self.fund_minimum_subsequent_purchase@ == Seq::<char>::empty()
        &&& self.fund_blue_sky_states@ == Seq::<char>::empty()
        &&& self.fund_blue_sky_territories@ == Seq::<char>::empty()
        &&& self.fund_distribution_policy_indicator@ == Seq::<char>::empty()
        &&& self.fund_asset_type@ == Seq::<char>::empty()
        &&& self.ineligibility_reason_list@.len() == 0
        &&& self.event_contract1@ == Seq::<char>::empty()
        &&& self.event_contract_description1@ == Seq::<char>::empty()
        &&& self.event_contract_description2@ == Seq::<char>::empty()
        &&& self.min_algo_size.text@ == "0"@
        &&& self.last_price_precision.text@ == "0"@
        &&& self.last_size_precision.text@ == "0"@
    }
}

impl Default for ContractDetails {
    fn default() -> (r: Self)
        ensures
            r.has_defaults(),
    {
        let r = ContractDetails {
            contract: Contract::default(),
            market_name: String::new(),
            min_tick: Double::zero(),
            order_types: String::new(),
            valid_exchanges: String::new(),
            price_magnifier: 0,
            under_con_id: 0,
            long_name: String::new(),
            contract_month: String::new(),
            industry: String::new(),
            category: String::new(),
            subcategory: String::new(),
            time_zone_id: String::new(),
            trading_hours: String::new(),
            liquid_hours: String::new(),
            market_rule_ids: String::new(),
            cusip: String::new(),
            issue_date: String::new(),
            ratings: String::new(),
            bond_type: String::new(),
            coupon: Double::zero(),
            coupon_type: String::new(),
            convertible: false,
            callable: false,
            puttable: false,
            desc_append: String::new(),
            next_option_date: String::new(),
            next_option_type: String::new(),
            next_option_partial: false,
            bond_notes: String::new(),
            real_expiration_date: String::new(),
            stock_type: String::new(),
            min_size: DecimalText::zero(),
            size_increment: DecimalText::zero(),
            suggested_size_increment: DecimalText::zero(),
            fund_name: String::new(),
            fund_family: String::new(),
            fund_type: String::new(),
            fund_front_load: String::new(),
            fund_back_load: String::new(),
            fund_back_load_time_interval: String::new(),
            fund_management_fee: String::new(),
            fund_closed: false,
            fund_closed_for_new_investors: false,
            fund_closed_for_new_money: false,
            fund_notify_amount: String::new(),
            fund_minimum_initial_purchase: String::new(),
            fund_minimum_subsequent_purchase: String::new(),
            fund_blue_sky_states: String::new(),
            fund_blue_sky_territories: String::new(),
            fund_distribution_policy_indicator: String::new(),
            fund_asset_type: String::new(),
            ineligibility_reason_list: Vec::new(),
            event_contract1: String::new(),
            event_contract_description1: String::new(),
            event_contract_description2: String::new(),
            min_algo_size: DecimalText::zero(),
            last_price_precision: DecimalText::zero(),
            last_size_precision: DecimalText::zero(),
        };
        r
    }
}

/// Order combo leg.
#[derive(Debug, Clone, PartialEq)]
pub struct OrderComboLeg {
    /// Leg price.
    pub price: Double,
}

impl OrderComboLeg {
    /// True when every field holds the value `default` gives it.
    pub open spec fn has_defaults(self) -> bool {
        &&& self.price.text@ == unset_double_text()
    }
}

impl Default for OrderComboLeg {
    fn default() -> (r: Self)
        ensures
            r.has_defaults(),
    {
        let r = OrderComboLeg {
            price: Double::unset(),
        };
        r
    }
}

/// TWS order.
#[derive(Debug, Clone, PartialEq)]
pub struct Order {
    /// Soft-dollar tier.
    pub soft_dollar_tier: SoftDollarTier,
    /// Order id.
    pub order_id: i32,
    /// Client id.
    pub client_id: i32,
    /// Permanent id.
    pub perm_id: i64,
    /// BUY/SELL.
    pub action: String,
    /// Total quantity.
    pub total_quantity: DecimalText,
    /// Order type.
    pub order_type: String,
    /// Limit price.
    pub limit_price: Double,
    /// Auxiliary price.
    pub aux_price: Double,
    /// Time in force.
    pub tif: String,
    /// Active start time.
    pub active_start_time: String,
    /// Active stop time.
    pub active_stop_time: String,
    /// OCA group.
    pub oca_group: String,
    /// OCA type.
    pub oca_type: i32,
    /// Order ref.
    pub order_ref: String,
    /// Transmit flag.
    pub transmit: bool,
    /// Parent order id.
    pub parent_id: i32,
    /// Block order.
    pub block_order: bool,
    /// Sweep to fill.
    pub sweep_to_fill: bool,
    /// Display size.
    pub display_size: i32,
    /// Trigger method.
    pub trigger_method: i32,
    /// Outside regular trading hours.
    pub outside_rth: bool,
    /// Hidden order.
    pub hidden: bool,
    /// Good-after time.
    pub good_after_time: String,
    /// Good-till date.
    pub good_till_date: String,
    /// Rule 80A.
    pub rule80a: String,
    /// All-or-none flag.
    pub all_or_none: bool,
    /// Minimum quantity.
    pub min_qty: i32,
    /// Percent offset.
    pub percent_offset: Double,
    /// Override percentage constraints.
    pub override_percentage_constraints: bool,
    /// Trail stop price.
    pub trail_stop_price: Double,
    /// Trailing percent.
    pub trailing_percent: Double,
    /// Financial-advisor group.
    pub fa_group: String,
    /// Financial-advisor method.
    pub fa_method: String,
    /// Financial-advisor percentage.
    pub fa_percentage: String,
    /// Short-sale designated location.
    pub designated_location: String,
    /// Open/close marker.
    pub open_close: String,
    /// Order origin.
    pub origin: Origin,
    /// Short-sale slot.
    pub short_sale_slot: i32,
    /// Exempt code.
    pub exempt_code: i32,
    /// Discretionary amount.
    pub discretionary_amount: Double,
    /// Opt out of SMART routing.
    pub opt_out_smart_routing: bool,
    /// Auction strategy.
    pub auction_strategy: AuctionStrategy,
    /// Starting price.
    pub starting_price: Double,
    /// Stock reference price.
    pub stock_ref_price: Double,
    /// Delta.
    pub delta: Double,
    /// Stock range lower.
    pub stock_range_lower: Double,
    /// Stock range upper.
    pub stock_range_upper: Double,
    /// Randomize price.
    pub randomize_price: bool,
    /// Randomize size.
    pub randomize_size: bool,
    /// Volatility.
    pub volatility: Double,
    /// Volatility type.
    pub volatility_type: i32,
    /// Delta-neutral order type.
    pub delta_neutral_order_type: String,
    /// Delta-neutral auxiliary price.
    pub delta_neutral_aux_price: Double,
    /// Delta-neutral contract id.
    pub delta_neutral_con_id: i32,
    /// Delta-neutral settling firm.
    pub delta_neutral_settling_firm: String,
    /// Delta-neutral clearing account.
    pub delta_neutral_clearing_account: String,
    /// Delta-neutral clearing intent.
    pub delta_neutral_clearing_intent: String,
    /// Delta-neutral open/close marker.
    pub delta_neutral_open_close: String,
    /// Delta-neutral short sale flag.
    pub delta_neutral_short_sale: bool,
    /// Delta-neutral short-sale slot.
    pub delta_neutral_short_sale_slot: i32,
    /// Delta-neutral designated location.
    pub delta_neutral_designated_location: String,
    /// Continuous update flag.
    pub continuous_update: bool,
    /// Reference price type.
    pub reference_price_type: i32,
    /// Combo basis points.
    pub basis_points: Double,
    /// Combo basis-points type.
    pub basis_points_type: i32,
    /// Initial scale level size.
    pub scale_init_level_size: i32,
    /// Subsequent scale level size.
    pub scale_subs_level_size: i32,
    /// Scale price increment.
    pub scale_price_increment: Double,
    /// Scale price adjust value.
    pub scale_price_adjust_value: Double,
    /// Scale price adjust interval.
    pub scale_price_adjust_interval: i32,
    /// Scale profit offset.
    pub scale_profit_offset: Double,
    /// Scale auto-reset flag.
    pub scale_auto_reset: bool,
    /// Scale initial position.
    pub scale_init_position: i32,
    /// Scale initial fill quantity.
    pub scale_init_fill_qty: i32,
    /// Scale random percent flag.
    pub scale_random_percent: bool,
    /// Scale table.
    pub scale_table: String,
    /// Hedge type.
    pub hedge_type: String,
    /// Hedge parameter.
    pub hedge_param: String,
    /// Hedge maximum size.
    pub hedge_max_size: i32,
    /// Account.
    pub account: String,
    /// Settling firm.
    pub settling_firm: String,
    /// Clearing account.
    pub clearing_account: String,
    /// Clearing intent.
    pub clearing_intent: String,
    /// Model code.
    pub model_code: String,
    /// Algo strategy.
    pub algo_strategy: String,
    /// Algo parameters.
    pub algo_params: Vec<TagValue>,
    /// Smart combo routing parameters.
    pub smart_combo_routing_params: Vec<TagValue>,
    /// Algo id.
    pub algo_id: String,
    /// What-if flag.
    pub what_if: bool,
    /// Not-held flag.
    pub not_held: bool,
    /// Solicited flag.
    pub solicited: bool,
    /// Order combo legs.
    pub order_combo_legs: Vec<OrderComboLeg>,
    /// Misc options.
    pub order_misc_options: Vec<TagValue>,
    /// Reference contract id.
    pub reference_contract_id: i32,
    /// Pegged change amount.
    pub pegged_change_amount: Double,
    /// Pegged change amount decrease flag.
    pub is_pegged_change_amount_decrease: bool,
    /// Reference change amount.
    pub reference_change_amount: Double,
    /// Reference exchange id.
    pub reference_exchange_id: String,
    /// Adjusted order type.
    pub adjusted_order_type: String,
    /// Trigger price.
    pub trigger_price: Double,
    /// Adjusted stop price.
    pub adjusted_stop_price: Double,
    /// Adjusted stop limit price.
    pub adjusted_stop_limit_price: Double,
    /// Adjusted trailing amount.
    pub adjusted_trailing_amount: Double,
    /// Adjustable trailing unit.
    pub adjustable_trailing_unit: i32,
    /// Limit price offset.
    pub limit_price_offset: Double,
    /// Conditions.
    pub conditions: Vec<OrderCondition>,
    /// Cancel if conditions match.
    pub conditions_cancel_order: bool,
    /// Ignore RTH for conditions.
    pub conditions_ignore_rth: bool,
    /// External operator.
    pub ext_operator: String,
    /// Native cash quantity.
    pub cash_qty: Double,
    /// MiFID II decision maker.
    pub mifid2_decision_maker: String,
    /// MiFID II decision algo.
    pub mifid2_decision_algo: String,
    /// MiFID II execution trader.
    pub mifid2_execution_trader: String,
    /// MiFID II execution algo.
    pub mifid2_execution_algo: String,
    /// Do not use auto price for hedge.
    pub dont_use_auto_price_for_hedge: bool,
    /// OMS container flag.
    pub is_oms_container: bool,
    /// Discretionary up-to-limit price flag.
    pub discretionary_up_to_limit_price: bool,
    /// Auto-cancel date.
    pub auto_cancel_date: String,
    /// Filled quantity.
    pub filled_quantity: DecimalText,
    /// Reference futures contract id.
    pub ref_futures_con_id: i32,
    /// Auto-cancel parent flag.
    pub auto_cancel_parent: bool,
    /// Shareholder.
    pub shareholder: String,
    /// Imbalance only flag.
    pub imbalance_only: bool,
    /// Route marketable order to BBO.
    pub route_marketable_to_bbo: i32,
    /// Parent permanent id.
    pub parent_perm_id: i64,
    /// Use price-management algo.
    pub use_price_mgmt_algo: i32,
    /// Duration.
    pub duration: i32,
    /// Post to ATS.
    pub post_to_ats: i32,
    /// Advanced error override.
    pub advanced_error_override: String,
    /// Manual order time.
    pub manual_order_time: String,
    /// Minimum trade quantity.
    pub min_trade_qty: i32,
    /// Minimum compete size.
    pub min_compete_size: i32,
    /// Compete against best offset.
    pub compete_against_best_offset: Double,
    /// Mid offset at whole.
    pub mid_offset_at_whole: Double,
    /// Mid offset at half.
    pub mid_offset_at_half: Double,
    /// Customer account.
    pub customer_account: String,
    /// Professional customer flag.
    pub professional_customer: bool,
    /// Bond accrued interest.
    pub bond_accrued_interest: String,
    /// Include overnight flag.
    pub include_overnight: bool,
    /// Manual order indicator.
    pub manual_order_indicator: i32,
    /// Submitter.
    pub submitter: String,
    /// Post-only flag.
    pub post_only: bool,
    /// Allow pre-open flag.
    pub allow_pre_open: bool,
    /// Ignore open auction flag.
    pub ignore_open_auction: bool,
    /// Deactivate flag.
    pub deactivate: bool,
    /// Seek price improvement.
    pub seek_price_improvement: i32,
    /// What-if type.
    pub what_if_type: i32,
    /// Stop-loss attached order id.
    pub stop_loss_order_id: i32,
    /// Stop-loss attached order type.
    pub stop_loss_order_type: String,
    /// Profit-taker attached order id.
    pub profit_taker_order_id: i32,
    /// Profit-taker attached order type.
    pub profit_taker_order_type: String,
}

impl Order {
    /// True when every field holds the value `default` gives it.
    pub open spec fn has_defaults(self) -> bool {
        &&& self.soft_dollar_tier.name@.len() == 0 && self.soft_dollar_tier.value@.len() == 0 && self.soft_dollar_tier.display_name@.len() == 0
        &&& self.order_id == 0
        &&& self.client_id == 0
        &&& self.perm_id == 0
        &&& self.action@ == Seq::<char>::empty()
        &&& self.total_quantity.text@ == "0"@
        &&& self.order_type@ == Seq::<char>::empty()
        &&& self.limit_price.text@ == unset_double_text()
        &&& self.aux_price.text@ == unset_double_text()
        &&& self.tif@ == Seq::<char>::empty()
        &&& self.active_start_time@ == Seq::<char>::empty()
        &&& self.active_stop_time@ == Seq::<char>::empty()
        &&& self.oca_group@ == Seq::<char>::empty()
        &&& self.oca_type == 0
        &&& self.order_ref@ == Seq::<char>::empty()
        &&& self.transmit
        &&& self.parent_id == 0
        &&& !self.block_order
        &&& !self.sweep_to_fill
        &&& self.display_size == 0
        &&& self.trigger_method == 0
        &&& !self.outside_rth
        &&& !self.hidden
        &&& self.good_after_time@ == Seq::<char>::empty()
        &&& self.good_till_date@ == Seq::<char>::empty()
        &&& self.rule80a@ == Seq::<char>::empty()
        &&& !self.all_or_none
        &&& self.min_qty == UNSET_INTEGER
        &&& self.percent_offset.text@ == unset_double_text()
        &&& !self.override_percentage_constraints
        &&& self.trail_stop_price.text@ == unset_double_text()
        &&& self.trailing_percent.text@ == unset_double_text()
        &&& self.fa_group@ == Seq::<char>::empty()
        &&& self.fa_method@ == Seq::<char>::empty()
        &&& self.fa_percentage@ == Seq::<char>::empty()
        &&& self.designated_location@ == Seq::<char>::empty()
        &&& self.open_close@ == Seq::<char>::empty()
        &&& self.origin == Origin::Customer
        &&& self.short_sale_slot == 0
        &&& self.exempt_code == -1
        &&& self.discretionary_amount.text@ == "0"@
        &&& !self.opt_out_smart_routing
        &&& self.auction_strategy == AuctionStrategy::Unset
        &&& self.starting_price.text@ == unset_double_text()
        &&& self.stock_ref_price.text@ == unset_double_text()
        &&& self.delta.text@ == unset_double_text()
        &&& self.stock_range_lower.text@ == unset_double_text()
        &&& self.stock_range_upper.text@ == unset_double_text()
        &&& !self.randomize_price
        &&& !self.randomize_size
        &&& self.volatility.text@ == unset_double_text()
        &&& self.volatility_type == UNSET_INTEGER
        &&& self.delta_neutral_order_type@ == Seq::<char>::empty()
        &&& self.delta_neutral_aux_price.text@ == unset_double_text()
        &&& self.delta_neutral_con_id == 0
        &&& self.delta_neutral_settling_firm@ == Seq::<char>::empty()
        &&& self.delta_neutral_clearing_account@ == Seq::<char>::empty()
        &&& self.delta_neutral_clearing_intent@ == Seq::<char>::empty()
        &&& self.delta_neutral_open_close@ == Seq::<char>::empty()
        &&& !self.delta_neutral_short_sale
        &&& self.delta_neutral_short_sale_slot == 0
        &&& self.delta_neutral_designated_location@ == Seq::<char>::empty()
        &&& !self.continuous_update
        &&& self.reference_price_type == UNSET_INTEGER
        &&& self.basis_points.text@ == unset_double_text()
        &&& self.basis_points_type == UNSET_INTEGER
        &&& self.scale_init_level_size == UNSET_INTEGER
        &&& self.scale_subs_level_size == UNSET_INTEGER
        &&& self.scale_price_increment.text@ == unset_double_text()
        &&& self.scale_price_adjust_value.text@ == unset_double_text()
        &&& self.scale_price_adjust_interval == UNSET_INTEGER
        &&& self.scale_profit_offset.text@ == unset_double_text()
        &&& !self.scale_auto_reset
        &&& self.scale_init_position == UNSET_INTEGER
        &&& self.scale_init_fill_qty == UNSET_INTEGER
        &&& !self.scale_random_percent
        &&& self.scale_table@ == Seq::<char>::empty()
        &&& self.hedge_type@ == Seq::<char>::empty()
        &&& self.hedge_param@ == Seq::<char>::empty()
        &&& self.hedge_max_size == UNSET_INTEGER
        &&& self.account@ == Seq::<char>::empty()
        &&& self.settling_firm@ == Seq::<char>::empty()
        &&& self.clearing_account@ == Seq::<char>::empty()
        &&& self.clearing_intent@ == Seq::<char>::empty()
        &&& self.model_code@ == Seq::<char>::empty()
        &&& self.algo_strategy@ == Seq::<char>::empty()
        &&& self.algo_params@.len() == 0
        &&& self.smart_combo_routing_params@.len() == 0
        &&& self.algo_id@ == Seq::<char>::empty()
        &&& !self.what_if
        &&& !self.not_held
        &&& !self.solicited
        &&& self.order_combo_legs@.len() == 0
        &&& self.order_misc_options@.len() == 0
        &&& self.reference_contract_id == 0
        &&& self.pegged_change_amount.text@ == "0"@
        &&& !self.is_pegged_change_amount_decrease
        &&& self.reference_change_amount.text@ == "0"@
        &&& self.reference_exchange_id@ == Seq::<char>::empty()
        &&& self.adjusted_order_type@ == Seq::<char>::empty()
        &&& self.trigger_price.text@ == unset_double_text()
        &&& self.adjusted_stop_price.text@ == unset_double_text()
        &&& self.adjusted_stop_limit_price.text@ == unset_double_text()
        &&& self.adjusted_trailing_amount.text@ == unset_double_text()
        &&& self.adjustable_trailing_unit == 0
        &&& self.limit_price_offset.text@ == unset_double_text()
        &&& self.conditions@.len() == 0
        &&& !self.conditions_cancel_order
        &&& !self.conditions_ignore_rth
        &&& self.ext_operator@ == Seq::<char>::empty()
        &&& self.cash_qty.text@ == unset_double_text()
        &&& self.mifid2_decision_maker@ == Seq::<char>::empty()
        &&& self.mifid2_decision_algo@ == Seq::<char>::empty()
        &&& self.mifid2_execution_trader@ == Seq::<char>::empty()
        &&& self.mifid2_execution_algo@ == Seq::<char>::empty()
        &&& !self.dont_use_auto_price_for_hedge
        &&& !self.is_oms_container
        &&& !self.discretionary_up_to_limit_price
        &&& self.auto_cancel_date@ == Seq::<char>::empty()
        &&& self.filled_quantity.text@ == "0"@
        &&& self.ref_futures_con_id == 0
        &&& !self.auto_cancel_parent
        &&& self.shareholder@ == Seq::<char>::empty()
        &&& !self.imbalance_only
        &&& self.route_marketable_to_bbo == UNSET_INTEGER
        &&& self.parent_perm_id == 0
        &&& self.use_price_mgmt_algo == UNSET_INTEGER
        &&& self.duration == UNSET_INTEGER
        &&& self.post_to_ats == UNSET_INTEGER
        &&& self.advanced_error_override@ == Seq::<char>::empty()
        &&& self.manual_order_time@ == Seq::<char>::empty()
        &&& self.min_trade_qty == UNSET_INTEGER
        &&& self.min_compete_size == UNSET_INTEGER
        &&& self.compete_against_best_offset.text@ == unset_double_text()
        &&& self.mid_offset_at_whole.text@ == unset_double_text()
        &&& self.mid_offset_at_half.text@ == unset_double_text()
        &&& self.customer_account@ == Seq::<char>::empty()
        &&& !self.professional_customer
        &&& self.bond_accrued_interest@ == Seq::<char>::empty()
        &&& !self.include_overnight
        &&& self.manual_order_indicator == UNSET_INTEGER
        &&& self.submitter@ == Seq::<char>::empty()
        &&& !self.post_only
        &&& !self.allow_pre_open
        &&& !self.ignore_open_auction
        &&& !self.deactivate
        &&& self.seek_price_improvement == UNSET_INTEGER
        &&& self.what_if_type == UNSET_INTEGER
        &&& self.stop_loss_order_id == UNSET_INTEGER
        &&& self.stop_loss_order_type@ == Seq::<char>::empty()
        &&& self.profit_taker_order_id == UNSET_INTEGER
        &&& self.profit_taker_order_type@ == Seq::<char>::empty()
    }
}

impl Default for Order {
    fn default() -> (r: Self)
        ensures
            r.has_defaults(),
    {
        let r = Order {
            soft_dollar_tier: SoftDollarTier { name: String::new(), value: String::new(), display_name: String::new() },
            order_id: 0,
            client_id: 0,
            perm_id: 0,
            action: String::new(),
            total_quantity: DecimalText::zero(),
            order_type: String::new(),
            limit_price: Double::unset(),
            aux_price: Double::unset(),
            tif: String::new(),
            active_start_time: String::new(),
            active_stop_time: String::new(),
            oca_group: String::new(),
            oca_type: 0,
            order_ref: String::new(),
            transmit: true,
            parent_id: 0,
            block_order: false,
            sweep_to_fill: false,
            display_size: 0,
            trigger_method: 0,
            outside_rth: false,
            hidden: false,
            good_after_time: String::new(),
            good_till_date: String::new(),
            rule80a: String::new(),
            all_or_none: false,
            min_qty: UNSET_INTEGER,
            percent_offset: Double::unset(),
            override_percentage_constraints: false,
            trail_stop_price: Double::unset(),
            trailing_percent: Double::unset(),
            fa_group: String::new(),
            fa_method: String::new(),
            fa_percentage: String::new(),
            designated_location: String::new(),
            open_close: String::new(),
            origin: Origin::Customer,
            short_sale_slot: 0,
            exempt_code: -1,
            discretionary_amount: Double::zero(),
            opt_out_smart_routing: false,
            auction_strategy: AuctionStrategy::Unset,
            starting_price: Double::unset(),
            stock_ref_price: Double::unset(),
            delta: Double::unset(),
            stock_range_lower: Double::unset(),
            stock_range_upper: Double::unset(),
            randomize_price: false,
            randomize_size: false,
            volatility: Double::unset(),
            volatility_type: UNSET_INTEGER,
            delta_neutral_order_type: String::new(),
            delta_neutral_aux_price: Double::unset(),
            delta_neutral_con_id: 0,
            delta_neutral_settling_firm: String::new(),
            delta_neutral_clearing_account: String::new(),
            delta_neutral_clearing_intent: String::new(),
            delta_neutral_open_close: String::new(),
            delta_neutral_short_sale: false,
            delta_neutral_short_sale_slot: 0,
            delta_neutral_designated_location: String::new(),
            continuous_update: false,
            reference_price_type: UNSET_INTEGER,
            basis_points: Double::unset(),
            basis_points_type: UNSET_INTEGER,
            scale_init_level_size: UNSET_INTEGER,
            scale_subs_level_size: UNSET_INTEGER,
            scale_price_increment: Double::unset(),
            scale_price_adjust_value: Double::unset(),
            scale_price_adjust_interval: UNSET_INTEGER,
            scale_profit_offset: Double::unset(),
            scale_auto_reset: false,
            scale_init_position: UNSET_INTEGER,
            scale_init_fill_qty: UNSET_INTEGER,
            scale_random_percent: false,
            scale_table: String::new(),
            hedge_type: String::new(),
            hedge_param: String::new(),
            hedge_max_size: UNSET_INTEGER,
            account: String::new(),
            settling_firm: String::new(),
            clearing_account: String::new(),
            clearing_intent: String::new(),
            model_code: String::new(),
            algo_strategy: String::new(),
            algo_params: Vec::new(),
            smart_combo_routing_params: Vec::new(),
            algo_id: String::new(),
            what_if: false,
            not_held: false,
            solicited: false,
            order_combo_legs: Vec::new(),
            order_misc_options: Vec::new(),
            reference_contract_id: 0,
            pegged_change_amount: Double::zero(),
            is_pegged_change_amount_decrease: false,
            reference_change_amount: Double::zero(),
            reference_exchange_id: String::new(),
            adjusted_order_type: String::new(),
            trigger_price: Double::unset(),
            adjusted_stop_price: Double::unset(),
            adjusted_stop_limit_price: Double::unset(),
            adjusted_trailing_amount: Double::unset(),
            adjustable_trailing_unit: 0,
            limit_price_offset: Double::unset(),
            conditions: Vec::new(),
            conditions_cancel_order: false,
            conditions_ignore_rth: false,
            ext_operator: String::new(),
            cash_qty: Double::unset(),
            mifid2_decision_maker: String::new(),
            mifid2_decision_algo: String::new(),
            mifid2_execution_trader: String::new(),
            mifid2_execution_algo: String::new(),
            dont_use_auto_price_for_hedge: false,
            is_oms_container: false,
            discretionary_up_to_limit_price: false,
            auto_cancel_date: String::new(),
            filled_quantity: DecimalText::zero(),
            ref_futures_con_id: 0,
            auto_cancel_parent: false,
            shareholder: String::new(),
            imbalance_only: false,
            route_marketable_to_bbo: UNSET_INTEGER,
            parent_perm_id: 0,
            use_price_mgmt_algo: UNSET_INTEGER,
            duration: UNSET_INTEGER,
            post_to_ats: UNSET_INTEGER,
            advanced_error_override: String::new(),
            manual_order_time: String::new(),
            min_trade_qty: UNSET_INTEGER,
            min_compete_size: UNSET_INTEGER,
            compete_against_best_offset: Double::unset(),
            mid_offset_at_whole: Double::unset(),
            mid_offset_at_half: Double::unset(),
            customer_account: String::new(),
            professional_customer: false,
            bond_accrued_interest: String::new(),
            include_overnight: false,
            manual_order_indicator: UNSET_INTEGER,
            submitter: String::new(),
            post_only: false,
            allow_pre_open: false,
            ignore_open_auction: false,
            deactivate: false,
            seek_price_improvement: UNSET_INTEGER,
            what_if_type: UNSET_INTEGER,
            stop_loss_order_id: UNSET_INTEGER,
            stop_loss_order_type: String::new(),
            profit_taker_order_id: UNSET_INTEGER,
            profit_taker_order_type: String::new(),
        };
        r
    }
}

/// Execution details returned by TWS.
#[derive(Debug, Clone, PartialEq)]
pub struct Execution {
    /// Order id.
    pub order_id: i32,
    /// Execution id.
    pub exec_id: String,
    /// Execution time.
    pub time: String,
    /// Account number.
    pub acct_number: String,
    /// Exchange.
    pub exchange: String,
    /// Side.
    pub side: String,
    /// Executed quantity.
    pub shares: DecimalText,
    /// Execution price.
    pub price: Double,
    /// Permanent id.
    pub perm_id: i64,
    /// Client id.
    pub client_id: i32,
    /// Liquidation marker.
    pub liquidation: i32,
    /// Cumulative quantity.
    pub cum_qty: DecimalText,
    /// Average price.
    pub avg_price: Double,
    /// Order reference.
    pub order_ref: String,
    /// Economic value rule.
    pub ev_rule: String,
    /// Economic value multiplier.
    pub ev_multiplier: Double,
    /// Model code.
    pub model_code: String,
    /// Last liquidity marker.
    pub last_liquidity: i32,
    /// Price revision pending marker.
    pub pending_price_revision: bool,
    /// Submitter.
    pub submitter: String,
    /// Option exercise or lapse type.
    pub opt_exercise_or_lapse_type: i32,
}

impl Execution {
    /// True when every field holds the value `default` gives it.
    pub open spec fn has_defaults(self) -> bool {
        &&& self.order_id == 0
        &&& self.exec_id@ == Seq::<char>::empty()
        &&& self.time@ == Seq::<char>::empty()
        &&& self.acct_number@ == Seq::<char>::empty()
        &&& self.exchange@ == Seq::<char>::empty()
        &&& self.side@ == Seq::<char>::empty()
        &&& self.shares.text@ == "0"@
        &&& self.price.text@ == "0"@
        &&& self.perm_id == 0
        &&& self.client_id == 0
        &&& self.liquidation == 0
        &&& self.cum_qty.text@ == "0"@
        &&& self.avg_price.text@ == "0"@
        &&& self.order_ref@ == Seq::<char>::empty()
        &&& self.ev_rule@ == Seq::<char>::empty()
        &&& self.ev_multiplier.text@ == "0"@
        &&& self.model_code@ == Seq::<char>::empty()
        &&& self.last_liquidity == 0
        &&& !self.pending_price_revision
        &&& self.submitter@ == Seq::<char>::empty()
        &&& self.opt_exercise_or_lapse_type == 0
    }
}

impl Default for Execution {
    fn default() -> (r: Self)
        ensures
            r.has_defaults(),
    {
        let r = Execution {
            order_id: 0,
            exec_id: String::new(),
            time: String::new(),
            acct_number: String::new(),
            exchange: String::new(),
            side: String::new(),
            shares: DecimalText::zero(),
            price: Double::zero(),
            perm_id: 0,
            client_id: 0,
            liquidation: 0,
            cum_qty: DecimalText::zero(),
            avg_price: Double::zero(),
            order_ref: String::new(),
            ev_rule: String::new(),
            ev_multiplier: Double::zero(),
            model_code: String::new(),
            last_liquidity: 0,
            pending_price_revision: false,
            submitter: String::new(),
            opt_exercise_or_lapse_type: 0,
        };
        r
    }
}

/// Account allocation details for an order state.
#[derive(Debug, Clone, PartialEq)]
pub struct OrderAllocation {
    /// Account.
    pub account: String,
    /// Current position.
    pub position: DecimalText,
    /// Desired position.
    pub position_desired: DecimalText,
    /// Position after allocation.
    pub position_after: DecimalText,
    /// Desired allocation quantity.
    pub desired_alloc_qty: DecimalText,
    /// Allowed allocation quantity.
    pub allowed_alloc_qty: DecimalText,
    /// Monetary allocation flag.
    pub is_monetary: bool,
}

impl OrderAllocation {
    /// True when every field holds the value `default` gives it.
    pub open spec fn has_defaults(self) -> bool {
        &&& self.account@ == Seq::<char>::empty()
        &&& self.position.text@ == "0"@
        &&& self.position_desired.text@ == "0"@
        &&& self.position_after.text@ == "0"@
        &&& self.desired_alloc_qty.text@ == "0"@
        &&& self.allowed_alloc_qty.text@ == "0"@
        &&& !self.is_monetary
    }
}

impl Default for OrderAllocation {
    fn default() -> (r: Self)
        ensures
            r.has_defaults(),
    {
        let r = OrderAllocation {
            account: String::new(),
            position: DecimalText::zero(),
            position_desired: DecimalText::zero(),
            position_after: DecimalText::zero(),
            desired_alloc_qty: DecimalText::zero(),
            allowed_alloc_qty: DecimalText::zero(),
            is_monetary: false,
        };
        r
    }
}

/// Order state returned by TWS.
#[derive(Debug, Clone, PartialEq)]
pub struct OrderState {
    /// Status.
    pub status: String,
    /// Initial margin before the order.
    pub init_margin_before: Double,
    /// Maintenance margin before the order.
    pub maint_margin_before: Double,
    /// Equity with loan before the order.
    pub equity_with_loan_before: Double,
    /// Initial margin change.
    pub init_margin_change: Double,
    /// Maintenance margin change.
    pub maint_margin_change: Double,
    /// Equity with loan change.
    pub equity_with_loan_change: Double,
    /// Initial margin after the order.
    pub init_margin_after: Double,
    /// Maintenance margin after the order.
    pub maint_margin_after: Double,
    /// Equity with loan after the order.
    pub equity_with_loan_after: Double,
    /// Commission and fees.
    pub commission_and_fees: Double,
    /// Minimum commission and fees.
    pub min_commission_and_fees: Double,
    /// Maximum commission and fees.
    pub max_commission_and_fees: Double,
    /// Commission and fees currency.
    pub commission_and_fees_currency: String,
    /// Margin currency.
    pub margin_currency: String,
    /// Initial margin before the order outside RTH.
    pub init_margin_before_outside_rth: Double,
    /// Maintenance margin before the order outside RTH.
    pub maint_margin_before_outside_rth: Double,
    /// Equity with loan before the order outside RTH.
    pub equity_with_loan_before_outside_rth: Double,
    /// Initial margin change outside RTH.
    pub init_margin_change_outside_rth: Double,
    /// Maintenance margin change outside RTH.
    pub maint_margin_change_outside_rth: Double,
    /// Equity with loan change outside RTH.
    pub equity_with_loan_change_outside_rth: Double,
    /// Initial margin after the order outside RTH.
    pub init_margin_after_outside_rth: Double,
    /// Maintenance margin after the order outside RTH.
    pub maint_margin_after_outside_rth: Double,
    /// Equity with loan after the order outside RTH.
    pub equity_with_loan_after_outside_rth: Double,
    /// Suggested size.
    pub suggested_size: String,
    /// Reject reason.
    pub reject_reason: String,
    /// Allocation details.
    pub order_allocations: Vec<OrderAllocation>,
    /// Warning text.
    pub warning_text: String,
    /// Completed time.
    pub completed_time: String,
    /// Completed status.
    pub completed_status: String,
}

impl OrderState {
    /// True when every field holds the value `default` gives it.
    pub open spec fn has_defaults(self) -> bool {
        &&& self.status@ == Seq::<char>::empty()
        &&& self.init_margin_before.text@ == "0"@
        &&& self.maint_margin_before.text@ == "0"@
        &&& self.equity_with_loan_before.text@ == "0"@
        &&& self.init_margin_change.text@ == "0"@
        &&& self.maint_margin_change.text@ == "0"@
        &&& self.equity_with_loan_change.text@ == "0"@
        &&& self.init_margin_after.text@ == "0"@
        &&& self.maint_margin_after.text@ == "0"@
        &&& self.equity_with_loan_after.text@ == "0"@
        &&& self.commission_and_fees.text@ == "0"@
        &&& self.min_commission_and_fees.text@ == "0"@
        &&& self.max_commission_and_fees.text@ == "0"@
        &&& self.commission_and_fees_currency@ == Seq::<char>::empty()
        &&& self.margin_currency@ == Seq::<char>::empty()
        &&& self.init_margin_before_outside_rth.text@ == "0"@
        &&& self.maint_margin_before_outside_rth.text@ == "0"@
        &&& self.equity_with_loan_before_outside_rth.text@ == "0"@
        &&& self.init_margin_change_outside_rth.text@ == "0"@
        &&& self.maint_margin_change_outside_rth.text@ == "0"@
        &&& self.equity_with_loan_change_outside_rth.text@ == "0"@
        &&& self.init_margin_after_outside_rth.text@ == "0"@
        &&& self.maint_margin_after_outside_rth.text@ == "0"@
        &&& self.equity_with_loan_after_outside_rth.text@ == "0"@
        &&& self.suggested_size@ == Seq::<char>::empty()
        &&& self.reject_reason@ == Seq::<char>::empty()
        &&& self.order_allocations@.len() == 0
        &&& self.warning_text@ == Seq::<char>::empty()
        &&& self.completed_time@ == Seq::<char>::empty()
        &&& self.completed_status@ == Seq::<char>::empty()
    }
}

impl Default for OrderState {
    fn default() -> (r: Self)
        ensures
            r.has_defaults(),
    {
        let r = OrderState {
            status: String::new(),
            init_margin_before: Double::zero(),
            maint_margin_before: Double::zero(),
            equity_with_loan_before: Double::zero(),
            init_margin_change: Double::zero(),
            maint_margin_change: Double::zero(),
            equity_with_loan_change: Double::zero(),
            init_margin_after: Double::zero(),
            maint_margin_after: Double::zero(),
            equity_with_loan_after: Double::zero(),
            commission_and_fees: Double::zero(),
            min_commission_and_fees: Double::zero(),
            max_commission_and_fees: Double::zero(),
            commission_and_fees_currency: String::new(),
            margin_currency: String::new(),
            init_margin_before_outside_rth: Double::zero(),
            maint_margin_before_outside_rth: Double::zero(),
            equity_with_loan_before_outside_rth: Double::zero(),
            init_margin_change_outside_rth: Double::zero(),
            maint_margin_change_outside_rth: Double::zero(),
            equity_with_loan_change_outside_rth: Double::zero(),
            init_margin_after_outside_rth: Double::zero(),
            maint_margin_after_outside_rth: Double::zero(),
            equity_with_loan_after_outside_rth: Double::zero(),
            suggested_size: String::new(),
            reject_reason: String::new(),
            order_allocations: Vec::new(),
            warning_text: String::new(),
            completed_time: String::new(),
            completed_status: String::new(),
        };
        r
    }
}

/// Commission and fees report.
#[derive(Debug, Clone, PartialEq)]
pub struct CommissionAndFeesReport {
    /// Execution id.
    pub exec_id: String,
    /// Commission and fees.
    pub commission_and_fees: Double,
    /// Currency.
    pub currency: String,
    /// Realized profit and loss.
    pub realized_pnl: Double,
    /// Bond yield.
    pub bond_yield: Double,
    /// Yield redemption date.
    pub yield_redemption_date: String,
}

impl CommissionAndFeesReport {
    /// True when every field holds the value `default` gives it.
    pub open spec fn has_defaults(self) -> bool {
        &&& self.exec_id@ == Seq::<char>::empty()
        &&& self.commission_and_fees.text@ == "0"@
        &&& self.currency@ == Seq::<char>::empty()
        &&& self.realized_pnl.text@ == "0"@
        &&& self.bond_yield.text@ == "0"@
        &&& self.yield_redemption_date@ == Seq::<char>::empty()
    }
}

impl Default for CommissionAndFeesReport {
    fn default() -> (r: Self)
        ensures
            r.has_defaults(),
    {
        let r = CommissionAndFeesReport {
            exec_id: String::new(),
            commission_and_fees: Double::zero(),
            currency: String::new(),
            realized_pnl: Double::zero(),
            bond_yield: Double::zero(),
            yield_redemption_date: String::new(),
        };
        r
    }
}

/// Contract description returned by matching symbol queries.
#[derive(Debug, Clone, PartialEq)]
pub struct ContractDescription {
    /// Contract.
    pub contract: Contract,
    /// Derivative security types.
    pub derivative_sec_types: Vec<String>,
}

impl ContractDescription {
    /// True when every field holds the value `default` gives it.
    pub open spec fn has_defaults(self) -> bool {
        &&& self.contract.has_defaults()
        &&& self.derivative_sec_types@.len() == 0
    }
}

impl Default for ContractDescription {
    fn default() -> (r: Self)
        ensures
            r.has_defaults(),
    {
        let r = ContractDescription {
            contract: Contract::default(),
            derivative_sec_types: Vec::new(),
        };
        r
    }
}

/// Historical midpoint/trade tick.
#[derive(Debug, Clone, PartialEq)]
pub struct HistoricalTick {
    /// Unix timestamp seconds.
    pub time: i64,
    /// Price.
    pub price: Double,
    /// Size.
    pub size: DecimalText,
}

impl HistoricalTick {
    /// True when every field holds the value `default` gives it.
    pub open spec fn has_defaults(self) -> bool {
        &&& self.time == 0
        &&& self.price.text@ == "0"@
        &&& self.size.text@ == "0"@
    }
}

impl Default for HistoricalTick {
    fn default() -> (r: Self)
        ensures
            r.has_defaults(),
    {
        let r = HistoricalTick {
            time: 0,
            price: Double::zero(),
            size: DecimalText::zero(),
        };
        r
    }
}

/// Historical bid/ask tick.
#[derive(Debug, Clone, PartialEq)]
pub struct HistoricalTickBidAsk {
    /// Unix timestamp seconds.
    pub time: i64,
    /// Attributes.
    pub tick_attrib_bid_ask: TickAttribBidAsk,
    /// Bid price.
    pub price_bid: Double,
    /// Ask price.
    pub price_ask: Double,
    /// Bid size.
    pub size_bid: DecimalText,
    /// Ask size.
    pub size_ask: DecimalText,
}

impl HistoricalTickBidAsk {
    /// True when every field holds the value `default` gives it.
    pub open spec fn has_defaults(self) -> bool {
        &&& self.time == 0
        &&& !self.tick_attrib_bid_ask.bid_past_low && !self.tick_attrib_bid_ask.ask_past_high
        &&& self.price_bid.text@ == "0"@
        &&& self.price_ask.text@ == "0"@
        &&& self.size_bid.text@ == "0"@
        &&& self.size_ask.text@ == "0"@
    }
}

impl Default for HistoricalTickBidAsk {
    fn default() -> (r: Self)
        ensures
            r.has_defaults(),
    {
        let r = HistoricalTickBidAsk {
            time: 0,
            tick_attrib_bid_ask: TickAttribBidAsk { bid_past_low: false, ask_past_high: false },
            price_bid: Double::zero(),
            price_ask: Double::zero(),
            size_bid: DecimalText::zero(),
            size_ask: DecimalText::zero(),
        };
        r
    }
}

/// Historical last trade tick.
#[derive(Debug, Clone, PartialEq)]
pub struct HistoricalTickLast {
    /// Unix timestamp seconds.
    pub time: i64,
    /// Attributes.
    pub tick_attrib_last: TickAttribLast,
    /// Price.
    pub price: Double,
    /// Size.
    pub size: DecimalText,
    /// Exchange.
    pub exchange: String,
    /// Special conditions.
    pub special_conditions: String,
}

impl HistoricalTickLast {
    /// True when every field holds the value `default` gives it.
    pub open spec fn has_defaults(self) -> bool {
        &&& self.time == 0
        &&& !self.tick_attrib_last.past_limit && !self.tick_attrib_last.unreported
        &&& self.price.text@ == "0"@
        &&& self.size.text@ == "0"@
        &&& self.exchange@ == Seq::<char>::empty()
        &&& self.special_conditions@ == Seq::<char>::empty()
    }
}

impl Default for HistoricalTickLast {
    fn default() -> (r: Self)
        ensures
            r.has_defaults(),
    {
        let r = HistoricalTickLast {
            time: 0,
            tick_attrib_last: TickAttribLast { past_limit: false, unreported: false },
            price: Double::zero(),
            size: DecimalText::zero(),
            exchange: String::new(),
            special_conditions: String::new(),
        };
        r
    }
}

/// Scanner subscription.
#[derive(Debug, Clone, PartialEq)]
pub struct ScannerSubscription {
    /// Number of rows.
    pub number_of_rows: i32,
    /// Instrument.
    pub instrument: String,
    /// Location code.
    pub location_code: String,
    /// Scan code.
    pub scan_code: String,
    /// Above price.
    pub above_price: Double,
    /// Below price.
    pub below_price: Double,
    /// Above volume.
    pub above_volume: i32,
    /// Market cap above.
    pub market_cap_above: Double,
    /// Market cap below.
    pub market_cap_below: Double,
    /// Moody rating above.
    pub moody_rating_above: String,
    /// Moody rating below.
    pub moody_rating_below: String,
    /// SP rating above.
    pub sp_rating_above: String,
    /// SP rating below.
    pub sp_rating_below: String,
    /// Maturity date above.
    pub maturity_date_above: String,
    /// Maturity date below.
    pub maturity_date_below: String,
    /// Coupon rate above.
    pub coupon_rate_above: Double,
    /// Coupon rate below.
    pub coupon_rate_below: Double,
    /// Exclude convertible.
    pub exclude_convertible: bool,
    /// Average option volume above.
    pub average_option_volume_above: i32,
    /// Scanner setting pairs.
    pub scanner_setting_pairs: String,
    /// Stock type filter.
    pub stock_type_filter: String,
}

impl ScannerSubscription {
    /// True when every field holds the value `default` gives it.
    pub open spec fn has_defaults(self) -> bool {
        &&& self.number_of_rows == 0
        &&& self.instrument@ == Seq::<char>::empty()
        &&& self.location_code@ == Seq::<char>::empty()
        &&& self.scan_code@ == Seq::<char>::empty()
        &&& self.above_price.text@ == "0"@
        &&& self.below_price.text@ == "0"@
        &&& self.above_volume == 0
        &&& self.market_cap_above.text@ == "0"@
        &&& self.market_cap_below.text@ == "0"@
        &&& self.moody_rating_above@ == Seq::<char>::empty()
        &&& self.moody_rating_below@ == Seq::<char>::empty()
        &&& self.sp_rating_above@ == Seq::<char>::empty()
        &&& self.sp_rating_below@ == Seq::<char>::empty()
        &&& self.maturity_date_above@ == Seq::<char>::empty()
        &&& self.maturity_date_below@ == Seq::<char>::empty()
        &&& self.coupon_rate_above.text@ == "0"@
        &&& self.coupon_rate_below.text@ == "0"@
        &&& !self.exclude_convertible
        &&& self.average_option_volume_above == 0
        &&& self.scanner_setting_pairs@ == Seq::<char>::empty()
        &&& self.stock_type_filter@ == Seq::<char>::empty()
    }
}

impl Default for ScannerSubscription {
    fn default() -> (r: Self)
        ensures
            r.has_defaults(),
    {
        let r = ScannerSubscription {
            number_of_rows: 0,
            instrument: String::new(),
            location_code: String::new(),
            scan_code: String::new(),
            above_price: Double::zero(),
            below_price: Double::zero(),
            above_volume: 0,
            market_cap_above: Double::zero(),
            market_cap_below: Double::zero(),
            moody_rating_above: String::new(),
            moody_rating_below: String::new(),
            sp_rating_above: String::new(),
            sp_rating_below: String::new(),
            maturity_date_above: String::new(),
            maturity_date_below: String::new(),
            coupon_rate_above: Double::zero(),
            coupon_rate_below: Double::zero(),
            exclude_convertible: false,
            average_option_volume_above: 0,
            scanner_setting_pairs: String::new(),
            stock_type_filter: String::new(),
        };
        r
    }
}

/// Historical bar data.
#[derive(Debug, Clone, PartialEq)]
pub struct BarData {
    /// Date.
    pub date: String,
    /// Open.
    pub open: Double,
    /// High.
    pub high: Double,
    /// Low.
    pub low: Double,
    /// Close.
    pub close: Double,
    /// Volume.
    pub volume: DecimalText,
    /// WAP.
    pub wap: DecimalText,
    /// Bar count.
    pub bar_count: i32,
}

impl BarData {
    /// True when every field holds the value `default` gives it.
    pub open spec fn has_defaults(self) -> bool {
        &&& self.date@ == Seq::<char>::empty()
        &&& self.open.text@ == "0"@
        &&& self.high.text@ == "0"@
        &&& self.low.text@ == "0"@
        &&& self.close.text@ == "0"@
        &&& self.volume.text@ == "0"@
        &&& self.wap.text@ == "0"@
        &&& self.bar_count == 0
    }
}

impl Default for BarData {
    fn default() -> (r: Self)
        ensures
            r.has_defaults(),
    {
        let r = BarData {
            date: String::new(),
            open: Double::zero(),
            high: Double::zero(),
            low: Double::zero(),
            close: Double::zero(),
            volume: DecimalText::zero(),
            wap: DecimalText::zero(),
            bar_count: 0,
        };
        r
    }
}

/// Real-time five-second bar. This is intentionally distinct from historical bars because its
/// timestamp and end time have different semantics in the TWS API.
#[derive(Debug, Clone, PartialEq)]
pub struct RealTimeBar {
    pub time: i64,
    pub end_time: i64,
    pub open: Double,
    pub high: Double,
    pub low: Double,
    pub close: Double,
    pub volume: DecimalText,
    pub wap: DecimalText,
    pub count: i32,
}

impl RealTimeBar {
    /// True when every field holds the value `default` gives it.
    pub open spec fn has_defaults(self) -> bool {
        &&& self.time == 0
        &&& self.end_time == 0
        &&& self.open.text@ == "0"@
        &&& self.high.text@ == "0"@
        &&& self.low.text@ == "0"@
        &&& self.close.text@ == "0"@
        &&& self.volume.text@ == "0"@
        &&& self.wap.text@ == "0"@
        &&& self.count == 0
    }
}

impl Default for RealTimeBar {
    fn default() -> (r: Self)
        ensures
            r.has_defaults(),
    {
        let r = RealTimeBar {
            time: 0,
            end_time: 0,
            open: Double::zero(),
            high: Double::zero(),
            low: Double::zero(),
            close: Double::zero(),
            volume: DecimalText::zero(),
            wap: DecimalText::zero(),
            count: 0,
        };
        r
    }
}

/// Price increment for a market rule.
#[derive(Debug, Clone, PartialEq)]
pub struct PriceIncrement {
    pub low_edge: Double,
    pub increment: Double,
}

impl PriceIncrement {
    /// True when every field holds the value `default` gives it.
    pub open spec fn has_defaults(self) -> bool {
        &&& self.low_edge.text@ == "0"@
        &&& self.increment.text@ == "0"@
    }
}

impl Default for PriceIncrement {
    fn default() -> (r: Self)
        ensures
            r.has_defaults(),
    {
        let r = PriceIncrement {
            low_edge: Double::zero(),
            increment: Double::zero(),
        };
        r
    }
}

/// Tick-by-tick payload.
#[derive(Debug, Clone, PartialEq)]
pub enum TickByTick {
    /// Last trade tick.
    Last(HistoricalTickLast),
    /// Bid/ask tick.
    BidAsk(HistoricalTickBidAsk),
    /// Midpoint tick.
    MidPoint(HistoricalTick),
}

/// Order condition.
#[derive(Debug, Clone, PartialEq)]
pub enum OrderCondition {
    /// Price condition.
    Price {
        /// AND if true, OR if false.
        is_conjunction_connection: bool,
        /// Trigger method.
        trigger_method: i32,
        /// Contract id.
        con_id: i32,
        /// Exchange.
        exchange: String,
        /// More-than comparison.
        is_more: bool,
        /// Price.
        price: Double,
    },
    /// Time condition.
    Time {
        /// AND if true, OR if false.
        is_conjunction_connection: bool,
        /// More-than comparison.
        is_more: bool,
        /// Time string.
        time: String,
    },
    /// Margin condition.
    Margin {
        /// AND if true, OR if false.
        is_conjunction_connection: bool,
        /// More-than comparison.
        is_more: bool,
        /// Percent.
        percent: Double,
    },
    /// Execution condition.
    Execution {
        /// AND if true, OR if false.
        is_conjunction_connection: bool,
        /// Security type.
        sec_type: String,
        /// Exchange.
        exchange: String,
        /// Symbol.
        symbol: String,
    },
    /// Volume condition.
    Volume {
        /// AND if true, OR if false.
        is_conjunction_connection: bool,
        /// Contract id.
        con_id: i32,
        /// Exchange.
        exchange: String,
        /// More-than comparison.
        is_more: bool,
        /// Volume.
        volume: i32,
    },
    /// Percent-change condition.
    PercentChange {
        /// AND if true, OR if false.
        is_conjunction_connection: bool,
        /// Contract id.
        con_id: i32,
        /// Exchange.
        exchange: String,
        /// More-than comparison.
        is_more: bool,
        /// Change percent.
        change_percent: Double,
    },
}


impl OrderCondition {
    /// Trigger method for price conditions.
    pub fn trigger_method(&self) -> (r: Option<TriggerMethod>)
        ensures
            match *self {
                OrderCondition::Price { trigger_method, .. } => r matches Some(m) && m.wire_value()
                    == trigger_method && m.is_canonical(),
                _ => r is None,
            },
    {
        match self {
            OrderCondition::Price { trigger_method, .. } => Some(TriggerMethod::from_i32(*trigger_method)),
            _ => None,
        }
    }
}

impl Execution {
    /// Typed option exercise type.
    pub fn option_exercise_type(&self) -> (r: OptionExerciseType)
        ensures
            r.wire_value() == self.opt_exercise_or_lapse_type,
            r.is_canonical(),
    {
        OptionExerciseType::from_i32(self.opt_exercise_or_lapse_type)
    }

    /// Typed last liquidity.
    pub fn liquidity(&self) -> (r: Liquidities)
        ensures
            r.wire_value() == self.last_liquidity,
            r.is_canonical(),
    {
        Liquidities::from_i32(self.last_liquidity)
    }
}

} // verus!
