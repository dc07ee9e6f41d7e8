use truefix_twsapi_client::enums::{
    FaDataType, FundAssetType, FundDistributionPolicyIndicator, Liquidities, MarketDataType,
    OptionExerciseType, TickType, TriggerMethod,
};

#[test]
fn unknown_wire_values_are_preserved() {
    assert_eq!(TickType::from_i32(999).as_i32(), 999);
    assert_eq!(MarketDataType::from_i32(3), MarketDataType::Delayed);
}

#[test]
fn string_enum_codes_round_trip() {
    assert_eq!(FundAssetType::from_code("004"), FundAssetType::Equity);
    assert_eq!(FundDistributionPolicyIndicator::IncomeFund.code(), "Y");
}

#[test]
fn tick_type_known_values_and_names() {
    assert_eq!(TickType::from_i32(0), TickType::BidSize);
    assert_eq!(TickType::from_i32(111), TickType::NotSet);
    assert_eq!(TickType::from_i32(112), TickType::Unknown(112));
    assert_eq!(TickType::from_i32(-1), TickType::Unknown(-1));
    assert_eq!(TickType::RealTimeVolume.as_i32(), 48);
    assert_eq!(TickType::RealTimeVolume.name(), "RT_VOLUME");
    assert_eq!(TickType::Unknown(7).name(), "UNKNOWN");
    assert_eq!(TickType::from_i32(TickType::Halted.as_i32()), TickType::Halted);
}

#[test]
fn small_int_enums_match_the_wire() {
    assert_eq!(FaDataType::from_i32(2), FaDataType::Unknown(2));
    assert_eq!(FaDataType::from_i32(3), FaDataType::Aliases);
    assert_eq!(Liquidities::from_i32(0), Liquidities::NoValue);
    assert_eq!(Liquidities::NoValue.name(), "None");
    assert_eq!(OptionExerciseType::from_i32(-1), OptionExerciseType::NoValue);
    assert_eq!(OptionExerciseType::AutoexerciseTrading.as_i32(), 200);
    assert_eq!(TriggerMethod::from_i32(7), TriggerMethod::LastBidAsk);
    assert_eq!(TriggerMethod::from_i32(5), TriggerMethod::Unknown(5));
    assert_eq!(MarketDataType::DelayedFrozen.name(), "DELAYED_FROZEN");
}

#[test]
fn fund_codes_cover_every_variant() {
    for v in [
        FundAssetType::NoValue,
        FundAssetType::Others,
        FundAssetType::MoneyMarket,
        FundAssetType::FixedIncome,
        FundAssetType::MultiAsset,
        FundAssetType::Equity,
        FundAssetType::Sector,
        FundAssetType::Guaranteed,
        FundAssetType::Alternative,
        FundAssetType::Unknown,
    ] {
        assert_eq!(FundAssetType::from_code(v.code()), v);
    }
    assert_eq!(FundAssetType::from_code("008"), FundAssetType::Unknown);
    assert_eq!(FundAssetType::NoValue.code(), "None");
    assert_eq!(FundDistributionPolicyIndicator::from_code("N"), FundDistributionPolicyIndicator::AccumulationFund);
    assert_eq!(FundDistributionPolicyIndicator::from_code("y"), FundDistributionPolicyIndicator::Unknown);
    assert_eq!(FundDistributionPolicyIndicator::Unknown.code(), "");
}
