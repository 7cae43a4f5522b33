use ec_demo::Threshold;
use ec_demo::battery::BatteryTechnology;
use ec_demo::battery::BixData;
use ec_demo::battery::BstData;
use ec_demo::battery::ChargeState;
use ec_demo::battery::PowerUnit;
use ec_demo::battery::SwapCap;
use ec_demo::common::SampleBuf;
use ec_demo::common::time_label_values;
use ec_demo::common::title_str_with_status;
use ec_demo::mock::Mock;
use ec_demo::rtc::Rtc;
use ec_demo::ucsi::Ucsi;

#[test]
fn charge_state_codes() {
    assert_eq!(ChargeState::try_from(1), Some(ChargeState::Discharging));
    assert_eq!(ChargeState::try_from(2), Some(ChargeState::Charging));
    assert_eq!(ChargeState::try_from(0), None);
    assert_eq!(ChargeState::try_from(3), None);
}

#[test]
fn charge_state_strings() {
    assert_eq!(ChargeState::Charging.as_str(), "Charging");
    assert_eq!(ChargeState::Discharging.as_str(), "Discharging");
}

#[test]
fn power_unit_codes() {
    assert_eq!(PowerUnit::try_from(0), Some(PowerUnit::Mw));
    assert_eq!(PowerUnit::try_from(1), Some(PowerUnit::Ma));
    assert_eq!(PowerUnit::try_from(2), None);
}

#[test]
fn power_unit_strings() {
    assert_eq!(PowerUnit::Mw.as_capacity_str(), "mWh");
    assert_eq!(PowerUnit::Ma.as_capacity_str(), "mAh");
    assert_eq!(PowerUnit::Mw.as_rate_str(), "mW");
    assert_eq!(PowerUnit::Ma.as_rate_str(), "mA");
}

#[test]
fn battery_technology_codes() {
    assert_eq!(BatteryTechnology::try_from(0), Some(BatteryTechnology::Primary));
    assert_eq!(BatteryTechnology::try_from(1), Some(BatteryTechnology::Secondary));
    assert_eq!(BatteryTechnology::try_from(9), None);
    assert_eq!(BatteryTechnology::Primary.as_str(), "Primary");
    assert_eq!(BatteryTechnology::Secondary.as_str(), "Secondary");
}

#[test]
fn swap_cap_codes() {
    assert_eq!(SwapCap::try_from(0), Some(SwapCap::NonSwappable));
    assert_eq!(SwapCap::try_from(1), Some(SwapCap::ColdSwappable));
    assert_eq!(SwapCap::try_from(2), Some(SwapCap::HotSwappable));
    assert_eq!(SwapCap::try_from(3), None);
    assert_eq!(SwapCap::NonSwappable.as_str(), "Non swappable");
    assert_eq!(SwapCap::ColdSwappable.as_str(), "Cold swappable");
    assert_eq!(SwapCap::HotSwappable.as_str(), "Hot swappable");
}

#[test]
fn battery_records_hold_fields() {
    let bst = BstData { state: ChargeState::Charging, rate: 3839, capacity: 5000, voltage: 12569 };
    assert_eq!(bst.rate, 3839);
    assert_eq!(bst.capacity, 5000);
    assert_eq!(bst.voltage, 12569);
    assert_eq!(bst.state, ChargeState::Charging);

    let mut bix = BixData::default();
    bix.design_capacity = 10000;
    bix.model_number = String::from("42.0");
    assert_eq!(bix.design_capacity, 10000);
    assert_eq!(bix.model_number, "42.0");
    assert_eq!(bix.power_unit, PowerUnit::Mw);
}

#[test]
fn sample_buf_evicts_oldest_beyond_capacity() {
    let mut buf: SampleBuf<u32, 3> = SampleBuf::new();
    assert_eq!(buf.len(), 0);
    buf.insert(1);
    buf.insert(2);
    buf.insert(3);
    assert_eq!(buf.len(), 3);
    buf.insert(4);
    buf.insert(5);
    assert_eq!(buf.len(), 3);
    assert_eq!(buf.sample(0), 3);
    assert_eq!(buf.sample(1), 4);
    assert_eq!(buf.sample(2), 5);
}

#[test]
fn sample_buf_default_is_empty() {
    let buf: SampleBuf<u32, 60> = SampleBuf::default();
    assert_eq!(buf.len(), 0);
}

#[test]
fn title_with_status_indicator() {
    assert_eq!(title_str_with_status("Battery Info", true), "Battery Info ✅");
    assert_eq!(title_str_with_status("Battery Info", false), "Battery Info ❌");
}

#[test]
fn time_labels_before_and_after_window_fills() {
    assert_eq!(time_label_values(10, 60), (0, 30, 60));
    assert_eq!(time_label_values(60, 60), (0, 30, 60));
    assert_eq!(time_label_values(100, 60), (40, 70, 100));
}

#[test]
fn source_handles_construct() {
    let _mock = Mock::new();
    let _rtc = Rtc::new();
    let _ucsi = Ucsi::new();
    let _t = Threshold::On;
    assert_eq!(Threshold::On, Threshold::On);
    assert_ne!(Threshold::Ramping, Threshold::Max);
}
