//! Typed battery data as reported by the embedded controller: charge
//! state, power unit, technology and swap capability codes, and the
//! structured battery status and information records they appear in.

use vstd::prelude::*;

verus! {

/// ACPI battery charge state code.
#[derive(Debug, Clone, Copy, PartialEq, Eq, Structural, Default)]
pub enum ChargeState {
    #[default]
    Charging,
    Discharging,
}

impl ChargeState {
    /// Decode the numeric charge-state code: 1 = discharging, 2 = charging.
    pub fn try_from(value: u32) -> (r: Option<ChargeState>)
        ensures
            r == (if value == 1 {
                Some(ChargeState::Discharging)
            } else if value == 2 {
                Some(ChargeState::Charging)
            } else {
                None::<ChargeState>
            }),
    {
        match value {
            1 => Some(ChargeState::Discharging),
            2 => Some(ChargeState::Charging),
            _ => None,
        }
    }

    pub fn as_str(&self) -> (r: &'static str)
        ensures
            r@ == (match self {
                ChargeState::Charging => "Charging"@,
                ChargeState::Discharging => "Discharging"@,
            }),
    {
        match self {
            ChargeState::Charging => "Charging",
            ChargeState::Discharging => "Discharging",
        }
    }
}

/// ACPI battery power unit code: 0 = milliwatts, 1 = milliamps.
#[derive(Debug, Clone, Copy, PartialEq, Eq, Structural, Default)]
pub enum PowerUnit {
    #[default]
    Mw,
    Ma,
}

impl PowerUnit {
    /// Decode the numeric power-unit code: 0 = mW, 1 = mA.
    pub fn try_from(value: u32) -> (r: Option<PowerUnit>)
        ensures
            r == (if value == 0 {
                Some(PowerUnit::Mw)
            } else if value == 1 {
                Some(PowerUnit::Ma)
            } else {
                None::<PowerUnit>
            }),
    {
        match value {
            0 => Some(PowerUnit::Mw),
            1 => Some(PowerUnit::Ma),
            _ => None,
        }
    }

    pub fn as_capacity_str(&self) -> (r: &'static str)
        ensures
            r@ == (match self {
                PowerUnit::Mw => "mWh"@,
                PowerUnit::Ma => "mAh"@,
            }),
    {
        match self {
            PowerUnit::Mw => "mWh",
            PowerUnit::Ma => "mAh",
        }
    }

    pub fn as_rate_str(&self) -> (r: &'static str)
        ensures
            r@ == (match self {
                PowerUnit::Mw => "mW"@,
                PowerUnit::Ma => "mA"@,
            }),
    {
        match self {
            PowerUnit::Mw => "mW",
            PowerUnit::Ma => "mA",
        }
    }
}

/// ACPI battery technology code: 0 = primary, 1 = secondary.
#[derive(Debug, Clone, Copy, PartialEq, Eq, Structural, Default)]
pub enum BatteryTechnology {
    #[default]
    Primary,
    Secondary,
}

impl BatteryTechnology {
    /// Decode the numeric battery-technology code.
    pub fn try_from(value: u32) -> (r: Option<BatteryTechnology>)
        ensures
            r == (if value == 0 {
                Some(BatteryTechnology::Primary)
            } else if value == 1 {
                Some(BatteryTechnology::Secondary)
            } else {
                None::<BatteryTechnology>
            }),
    {
        match value {
            0 => Some(BatteryTechnology::Primary),
            1 => Some(BatteryTechnology::Secondary),
            _ => None,
        }
    }

    pub fn as_str(&self) -> (r: &'static str)
        ensures
            r@ == (match self {
                BatteryTechnology::Primary => "Primary"@,
                BatteryTechnology::Secondary => "Secondary"@,
            }),
    {
        match self {
            BatteryTechnology::Primary => "Primary",
            BatteryTechnology::Secondary => "Secondary",
        }
    }
}

/// ACPI battery swap capability code.
#[derive(Debug, Clone, Copy, PartialEq, Eq, Structural, Default)]
pub enum SwapCap {
    #[default]
    NonSwappable,
    ColdSwappable,
    HotSwappable,
}

impl SwapCap {
    /// Decode the numeric swap-capability code: 0 = non-swappable,
    /// 1 = cold-swappable, 2 = hot-swappable.
    pub fn try_from(value: u32) -> (r: Option<SwapCap>)
        ensures
            r == (if value == 0 {
                Some(SwapCap::NonSwappable)
            } else if value == 1 {
                Some(SwapCap::ColdSwappable)
            } else if value == 2 {
                Some(SwapCap::HotSwappable)
            } else {
                None::<SwapCap>
            }),
    {
        match value {
            0 => Some(SwapCap::NonSwappable),
            1 => Some(SwapCap::ColdSwappable),
            2 => Some(SwapCap::HotSwappable),
            _ => None,
        }
    }

    pub fn as_str(&self) -> (r: &'static str)
        ensures
            r@ == (match self {
                SwapCap::NonSwappable => "Non swappable"@,
                SwapCap::ColdSwappable => "Cold swappable"@,
                SwapCap::HotSwappable => "Hot swappable"@,
            }),
    {
        match self {
            SwapCap::NonSwappable => "Non swappable",
            SwapCap::ColdSwappable => "Cold swappable",
            SwapCap::HotSwappable => "Hot swappable",
        }
    }
}

/// BST: ACPI Battery Status
#[derive(Debug, Default)]
pub struct BstData {
    pub state: ChargeState,
    pub rate: u32,
    pub capacity: u32,
    pub voltage: u32,
}

/// BIX: ACPI Battery Information eXtended
#[derive(Debug, Default)]
pub struct BixData {
    pub revision: u32,
    pub power_unit: PowerUnit,
    pub design_capacity: u32,
    pub last_full_capacity: u32,
    pub battery_technology: BatteryTechnology,
    pub design_voltage: u32,
    pub warning_capacity: u32,
    pub low_capacity: u32,
    pub cycle_count: u32,
    /// Thousandths of a percent
    pub accuracy: u32,
    pub max_sample_time: u32,
    /// Milliseconds
    pub min_sample_time: u32,
    pub max_average_interval: u32,
    pub min_average_interval: u32,
    pub capacity_gran1: u32,
    pub capacity_gran2: u32,
    pub model_number: String,
    pub serial_number: String,
    pub battery_type: String,
    pub oem_info: String,
    pub swap_cap: SwapCap,
}

} // verus!
