use vstd::prelude::*;

use crate::coin::{coins_of_labels, get_coins, Coin};
use crate::text::{energy_modes_of, get_energy_modes};
use crate::types::EnergyMode;

verus! {

/// What a device advertises when it is provisioned.
#[derive(Debug, Clone)]
pub struct Capability {
    pub powermode: Vec<String>,
    pub algoset: Vec<String>,
    pub poolmax: u32,
    pub reboot: u32,
    pub reset: u32,
    pub update: u32,
    pub led: u32,
}

/// A machine's settings as the fleet keeps them.
#[derive(Debug, Clone)]
pub struct Setting {
    pub crypto_coin: Vec<Coin>,
    pub power_modes: Vec<EnergyMode>,
    pub pool_maximal: usize,
    pub support_boot: bool,
    pub support_reset: bool,
    pub support_update: bool,
    pub support_led: bool,
}

/// A provisioning request from a device.
#[derive(Debug, Clone)]
pub struct SignRequest {
    pub key: String,
    pub mac: String,
    pub devtype: String,
    pub ip: String,
    pub hv: String,
    pub sv: String,
    pub capability: Option<Capability>,
}

/// A machine to be registered under an account.
#[derive(Debug, Clone)]
pub struct CreateBwMachineSchema {
    pub mac: String,
    pub uid: i64,
    pub device_type: String,
    pub device_name: String,
    pub device_ip: String,
    pub setting: Setting,
    pub hardware_version: String,
    pub software_version: String,
}

/// `s` is the setting that capability `cap` describes: known coins and energy modes
/// from its labels, its pool limit, and each feature supported when its flag is 1.
pub open spec fn setting_matches(s: Setting, cap: Capability) -> bool {
    &&& s.crypto_coin@.map_values(|c: Coin| c@) == coins_of_labels(
        cap.algoset@.map_values(|t: String| t@),
    )
    &&& s.power_modes@ == energy_modes_of(cap.powermode@.map_values(|t: String| t@))
    &&& s.pool_maximal == cap.poolmax
    &&& s.support_boot == (cap.reboot == 1)
    &&& s.support_reset == (cap.reset == 1)
    &&& s.support_update == (cap.update == 1)
    &&& s.support_led == (cap.led == 1)
}

/// The settings of a machine from the capabilities it advertises.
pub fn setting_from_capability(cap: Capability) -> (r: Setting)
    ensures
        setting_matches(r, cap),
{
    let ghost c = cap;
    let Capability { powermode, algoset, poolmax, reboot, reset, update, led } = cap;
    Setting {
        crypto_coin: get_coins(algoset),
        power_modes: get_energy_modes(powermode),
        pool_maximal: poolmax as usize,
        support_boot: reboot == 1,
        support_reset: reset == 1,
        support_update: update == 1,
        support_led: led == 1,
    }
}

/// The machine that a provisioning request registers under `account_id`, with no name
/// yet. A request without capabilities registers nothing.
pub fn registration_from_sign(sign: SignRequest, account_id: i64) -> (r: Option<CreateBwMachineSchema>)
    ensures
        match r {
            Some(m) => sign.capability matches Some(cap) && setting_matches(m.setting, cap)
                && m.mac == sign.mac && m.uid == account_id && m.device_type == sign.devtype
                && m.device_name@.len() == 0 && m.device_ip == sign.ip && m.hardware_version
                == sign.hv && m.software_version == sign.sv,
            None => sign.capability is None,
        },
{
    let SignRequest { key: _, mac, devtype, ip, hv, sv, capability } = sign;
    match capability {
        Some(cap) => Some(
            CreateBwMachineSchema {
                mac,
                uid: account_id,
                device_type: devtype,
                device_name: String::new(),
                device_ip: ip,
                setting: setting_from_capability(cap),
                hardware_version: hv,
                software_version: sv,
            },
        ),
        None => None,
    }
}

} // verus!
