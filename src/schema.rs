use vstd::prelude::*;

use crate::types::EnergyMode;

verus! {

/// Fields of a new account as it is registered.
#[derive(Debug, Clone)]
pub struct RegisterUserSchema {
    pub name: String,
    pub email: String,
    pub password: String,
}

#[derive(Debug, Clone)]
pub struct LoginUserSchema {
    pub email_or_name: String,
    pub password: String,
}

#[derive(Debug, Clone)]
pub struct CreateBwAccountSchema {
    pub name: String,
    pub email: String,
    pub password: String,
}

#[derive(Debug, Clone)]
pub struct ResetPasswordSchema {
    pub account_id: i64,
    pub password: String,
}

/// The provisioning key issued to an account.
#[derive(Debug, Clone)]
pub struct BwAccountSetting {
    pub uid: i64,
    pub key: String,
}

#[derive(Debug, Clone)]
pub struct CreateBwGroupSchema {
    pub uid: i64,
    pub name: String,
    pub remark: Option<String>,
}

#[derive(Debug, Clone)]
pub struct UpdateBwGroupSchema {
    pub group_id: i64,
    pub uid: i64,
    pub name: Option<String>,
    pub remark: Option<String>,
}

#[derive(Debug, Clone, Copy, PartialEq, Eq, Structural)]
pub struct DeleteBwGroupSchema {
    pub group_id: i64,
    pub uid: i64,
}

#[derive(Debug, Clone)]
pub struct ReadBwGroupSchema {
    pub group_ids: Vec<i64>,
    pub uid: i64,
}

#[derive(Debug, Clone)]
pub struct UpdateOtherBwMachineSchema {
    pub mac: String,
    pub uid: i64,
}

#[derive(Debug, Clone)]
pub struct UpdateGroupSchema {
    pub mac: String,
    pub uid: i64,
    pub group_id: i64,
}

#[derive(Debug, Clone)]
pub struct UpdatePolicySchema {
    pub mac: String,
    pub uid: i64,
    pub policy_id: i64,
}

#[derive(Debug, Clone)]
pub struct UpdatePoolSchema {
    pub mac: String,
    pub uid: i64,
    pub pool_id: i64,
}

#[derive(Debug, Clone)]
pub struct DeleteBwMachineSchema {
    pub mac: String,
    pub uid: i64,
}

#[derive(Debug, Clone)]
pub struct ReadBwMachineSchema {
    pub macs: Vec<String>,
    pub uid: i64,
}

#[derive(Debug, Clone, Copy, PartialEq, Eq, Structural)]
pub struct DeleteBwPolicySchema {
    pub policy_id: i64,
    pub account_id: i64,
}

#[derive(Debug, Clone)]
pub struct ReadBwPolicySchema {
    pub policy_ids: Vec<i64>,
    pub account_id: i64,
}

#[derive(Debug, Clone, Copy, PartialEq, Eq, Structural)]
pub struct DeleteBwPoolSchema {
    pub pool_id: i64,
    pub uid: i64,
}

#[derive(Debug, Clone)]
pub struct ReadBwPoolSchema {
    pub pool_ids: Vec<i64>,
    pub uid: i64,
}

/// A device's status as the fleet views present it, every reading as display text.
#[derive(Debug, Clone)]
pub struct MachineStatus {
    pub mac: String,
    pub device_type: String,
    pub device_ip: String,
    pub current_rate: String,
    pub average_rate: String,
    pub history_rate: String,
    pub energy_mode: EnergyMode,
    pub dig_time: String,
    pub hard_err: String,
    pub refuse: String,
    pub device_temp: String,
    pub device_fan: String,
    pub device_status: String,
}

} // verus!
