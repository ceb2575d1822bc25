use vstd::prelude::*;

verus! {

#[derive(Debug, Clone, Copy, PartialEq, Eq, Structural)]
pub enum Currency {
    USD,
    EUR,
    GBP,
    CNY,
}

#[derive(Debug, Clone, Copy, PartialEq, Eq, Structural)]
pub enum Language {
    EnUs,
    ZhCn,
    FrFr,
    EsEs,
}

#[derive(Debug, Clone, Copy, PartialEq, Eq, Structural)]
pub enum AccountStatus {
    Active,
    Inactive,
    Suspend,
}

#[derive(Debug, Clone, Copy, PartialEq, Eq, Structural)]
pub enum Action {
    Restart,
    SendMiner,
    SetGroup,
    SetPool,
    SetPowerMode,
    SetLED,
    ResetToFactory,
    Offline,
    Upgrade,
    Delete,
}

/// The power profile a device runs under.
#[derive(Debug, Clone, Copy, PartialEq, Eq, Structural)]
pub enum EnergyMode {
    Power,
    Idle,
    Balance,
    Economize,
}

/// The kind of one-time code mailed to an account holder.
#[derive(Debug, Clone, Copy, PartialEq, Eq, Structural)]
pub enum CodeType {
    ActiveAccount,
    ResetPassword,
}

/// Reasons an authentication step is refused.
#[derive(Debug, Clone, Copy, PartialEq, Eq, Structural)]
pub enum AuthInnerError {
    UserAlreadyExists,
    WrongCredentials,
    MissingCredentials,
    TokenCreation,
    InvalidToken,
}

/// Error codes carried by the provisioning RPC.
#[derive(Debug, Clone, Copy, PartialEq, Eq, Structural)]
pub enum RpcErrorCode {
    Success,
    ProstDecodeError,
    ProstEncodeError,
    Other,
}

impl RpcErrorCode {
    /// The numeric code sent on the wire.
    pub fn code(self) -> (r: i32)
        ensures
            r == match self {
                RpcErrorCode::Success => 0i32,
                RpcErrorCode::ProstDecodeError => 2000i32,
                RpcErrorCode::ProstEncodeError => 2001i32,
                RpcErrorCode::Other => 9999i32,
            },
    {
        match self {
            RpcErrorCode::Success => 0,
            RpcErrorCode::ProstDecodeError => 2000,
            RpcErrorCode::ProstEncodeError => 2001,
            RpcErrorCode::Other => 9999,
        }
    }
}

/// An error as the provisioning RPC reports it.
#[derive(Debug, Clone)]
pub struct RpcError {
    pub code: i32,
    pub message: String,
}

} // verus!
