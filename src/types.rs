use vstd::prelude::*;

verus! {

/// A principal: an account or identity that can authorize operations and hold value.
#[derive(Clone, Copy, Debug, PartialEq, Eq, Structural)]
pub struct Address {
    pub id: u64,
}

impl Address {
    pub fn new(id: u64) -> (r: Address)
        ensures
            r.id == id,
    {
        Address { id }
    }
}

/// Every way an operation of the escrow can be refused.
#[derive(Clone, Copy, Debug, PartialEq, Eq, Structural)]
pub enum ContractError {
    AlreadyInitialized,
    NotInitialized,
    InvalidAmount,
    InvalidFee,
    AgentNotRegistered,
    RemittanceNotFound,
    InvalidStatus,
    Overflow,
    NoFeesToWithdraw,
    DailySendLimitExceeded,
}

/// Lifecycle of a remittance: `Pending` is initial, the two others are terminal.
#[derive(Clone, Copy, Debug, PartialEq, Eq, Structural)]
pub enum RemittanceStatus {
    Pending,
    Completed,
    Cancelled,
}

/// One remittance held in escrow.
#[derive(Clone, Copy, Debug, PartialEq, Eq, Structural)]
pub struct Remittance {
    pub id: u64,
    pub sender: Address,
    pub agent: Address,
    pub amount: i128,
    pub fee: i128,
    pub status: RemittanceStatus,
}

/// One accepted transfer in a sender's rolling history.
#[derive(Clone, Copy, Debug, PartialEq, Eq, Structural)]
pub struct TransferRecord {
    pub timestamp: u64,
    pub amount: i128,
}

/// The ceiling on what one sender may send in 24 hours for a currency and a country.
#[derive(Clone, Debug)]
pub struct DailyLimit {
    pub currency: String,
    pub country: String,
    pub limit: i128,
}

/// The singleton configuration written by `initialize`.
#[derive(Clone, Copy, Debug, PartialEq, Eq, Structural)]
pub struct Config {
    pub admin: Address,
    pub token: Address,
    pub platform_fee_bps: u32,
}

/// A notification for outside observers.
#[derive(Clone, Copy, Debug, PartialEq, Eq, Structural)]
pub enum Notification {
    AgentRegistered { agent: Address },
    Created { id: u64, sender: Address, agent: Address, amount: i128, fee: i128 },
    Completed { id: u64, agent: Address, payout: i128 },
    Cancelled { id: u64, sender: Address, amount: i128 },
}

/// What an operation asks of its host: an authorization to hold, value to move in the
/// custody token, or a notification to publish. The host performs them in order, and
/// aborts the whole operation if an authorization is missing.
#[derive(Clone, Copy, Debug, PartialEq, Eq, Structural)]
pub enum Effect {
    RequireAuth { principal: Address },
    RequireAuthEither { first: Address, second: Address },
    Transfer { from: Address, to: Address, amount: i128 },
    Notify { notification: Notification },
}

} // verus!
