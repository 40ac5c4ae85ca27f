use std::collections::HashMap;

use swiftremit::escrow::SwiftRemit;
use swiftremit::types::{Address, ContractError, Effect, Notification, RemittanceStatus};
use swiftremit::validation::validate_address;

/// A host for the escrow: a token ledger that performs the transfers that the escrow asks
/// for, and a record of the authorizations and notifications.
struct Host {
    contract: SwiftRemit,
    balances: HashMap<u64, i128>,
    auths: Vec<Address>,
    events: Vec<Notification>,
}

impl Host {
    fn new() -> Host {
        Host {
            contract: SwiftRemit::new(Address::new(1000)),
            balances: HashMap::new(),
            auths: Vec::new(),
            events: Vec::new(),
        }
    }

    fn custody(&self) -> Address {
        self.contract.custody
    }

    fn mint(&mut self, to: Address, amount: i128) {
        *self.balances.entry(to.id).or_insert(0) += amount;
    }

    fn balance(&self, who: Address) -> i128 {
        *self.balances.get(&who.id).unwrap_or(&0)
    }

    /// Performs the pending effects; only the authorizations of the last call are kept.
    fn settle(&mut self) {
        self.auths.clear();
        for effect in self.contract.take_effects() {
            match effect {
                Effect::RequireAuth { principal } => self.auths.push(principal),
                Effect::RequireAuthEither { first, .. } => self.auths.push(first),
                Effect::Transfer { from, to, amount } => {
                    let have = self.balance(from);
                    assert!(have >= amount, "insufficient balance");
                    self.balances.insert(from.id, have - amount);
                    self.mint(to, amount);
                }
                Effect::Notify { notification } => self.events.push(notification),
            }
        }
    }

    fn initialize(&mut self, admin: Address, token: Address, fee_bps: u32) -> Result<(), ContractError> {
        let r = self.contract.initialize(admin, token, fee_bps);
        self.settle();
        r
    }

    fn update_fee(&mut self, fee_bps: u32) -> Result<(), ContractError> {
        let r = self.contract.update_fee(fee_bps);
        self.settle();
        r
    }

    fn register_agent(&mut self, agent: Address) -> Result<(), ContractError> {
        let r = self.contract.register_agent(agent);
        self.settle();
        r
    }

    fn remove_agent(&mut self, agent: Address) -> Result<(), ContractError> {
        let r = self.contract.remove_agent(agent);
        self.settle();
        r
    }

    fn create_at(&mut self, sender: Address, agent: Address, amount: i128, now: u64) -> Result<u64, ContractError> {
        let currency = String::from("USD");
        let country = String::from("PH");
        let r = self.contract.create_remittance(sender, agent, amount, &currency, &country, now);
        self.settle();
        r
    }

    fn create_remittance(&mut self, sender: Address, agent: Address, amount: i128) -> Result<u64, ContractError> {
        self.create_at(sender, agent, amount, 1_700_000_000)
    }

    fn confirm_payout(&mut self, id: u64) -> Result<(), ContractError> {
        let r = self.contract.confirm_payout(id);
        self.settle();
        r
    }

    fn cancel_remittance(&mut self, id: u64) -> Result<(), ContractError> {
        let r = self.contract.cancel_remittance(id);
        self.settle();
        r
    }

    fn withdraw_fees(&mut self, recipient: Address) -> Result<i128, ContractError> {
        let r = self.contract.withdraw_fees(recipient);
        self.settle();
        r
    }
}

fn admin() -> Address {
    Address::new(1)
}

fn token() -> Address {
    Address::new(2)
}

fn sender() -> Address {
    Address::new(10)
}

fn agent() -> Address {
    Address::new(20)
}

fn ready(fee_bps: u32) -> Host {
    let mut host = Host::new();
    host.initialize(admin(), token(), fee_bps).unwrap();
    host
}

#[test]
fn test_initialize() {
    let host = ready(250);
    assert_eq!(host.contract.get_platform_fee_bps(), Ok(250));
}

#[test]
fn test_initialize_twice() {
    let mut host = ready(250);
    assert_eq!(host.initialize(admin(), token(), 250), Err(ContractError::AlreadyInitialized));
}

#[test]
fn test_initialize_invalid_fee() {
    let mut host = Host::new();
    assert_eq!(host.initialize(admin(), token(), 10001), Err(ContractError::InvalidFee));
}

#[test]
fn test_register_agent() {
    let mut host = ready(250);
    host.register_agent(agent()).unwrap();
    assert!(host.contract.is_agent_registered(&agent()));
    assert_eq!(host.auths, vec![admin()]);
}

#[test]
fn test_remove_agent() {
    let mut host = ready(250);
    host.register_agent(agent()).unwrap();
    assert!(host.contract.is_agent_registered(&agent()));
    host.remove_agent(agent()).unwrap();
    assert!(!host.contract.is_agent_registered(&agent()));
}

#[test]
fn test_update_fee() {
    let mut host = ready(250);
    host.update_fee(500).unwrap();
    assert_eq!(host.contract.get_platform_fee_bps(), Ok(500));
}

#[test]
fn test_update_fee_invalid() {
    let mut host = ready(250);
    assert_eq!(host.update_fee(10001), Err(ContractError::InvalidFee));
    assert_eq!(host.contract.get_platform_fee_bps(), Ok(250));
}

#[test]
fn test_create_remittance() {
    let mut host = ready(250);
    host.mint(sender(), 10000);
    host.register_agent(agent()).unwrap();

    let remittance_id = host.create_remittance(sender(), agent(), 1000).unwrap();
    assert_eq!(remittance_id, 1);

    let remittance = host.contract.get_remittance(remittance_id).unwrap();
    assert_eq!(remittance.sender, sender());
    assert_eq!(remittance.agent, agent());
    assert_eq!(remittance.amount, 1000);
    assert_eq!(remittance.fee, 25);

    assert_eq!(host.balance(host.custody()), 1000);
    assert_eq!(host.balance(sender()), 9000);
}

#[test]
fn test_create_remittance_invalid_amount() {
    let mut host = ready(250);
    host.register_agent(agent()).unwrap();
    assert_eq!(host.create_remittance(sender(), agent(), 0), Err(ContractError::InvalidAmount));
}

#[test]
fn test_create_remittance_unregistered_agent() {
    let mut host = ready(250);
    host.mint(sender(), 10000);
    assert_eq!(
        host.create_remittance(sender(), agent(), 1000),
        Err(ContractError::AgentNotRegistered)
    );
}

#[test]
fn test_confirm_payout() {
    let mut host = ready(250);
    host.mint(sender(), 10000);
    host.register_agent(agent()).unwrap();
    let remittance_id = host.create_remittance(sender(), agent(), 1000).unwrap();

    host.confirm_payout(remittance_id).unwrap();

    let remittance = host.contract.get_remittance(remittance_id).unwrap();
    assert_eq!(remittance.status, RemittanceStatus::Completed);
    assert_eq!(host.balance(agent()), 975);
    assert_eq!(host.contract.get_accumulated_fees(), Ok(25));
    assert_eq!(host.balance(host.custody()), 25);
}

#[test]
fn test_confirm_payout_twice() {
    let mut host = ready(250);
    host.mint(sender(), 10000);
    host.register_agent(agent()).unwrap();
    let remittance_id = host.create_remittance(sender(), agent(), 1000).unwrap();

    host.confirm_payout(remittance_id).unwrap();
    assert_eq!(host.confirm_payout(remittance_id), Err(ContractError::InvalidStatus));
    assert_eq!(host.balance(agent()), 975);
    assert_eq!(host.contract.get_accumulated_fees(), Ok(25));
}

#[test]
fn test_cancel_remittance() {
    let mut host = ready(250);
    host.mint(sender(), 10000);
    host.register_agent(agent()).unwrap();
    let remittance_id = host.create_remittance(sender(), agent(), 1000).unwrap();

    host.cancel_remittance(remittance_id).unwrap();

    let remittance = host.contract.get_remittance(remittance_id).unwrap();
    assert_eq!(remittance.status, RemittanceStatus::Cancelled);
    assert_eq!(host.balance(sender()), 10000);
    assert_eq!(host.balance(host.custody()), 0);
}

#[test]
fn test_cancel_remittance_already_completed() {
    let mut host = ready(250);
    host.mint(sender(), 10000);
    host.register_agent(agent()).unwrap();
    let remittance_id = host.create_remittance(sender(), agent(), 1000).unwrap();
    host.confirm_payout(remittance_id).unwrap();

    assert_eq!(host.cancel_remittance(remittance_id), Err(ContractError::InvalidStatus));
    assert_eq!(host.balance(sender()), 9000);
    assert_eq!(host.balance(agent()), 975);
    assert_eq!(host.balance(host.custody()), 25);
}

#[test]
fn test_withdraw_fees() {
    let mut host = ready(250);
    let fee_recipient = Address::new(30);
    host.mint(sender(), 10000);
    host.register_agent(agent()).unwrap();
    let remittance_id = host.create_remittance(sender(), agent(), 1000).unwrap();
    host.confirm_payout(remittance_id).unwrap();

    assert_eq!(host.withdraw_fees(fee_recipient), Ok(25));

    assert_eq!(host.balance(fee_recipient), 25);
    assert_eq!(host.contract.get_accumulated_fees(), Ok(0));
    assert_eq!(host.balance(host.custody()), 0);
}

#[test]
fn test_withdraw_fees_no_fees() {
    let mut host = ready(250);
    let fee_recipient = Address::new(30);
    assert_eq!(host.withdraw_fees(fee_recipient), Err(ContractError::NoFeesToWithdraw));
}

#[test]
fn test_fee_calculation() {
    let mut host = ready(500);
    host.mint(sender(), 100000);
    host.register_agent(agent()).unwrap();
    let remittance_id = host.create_remittance(sender(), agent(), 10000).unwrap();

    let remittance = host.contract.get_remittance(remittance_id).unwrap();
    assert_eq!(remittance.fee, 500);

    host.confirm_payout(remittance_id).unwrap();
    assert_eq!(host.balance(agent()), 9500);
    assert_eq!(host.contract.get_accumulated_fees(), Ok(500));
}

#[test]
fn test_multiple_remittances() {
    let mut host = ready(250);
    let sender1 = Address::new(11);
    let sender2 = Address::new(12);
    host.mint(sender1, 10000);
    host.mint(sender2, 10000);
    host.register_agent(agent()).unwrap();

    let remittance_id1 = host.create_remittance(sender1, agent(), 1000).unwrap();
    let remittance_id2 = host.create_remittance(sender2, agent(), 2000).unwrap();
    assert_eq!(remittance_id1, 1);
    assert_eq!(remittance_id2, 2);

    host.confirm_payout(remittance_id1).unwrap();
    host.confirm_payout(remittance_id2).unwrap();

    assert_eq!(host.contract.get_accumulated_fees(), Ok(75));
    assert_eq!(host.balance(agent()), 2925);
}

#[test]
fn test_events_emitted() {
    let mut host = ready(250);
    host.mint(sender(), 10000);

    host.register_agent(agent()).unwrap();
    assert_eq!(
        host.events.last(),
        Some(&Notification::AgentRegistered { agent: agent() })
    );

    let remittance_id = host.create_remittance(sender(), agent(), 1000).unwrap();
    assert!(matches!(host.events.last(), Some(Notification::Created { .. })));

    host.confirm_payout(remittance_id).unwrap();
    assert!(matches!(host.events.last(), Some(Notification::Completed { .. })));
}

#[test]
fn test_authorization_enforcement() {
    let mut host = ready(250);
    host.mint(sender(), 10000);
    host.register_agent(agent()).unwrap();
    let remittance_id = host.create_remittance(sender(), agent(), 1000).unwrap();

    host.confirm_payout(remittance_id).unwrap();
    assert_eq!(host.auths, vec![agent()]);
}

#[test]
fn test_validate_valid_address() {
    let address = Address::new(42);
    assert!(validate_address(&address).is_ok());
}
