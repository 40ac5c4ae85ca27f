use vstd::prelude::*;

use crate::types::{Address, Config, ContractError, Effect, Notification, Remittance, RemittanceStatus};
use crate::validation::{limit_of, validate_daily_send_limit, window_check, SendLimits};

verus! {

/// The largest fee rate: 10000 basis points, all of the amount.
pub const MAX_FEE_BPS: u32 = 10000;

/// The fee on `amount` at `fee_bps` basis points, rounded down.
pub open spec fn fee_of(amount: int, fee_bps: int) -> int {
    amount * fee_bps / 10000
}

/// The fee on `amount` at `fee_bps` basis points, computed without an intermediate product
/// that could leave `i128`.
pub fn compute_fee(amount: i128, fee_bps: u32) -> (r: i128)
    requires
        amount >= 0,
        fee_bps <= MAX_FEE_BPS,
    ensures
        r == fee_of(amount as int, fee_bps as int),
        0 <= r <= amount,
{
    let q = amount / 10000;
    let rm = amount % 10000;
    let b = fee_bps as i128;
    proof {
        let x = amount as int;
        let qi = q as int;
        let ri = rm as int;
        let bi = b as int;
        vstd::arithmetic::div_mod::lemma_fundamental_div_mod(x, 10000);
        vstd::arithmetic::div_mod::lemma_fundamental_div_mod(ri * bi, 10000);
        assert(0 <= ri * bi < 10000 * 10001) by (nonlinear_arith)
            requires
                0 <= ri < 10000,
                0 <= bi <= 10000,
        ;
        assert(0 <= qi * bi <= qi * 10000) by (nonlinear_arith)
            requires
                0 <= qi,
                0 <= bi <= 10000,
        ;
        let q2 = qi * bi + (ri * bi) / 10000;
        let r2 = (ri * bi) % 10000;
        assert(x * bi == q2 * 10000 + r2) by (nonlinear_arith)
            requires
                x == 10000 * qi + ri,
                ri * bi == 10000 * ((ri * bi) / 10000) + (ri * bi) % 10000,
                q2 == qi * bi + (ri * bi) / 10000,
                r2 == (ri * bi) % 10000,
        ;
        vstd::arithmetic::div_mod::lemma_fundamental_div_mod_converse(x * bi, 10000, q2, r2);
        assert(x * bi <= x * 10000) by (nonlinear_arith)
            requires
                0 <= x,
                0 <= bi <= 10000,
        ;
        vstd::arithmetic::div_mod::lemma_div_is_ordered(x * bi, x * 10000, 10000);
        vstd::arithmetic::div_mod::lemma_div_multiples_vanish(x, 10000);
        assert(0 <= x * bi) by (nonlinear_arith)
            requires
                0 <= x,
                0 <= bi,
        ;
        vstd::arithmetic::div_mod::lemma_div_pos_is_pos(x * bi, 10000);
    }
    q * b + rm * b / 10000
}

/// `post` is `pre` with nothing changed.
pub open spec fn unchanged(pre: SwiftRemit, post: SwiftRemit) -> bool {
    post.same_ledger(&pre) && post.effects@ == pre.effects@
}

/// What `create_remittance` does: `r` and `post` are its result and the state after it, on
/// state `pre`.
pub open spec fn create_post(
    pre: SwiftRemit,
    sender: Address,
    agent: Address,
    amount: i128,
    currency: Seq<char>,
    country: Seq<char>,
    now: u64,
    post: SwiftRemit,
    r: Result<u64, ContractError>,
) -> bool {
    if pre.config is None {
        r == Err::<u64, ContractError>(ContractError::NotInitialized) && unchanged(pre, post)
    } else if amount <= 0 {
        r == Err::<u64, ContractError>(ContractError::InvalidAmount) && unchanged(pre, post)
    } else if !pre.agent_set().contains(agent) {
        r == Err::<u64, ContractError>(ContractError::AgentNotRegistered) && unchanged(pre, post)
    } else if pre.remittances@.len() >= u64::MAX {
        r == Err::<u64, ContractError>(ContractError::Overflow) && unchanged(pre, post)
    } else {
        match limit_of(pre.send_limits.limits@, currency, country) {
            None => created(pre, sender, agent, amount, post, r) && post.send_limits.history_map()
                == pre.send_limits.history_map(),
            Some(limit) => match window_check(
                pre.send_limits.history_map()[sender],
                limit,
                amount,
                now,
            ) {
                Err(e) => r == Err::<u64, ContractError>(e) && unchanged(pre, post),
                Ok(h) => created(pre, sender, agent, amount, post, r)
                    && post.send_limits.history_map() == pre.send_limits.history_map().insert(
                    sender,
                    h,
                ),
            },
        }
    }
}

/// A new pending remittance with the next identifier, whose amount the host moves from
/// `sender` into custody.
pub open spec fn created(
    pre: SwiftRemit,
    sender: Address,
    agent: Address,
    amount: i128,
    post: SwiftRemit,
    r: Result<u64, ContractError>,
) -> bool {
    let id = (pre.remittances@.len() + 1) as u64;
    let fee = fee_of(amount as int, pre.fee_bps() as int) as i128;
    &&& r == Ok::<u64, ContractError>(id)
    &&& post.custody == pre.custody
    &&& post.config == pre.config
    &&& post.agents@ == pre.agents@
    &&& post.accumulated_fees == pre.accumulated_fees
    &&& post.send_limits.limits@ == pre.send_limits.limits@
    &&& post.remittances@ == pre.remittances@.push(
        Remittance { id, sender, agent, amount, fee, status: RemittanceStatus::Pending },
    )
    &&& post.effects@ == pre.effects@ + seq![
        Effect::RequireAuth { principal: sender },
        Effect::Transfer { from: sender, to: pre.custody, amount },
        Effect::Notify {
            notification: Notification::Created { id, sender, agent, amount, fee },
        },
    ]
}

/// What `confirm_payout` does.
pub open spec fn confirm_post(
    pre: SwiftRemit,
    id: u64,
    post: SwiftRemit,
    r: Result<(), ContractError>,
) -> bool {
    if pre.config is None {
        r == Err::<(), ContractError>(ContractError::NotInitialized) && unchanged(pre, post)
    } else if pre.remittance(id) is None {
        r == Err::<(), ContractError>(ContractError::RemittanceNotFound) && unchanged(pre, post)
    } else if pre.remittance(id)->0.status != RemittanceStatus::Pending {
        r == Err::<(), ContractError>(ContractError::InvalidStatus) && unchanged(pre, post)
    } else if pre.accumulated_fees + pre.remittance(id)->0.fee > i128::MAX {
        r == Err::<(), ContractError>(ContractError::Overflow) && unchanged(pre, post)
    } else {
        let rem = pre.remittance(id)->0;
        let payout = (rem.amount - rem.fee) as i128;
        &&& r is Ok
        &&& post.custody == pre.custody
        &&& post.config == pre.config
        &&& post.agents@ == pre.agents@
        &&& post.send_limits.limits@ == pre.send_limits.limits@
        &&& post.send_limits.history_map() == pre.send_limits.history_map()
        &&& post.accumulated_fees == pre.accumulated_fees + rem.fee
        &&& post.remittances@ == pre.remittances@.update(
            id - 1,
            Remittance { status: RemittanceStatus::Completed, ..rem },
        )
        &&& post.effects@ == pre.effects@ + seq![
            Effect::RequireAuth { principal: rem.agent },
            Effect::Transfer { from: pre.custody, to: rem.agent, amount: payout },
            Effect::Notify { notification: Notification::Completed { id, agent: rem.agent, payout } },
        ]
    }
}

/// What `cancel_remittance` does.
pub open spec fn cancel_post(
    pre: SwiftRemit,
    id: u64,
    post: SwiftRemit,
    r: Result<(), ContractError>,
) -> bool {
    if pre.config is None {
        r == Err::<(), ContractError>(ContractError::NotInitialized) && unchanged(pre, post)
    } else if pre.remittance(id) is None {
        r == Err::<(), ContractError>(ContractError::RemittanceNotFound) && unchanged(pre, post)
    } else if pre.remittance(id)->0.status != RemittanceStatus::Pending {
        r == Err::<(), ContractError>(ContractError::InvalidStatus) && unchanged(pre, post)
    } else {
        let rem = pre.remittance(id)->0;
        &&& r is Ok
        &&& post.custody == pre.custody
        &&& post.config == pre.config
        &&& post.agents@ == pre.agents@
        &&& post.send_limits.limits@ == pre.send_limits.limits@
        &&& post.send_limits.history_map() == pre.send_limits.history_map()
        &&& post.accumulated_fees == pre.accumulated_fees
        &&& post.remittances@ == pre.remittances@.update(
            id - 1,
            Remittance { status: RemittanceStatus::Cancelled, ..rem },
        )
        &&& post.effects@ == pre.effects@ + seq![
            Effect::RequireAuthEither { first: rem.sender, second: pre.admin() },
            Effect::Transfer { from: pre.custody, to: rem.sender, amount: rem.amount },
            Effect::Notify {
                notification: Notification::Cancelled { id, sender: rem.sender, amount: rem.amount },
            },
        ]
    }
}

/// What `initialize` does.
pub open spec fn initialize_post(
    pre: SwiftRemit,
    admin: Address,
    token: Address,
    fee_bps: u32,
    post: SwiftRemit,
    r: Result<(), ContractError>,
) -> bool {
    if pre.config is Some {
        r == Err::<(), ContractError>(ContractError::AlreadyInitialized) && unchanged(pre, post)
    } else if fee_bps > MAX_FEE_BPS {
        r == Err::<(), ContractError>(ContractError::InvalidFee) && unchanged(pre, post)
    } else {
        &&& r is Ok
        &&& post.config == Some(Config { admin, token, platform_fee_bps: fee_bps })
        &&& post.custody == pre.custody
        &&& post.agents@ == pre.agents@
        &&& post.remittances@ == pre.remittances@
        &&& post.accumulated_fees == 0
        &&& post.send_limits.limits@ == pre.send_limits.limits@
        &&& post.send_limits.history_map() == pre.send_limits.history_map()
        &&& post.effects@ == pre.effects@.push(Effect::RequireAuth { principal: admin })
    }
}

/// What `update_fee` does.
pub open spec fn update_fee_post(
    pre: SwiftRemit,
    fee_bps: u32,
    post: SwiftRemit,
    r: Result<(), ContractError>,
) -> bool {
    if pre.config is None {
        r == Err::<(), ContractError>(ContractError::NotInitialized) && unchanged(pre, post)
    } else if fee_bps > MAX_FEE_BPS {
        r == Err::<(), ContractError>(ContractError::InvalidFee) && unchanged(pre, post)
    } else {
        &&& r is Ok
        &&& post.config == Some(Config { platform_fee_bps: fee_bps, ..pre.config->0 })
        &&& post.custody == pre.custody
        &&& post.agents@ == pre.agents@
        &&& post.remittances@ == pre.remittances@
        &&& post.accumulated_fees == pre.accumulated_fees
        &&& post.send_limits.limits@ == pre.send_limits.limits@
        &&& post.send_limits.history_map() == pre.send_limits.history_map()
        &&& post.effects@ == pre.effects@.push(Effect::RequireAuth { principal: pre.admin() })
    }
}

/// What `withdraw_fees` does.
pub open spec fn withdraw_post(
    pre: SwiftRemit,
    recipient: Address,
    post: SwiftRemit,
    r: Result<i128, ContractError>,
) -> bool {
    if pre.config is None {
        r == Err::<i128, ContractError>(ContractError::NotInitialized) && unchanged(pre, post)
    } else if pre.accumulated_fees == 0 {
        r == Err::<i128, ContractError>(ContractError::NoFeesToWithdraw) && unchanged(pre, post)
    } else {
        &&& r == Ok::<i128, ContractError>(pre.accumulated_fees)
        &&& post.custody == pre.custody
        &&& post.config == pre.config
        &&& post.agents@ == pre.agents@
        &&& post.remittances@ == pre.remittances@
        &&& post.accumulated_fees == 0
        &&& post.send_limits.limits@ == pre.send_limits.limits@
        &&& post.send_limits.history_map() == pre.send_limits.history_map()
        &&& post.effects@ == pre.effects@ + seq![
            Effect::RequireAuth { principal: pre.admin() },
            Effect::Transfer { from: pre.custody, to: recipient, amount: pre.accumulated_fees },
        ]
    }
}

/// The state of one escrow: configuration, agent registry, remittance ledger, fee treasury,
/// daily limits, and the effects that the host has still to perform.
#[derive(Clone, Debug)]
pub struct SwiftRemit {
    /// The escrow's own account, which holds the funds in custody.
    pub custody: Address,
    pub config: Option<Config>,
    pub agents: Vec<Address>,
    /// The remittance with id `i + 1` is at index `i`.
    pub remittances: Vec<Remittance>,
    pub accumulated_fees: i128,
    pub send_limits: SendLimits,
    pub effects: Vec<Effect>,
}

impl SwiftRemit {
    pub open spec fn wf(&self) -> bool {
        &&& self.accumulated_fees >= 0
        &&& (self.config matches Some(c) ==> c.platform_fee_bps <= MAX_FEE_BPS)
        &&& forall|i: int|
            0 <= i < self.remittances@.len() ==> {
                let r = #[trigger] self.remittances@[i];
                &&& r.id == i + 1
                &&& r.amount > 0
                &&& 0 <= r.fee <= r.amount
            }
    }

    pub open spec fn agent_set(&self) -> Set<Address> {
        self.agents@.to_set()
    }

    /// The remittance with identifier `id`, if there is one.
    pub open spec fn remittance(&self, id: u64) -> Option<Remittance> {
        if 1 <= id <= self.remittances@.len() {
            Some(self.remittances@[id - 1])
        } else {
            None
        }
    }

    pub open spec fn admin(&self) -> Address {
        self.config->0.admin
    }

    pub open spec fn fee_bps(&self) -> u32 {
        self.config->0.platform_fee_bps
    }

    /// Everything but the pending effects.
    pub open spec fn same_ledger(&self, other: &SwiftRemit) -> bool {
        &&& self.custody == other.custody
        &&& self.config == other.config
        &&& self.agents@ == other.agents@
        &&& self.remittances@ == other.remittances@
        &&& self.accumulated_fees == other.accumulated_fees
        &&& self.send_limits.limits@ == other.send_limits.limits@
        &&& self.send_limits.history_map() == other.send_limits.history_map()
    }

    /// Whether the state is well formed, for states that come from outside, such as storage.
    pub fn is_well_formed(&self) -> (r: bool)
        ensures
            r == self.wf(),
    {
        if self.accumulated_fees < 0 {
            return false;
        }
        if let Some(c) = &self.config {
            if c.platform_fee_bps > MAX_FEE_BPS {
                return false;
            }
        }
        let mut i: usize = 0;
        while i < self.remittances.len()
            invariant
                i <= self.remittances.len(),
                forall|j: int|
                    0 <= j < i ==> {
                        let r = #[trigger] self.remittances@[j];
                        &&& r.id == j + 1
                        &&& r.amount > 0
                        &&& 0 <= r.fee <= r.amount
                    },
            decreases self.remittances.len() - i,
        {
            let r = self.remittances[i];
            if r.id != i as u64 + 1 || r.amount <= 0 || r.fee < 0 || r.fee > r.amount {
                return false;
            }
            i += 1;
        }
        true
    }

    /// A fresh, uninitialized escrow whose custody account is `custody`.
    pub fn new(custody: Address) -> (r: SwiftRemit)
        ensures
            r.wf(),
            r.custody == custody,
            r.config is None,
            r.agents@.len() == 0,
            r.remittances@.len() == 0,
            r.accumulated_fees == 0,
            r.send_limits.limits@.len() == 0,
            r.send_limits.history_map() == Map::total(|a: Address| Seq::<crate::types::TransferRecord>::empty()),
            r.effects@.len() == 0,
    {
        let send_limits = SendLimits::new();
        assert(send_limits.history_map() =~= Map::total(|a: Address| Seq::<crate::types::TransferRecord>::empty()));
        SwiftRemit {
            custody,
            config: None,
            agents: Vec::new(),
            remittances: Vec::new(),
            accumulated_fees: 0,
            send_limits,
            effects: Vec::new(),
        }
    }
}

impl SwiftRemit {
    /// Writes the configuration, once. `fee_bps` must lie in `[0, 10000]`.
    pub fn initialize(&mut self, admin: Address, token: Address, fee_bps: u32) -> (r: Result<
        (),
        ContractError,
    >)
        requires
            old(self).wf(),
        ensures
            final(self).wf(),
            initialize_post(*old(self), admin, token, fee_bps, *final(self), r),
    {
        if self.config.is_some() {
            return Err(ContractError::AlreadyInitialized);
        }
        if fee_bps > MAX_FEE_BPS {
            return Err(ContractError::InvalidFee);
        }
        self.config = Some(Config { admin, token, platform_fee_bps: fee_bps });
        self.accumulated_fees = 0;
        self.effects.push(Effect::RequireAuth { principal: admin });
        Ok(())
    }

    /// Sets the fee rate for remittances created from now on.
    pub fn update_fee(&mut self, fee_bps: u32) -> (r: Result<(), ContractError>)
        requires
            old(self).wf(),
        ensures
            final(self).wf(),
            update_fee_post(*old(self), fee_bps, *final(self), r),
    {
        let config = match &self.config {
            Some(c) => *c,
            None => return Err(ContractError::NotInitialized),
        };
        if fee_bps > MAX_FEE_BPS {
            return Err(ContractError::InvalidFee);
        }
        self.config = Some(Config { platform_fee_bps: fee_bps, ..config });
        self.effects.push(Effect::RequireAuth { principal: config.admin });
        Ok(())
    }

    /// The current fee rate, in basis points.
    pub fn get_platform_fee_bps(&self) -> (r: Result<u32, ContractError>)
        ensures
            match self.config {
                Some(c) => r == Ok::<u32, ContractError>(c.platform_fee_bps),
                None => r == Err::<u32, ContractError>(ContractError::NotInitialized),
            },
    {
        match &self.config {
            Some(c) => Ok(c.platform_fee_bps),
            None => Err(ContractError::NotInitialized),
        }
    }

    /// Adds `agent` to the registry; registering twice is no error.
    pub fn register_agent(&mut self, agent: Address) -> (r: Result<(), ContractError>)
        requires
            old(self).wf(),
        ensures
            final(self).wf(),
            old(self).config is None ==> r == Err::<(), ContractError>(
                ContractError::NotInitialized,
            ) && unchanged(*old(self), *final(self)),
            old(self).config is Some ==> {
                &&& r is Ok
                &&& final(self).agent_set() == old(self).agent_set().insert(agent)
                &&& final(self).custody == old(self).custody
                &&& final(self).config == old(self).config
                &&& final(self).remittances@ == old(self).remittances@
                &&& final(self).accumulated_fees == old(self).accumulated_fees
                &&& final(self).send_limits.limits@ == old(self).send_limits.limits@
                &&& final(self).send_limits.history_map() == old(self).send_limits.history_map()
                &&& final(self).effects@ == old(self).effects@ + seq![
                    Effect::RequireAuth { principal: old(self).admin() },
                    Effect::Notify { notification: Notification::AgentRegistered { agent } },
                ]
            },
    {
        let admin = match &self.config {
            Some(c) => c.admin,
            None => return Err(ContractError::NotInitialized),
        };
        let ghost before = self.effects@;
        if !self.is_agent_registered(&agent) {
            self.agents.push(agent);
        }
        proof {
            assert forall|x: Address|
                self.agents@.contains(x) <==> (old(self).agents@.contains(x) || x == agent) by {
                if old(self).agents@.contains(x) {
                    let j = choose|j: int|
                        0 <= j < old(self).agents@.len() && old(self).agents@[j] == x;
                    assert(self.agents@[j] == x);
                }
                if self.agents@.contains(x) && x != agent {
                    let j = choose|j: int| 0 <= j < self.agents@.len() && self.agents@[j] == x;
                    assert(old(self).agents@[j] == x);
                }
                if x == agent && self.agents@.len() > old(self).agents@.len() {
                    assert(self.agents@[self.agents@.len() - 1] == x);
                }
            }
        }
        assert(self.agent_set() =~= old(self).agent_set().insert(agent));
        self.effects.push(Effect::RequireAuth { principal: admin });
        self.effects.push(Effect::Notify { notification: Notification::AgentRegistered { agent } });
        assert(self.effects@ =~= before + seq![
            Effect::RequireAuth { principal: admin },
            Effect::Notify { notification: Notification::AgentRegistered { agent } },
        ]);
        Ok(())
    }

    /// Takes `agent` out of the registry; removing a non-member is no error. Remittances
    /// already addressed to it are not affected.
    pub fn remove_agent(&mut self, agent: Address) -> (r: Result<(), ContractError>)
        requires
            old(self).wf(),
        ensures
            final(self).wf(),
            old(self).config is None ==> r == Err::<(), ContractError>(
                ContractError::NotInitialized,
            ) && unchanged(*old(self), *final(self)),
            old(self).config is Some ==> {
                &&& r is Ok
                &&& final(self).agent_set() == old(self).agent_set().remove(agent)
                &&& final(self).custody == old(self).custody
                &&& final(self).config == old(self).config
                &&& final(self).remittances@ == old(self).remittances@
                &&& final(self).accumulated_fees == old(self).accumulated_fees
                &&& final(self).send_limits.limits@ == old(self).send_limits.limits@
                &&& final(self).send_limits.history_map() == old(self).send_limits.history_map()
                &&& final(self).effects@ == old(self).effects@.push(
                    Effect::RequireAuth { principal: old(self).admin() },
                )
            },
    {
        let admin = match &self.config {
            Some(c) => c.admin,
            None => return Err(ContractError::NotInitialized),
        };
        let mut kept: Vec<Address> = Vec::new();
        let mut i: usize = 0;
        while i < self.agents.len()
            invariant
                i <= self.agents.len(),
                forall|j: int|
                    0 <= j < kept@.len() ==> #[trigger] kept@[j] != agent && self.agents@.contains(
                        kept@[j],
                    ),
                forall|m: int|
                    0 <= m < i ==> self.agents@[m] != agent ==> kept@.contains(
                        #[trigger] self.agents@[m],
                    ),
            decreases self.agents.len() - i,
        {
            let a = self.agents[i];
            if a != agent {
                let ghost prev = kept@;
                kept.push(a);
                proof {
                    assert(kept@[kept@.len() - 1] == a);
                    assert forall|x: Address| prev.contains(x) implies kept@.contains(x) by {
                        let j = choose|j: int| 0 <= j < prev.len() && prev[j] == x;
                        assert(kept@[j] == x);
                    }
                }
            }
            i += 1;
        }
        proof {
            assert forall|x: Address| kept@.contains(x) <==> (self.agents@.contains(x) && x != agent) by {
                if kept@.contains(x) {
                    let j = choose|j: int| 0 <= j < kept@.len() && kept@[j] == x;
                    assert(kept@[j] != agent);
                }
                if self.agents@.contains(x) && x != agent {
                    let m = choose|m: int| 0 <= m < self.agents@.len() && self.agents@[m] == x;
                    assert(self.agents@[m] != agent);
                }
            }
        }
        self.agents = kept;
        assert(self.agent_set() =~= old(self).agent_set().remove(agent));
        self.effects.push(Effect::RequireAuth { principal: admin });
        Ok(())
    }

    /// Whether `agent` may receive remittances.
    pub fn is_agent_registered(&self, agent: &Address) -> (r: bool)
        ensures
            r == self.agent_set().contains(*agent),
    {
        let mut i: usize = 0;
        while i < self.agents.len()
            invariant
                i <= self.agents.len(),
                forall|j: int| 0 <= j < i ==> self.agents@[j] != *agent,
            decreases self.agents.len() - i,
        {
            if self.agents[i] == *agent {
                assert(self.agents@.contains(*agent));
                return true;
            }
            i += 1;
        }
        false
    }

    /// Opens a remittance of `amount` from `sender` to `agent`, checked against the daily
    /// limit for `(currency, country)` at time `now`. Returns its identifier.
    pub fn create_remittance(
        &mut self,
        sender: Address,
        agent: Address,
        amount: i128,
        currency: &String,
        country: &String,
        now: u64,
    ) -> (r: Result<u64, ContractError>)
        requires
            old(self).wf(),
        ensures
            final(self).wf(),
            create_post(*old(self), sender, agent, amount, currency@, country@, now, *final(self), r),
    {
        let fee_bps = match &self.config {
            Some(c) => c.platform_fee_bps,
            None => return Err(ContractError::NotInitialized),
        };
        if amount <= 0 {
            return Err(ContractError::InvalidAmount);
        }
        if !self.is_agent_registered(&agent) {
            return Err(ContractError::AgentNotRegistered);
        }
        if self.remittances.len() as u64 >= u64::MAX {
            return Err(ContractError::Overflow);
        }
        validate_daily_send_limit(&mut self.send_limits, &sender, amount, currency, country, now)?;
        let fee = compute_fee(amount, fee_bps);
        let id = self.remittances.len() as u64 + 1;
        let ghost before = self.effects@;
        self.remittances.push(
            Remittance { id, sender, agent, amount, fee, status: RemittanceStatus::Pending },
        );
        self.effects.push(Effect::RequireAuth { principal: sender });
        self.effects.push(Effect::Transfer { from: sender, to: self.custody, amount });
        self.effects.push(
            Effect::Notify {
                notification: Notification::Created { id, sender, agent, amount, fee },
            },
        );
        assert(self.effects@ =~= before + seq![
            Effect::RequireAuth { principal: sender },
            Effect::Transfer { from: sender, to: self.custody, amount },
            Effect::Notify {
                notification: Notification::Created { id, sender, agent, amount, fee },
            },
        ]);
        Ok(id)
    }

    /// Index of the remittance `id`, if there is one.
    fn index_of(&self, id: u64) -> (r: Option<usize>)
        ensures
            match r {
                Some(i) => self.remittance(id) is Some && i == id - 1,
                None => self.remittance(id) is None,
            },
    {
        if id == 0 || id > self.remittances.len() as u64 {
            None
        } else {
            Some((id - 1) as usize)
        }
    }

    /// Pays the agent of remittance `id` its amount less the fee, and credits the fee to the
    /// treasury.
    pub fn confirm_payout(&mut self, id: u64) -> (r: Result<(), ContractError>)
        requires
            old(self).wf(),
        ensures
            final(self).wf(),
            confirm_post(*old(self), id, *final(self), r),
    {
        if self.config.is_none() {
            return Err(ContractError::NotInitialized);
        }
        let idx = match self.index_of(id) {
            Some(i) => i,
            None => return Err(ContractError::RemittanceNotFound),
        };
        let rem = self.remittances[idx];
        if rem.status != RemittanceStatus::Pending {
            return Err(ContractError::InvalidStatus);
        }
        let fees = match self.accumulated_fees.checked_add(rem.fee) {
            Some(f) => f,
            None => return Err(ContractError::Overflow),
        };
        let payout = rem.amount - rem.fee;
        let ghost before = self.effects@;
        self.accumulated_fees = fees;
        self.remittances.set(idx, Remittance { status: RemittanceStatus::Completed, ..rem });
        self.effects.push(Effect::RequireAuth { principal: rem.agent });
        self.effects.push(Effect::Transfer { from: self.custody, to: rem.agent, amount: payout });
        self.effects.push(
            Effect::Notify { notification: Notification::Completed { id, agent: rem.agent, payout } },
        );
        assert(self.effects@ =~= before + seq![
            Effect::RequireAuth { principal: rem.agent },
            Effect::Transfer { from: self.custody, to: rem.agent, amount: payout },
            Effect::Notify { notification: Notification::Completed { id, agent: rem.agent, payout } },
        ]);
        Ok(())
    }

    /// Refunds the full amount of remittance `id` to its sender.
    pub fn cancel_remittance(&mut self, id: u64) -> (r: Result<(), ContractError>)
        requires
            old(self).wf(),
        ensures
            final(self).wf(),
            cancel_post(*old(self), id, *final(self), r),
    {
        let admin = match &self.config {
            Some(c) => c.admin,
            None => return Err(ContractError::NotInitialized),
        };
        let idx = match self.index_of(id) {
            Some(i) => i,
            None => return Err(ContractError::RemittanceNotFound),
        };
        let rem = self.remittances[idx];
        if rem.status != RemittanceStatus::Pending {
            return Err(ContractError::InvalidStatus);
        }
        let ghost before = self.effects@;
        self.remittances.set(idx, Remittance { status: RemittanceStatus::Cancelled, ..rem });
        self.effects.push(Effect::RequireAuthEither { first: rem.sender, second: admin });
        self.effects.push(
            Effect::Transfer { from: self.custody, to: rem.sender, amount: rem.amount },
        );
        self.effects.push(
            Effect::Notify {
                notification: Notification::Cancelled { id, sender: rem.sender, amount: rem.amount },
            },
        );
        assert(self.effects@ =~= before + seq![
            Effect::RequireAuthEither { first: rem.sender, second: admin },
            Effect::Transfer { from: self.custody, to: rem.sender, amount: rem.amount },
            Effect::Notify {
                notification: Notification::Cancelled { id, sender: rem.sender, amount: rem.amount },
            },
        ]);
        Ok(())
    }
}

impl SwiftRemit {
    /// The remittance `id`.
    pub fn get_remittance(&self, id: u64) -> (r: Result<Remittance, ContractError>)
        ensures
            self.config is None ==> r == Err::<Remittance, ContractError>(
                ContractError::NotInitialized,
            ),
            self.config is Some ==> match self.remittance(id) {
                Some(rem) => r == Ok::<Remittance, ContractError>(rem),
                None => r == Err::<Remittance, ContractError>(ContractError::RemittanceNotFound),
            },
    {
        if self.config.is_none() {
            return Err(ContractError::NotInitialized);
        }
        match self.index_of(id) {
            Some(i) => Ok(self.remittances[i]),
            None => Err(ContractError::RemittanceNotFound),
        }
    }

    /// The fees collected and not yet withdrawn.
    pub fn get_accumulated_fees(&self) -> (r: Result<i128, ContractError>)
        ensures
            self.config is None ==> r == Err::<i128, ContractError>(ContractError::NotInitialized),
            self.config is Some ==> r == Ok::<i128, ContractError>(self.accumulated_fees),
    {
        if self.config.is_none() {
            return Err(ContractError::NotInitialized);
        }
        Ok(self.accumulated_fees)
    }

    /// Pays all collected fees to `recipient` and returns how much was paid.
    pub fn withdraw_fees(&mut self, recipient: Address) -> (r: Result<i128, ContractError>)
        requires
            old(self).wf(),
        ensures
            final(self).wf(),
            withdraw_post(*old(self), recipient, *final(self), r),
    {
        let admin = match &self.config {
            Some(c) => c.admin,
            None => return Err(ContractError::NotInitialized),
        };
        let amount = self.accumulated_fees;
        if amount == 0 {
            return Err(ContractError::NoFeesToWithdraw);
        }
        let ghost before = self.effects@;
        self.accumulated_fees = 0;
        self.effects.push(Effect::RequireAuth { principal: admin });
        self.effects.push(Effect::Transfer { from: self.custody, to: recipient, amount });
        assert(self.effects@ =~= before + seq![
            Effect::RequireAuth { principal: admin },
            Effect::Transfer { from: self.custody, to: recipient, amount },
        ]);
        Ok(amount)
    }

    /// Sets the daily limit for `(currency, country)`, replacing any earlier one.
    pub fn set_daily_limit(&mut self, currency: String, country: String, limit: i128) -> (r: Result<
        (),
        ContractError,
    >)
        requires
            old(self).wf(),
        ensures
            final(self).wf(),
            old(self).config is None ==> r == Err::<(), ContractError>(
                ContractError::NotInitialized,
            ) && unchanged(*old(self), *final(self)),
            old(self).config is Some ==> {
                &&& r is Ok
                &&& forall|c: Seq<char>, k: Seq<char>|
                    #![trigger limit_of(final(self).send_limits.limits@, c, k)]
                    limit_of(final(self).send_limits.limits@, c, k) == if c == currency@ && k
                        == country@ {
                        Some(limit)
                    } else {
                        limit_of(old(self).send_limits.limits@, c, k)
                    }
                &&& final(self).send_limits.history_map() == old(self).send_limits.history_map()
                &&& final(self).custody == old(self).custody
                &&& final(self).config == old(self).config
                &&& final(self).agents@ == old(self).agents@
                &&& final(self).remittances@ == old(self).remittances@
                &&& final(self).accumulated_fees == old(self).accumulated_fees
                &&& final(self).effects@ == old(self).effects@.push(
                    Effect::RequireAuth { principal: old(self).admin() },
                )
            },
    {
        let admin = match &self.config {
            Some(c) => c.admin,
            None => return Err(ContractError::NotInitialized),
        };
        self.send_limits.set_daily_limit(currency, country, limit);
        self.effects.push(Effect::RequireAuth { principal: admin });
        Ok(())
    }

    /// The daily limit configured for `(currency, country)`; `None` means unlimited.
    pub fn get_daily_limit(&self, currency: &String, country: &String) -> (r: Option<i128>)
        ensures
            r == limit_of(self.send_limits.limits@, currency@, country@),
    {
        self.send_limits.get_daily_limit(currency, country)
    }

    /// Hands the host the effects that it has still to perform, in order, and forgets them.
    pub fn take_effects(&mut self) -> (r: Vec<Effect>)
        requires
            old(self).wf(),
        ensures
            final(self).wf(),
            r@ == old(self).effects@,
            final(self).effects@.len() == 0,
            final(self).same_ledger(&*old(self)),
    {
        let mut taken: Vec<Effect> = Vec::new();
        core::mem::swap(&mut taken, &mut self.effects);
        taken
    }
}

} // verus!
