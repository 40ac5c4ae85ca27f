use vstd::prelude::*;

use crate::escrow::{
    cancel_post, confirm_post, create_post, fee_of, initialize_post, unchanged, update_fee_post,
    withdraw_post, SwiftRemit, MAX_FEE_BPS,
};
use crate::types::{Address, ContractError, Effect, RemittanceStatus, TransferRecord};
use crate::validation::{
    cutoff, recent, running_total, total, validate_post, window_check, SendLimits,
};

verus! {

/// Net value that the transfers among `effects` move to `who`: what it receives less what
/// it pays.
pub open spec fn net_flow(effects: Seq<Effect>, who: Address) -> int
    decreases effects.len(),
{
    if effects.len() == 0 {
        0
    } else {
        net_flow(effects.drop_last(), who) + match effects.last() {
            Effect::Transfer { from, to, amount } => (if to == who {
                amount as int
            } else {
                0
            }) - (if from == who {
                amount as int
            } else {
                0
            }),
            _ => 0,
        }
    }
}

pub proof fn lemma_net_flow_append(a: Seq<Effect>, b: Seq<Effect>, who: Address)
    ensures
        net_flow(a + b, who) == net_flow(a, who) + net_flow(b, who),
    decreases b.len(),
{
    if b.len() > 0 {
        assert((a + b).drop_last() =~= a + b.drop_last());
        lemma_net_flow_append(a, b.drop_last(), who);
    }
}

/// On an uninitialized escrow, `initialize` with a fee rate in `[0, 10000]` succeeds, and a
/// second `initialize`, whatever its arguments, fails with `AlreadyInitialized` and changes
/// nothing.
pub proof fn lemma_initialize_once(
    s0: SwiftRemit,
    admin: Address,
    token: Address,
    fee_bps: u32,
    s1: SwiftRemit,
    r1: Result<(), ContractError>,
    admin2: Address,
    token2: Address,
    fee_bps2: u32,
    s2: SwiftRemit,
    r2: Result<(), ContractError>,
)
    requires
        s0.config is None,
        fee_bps <= MAX_FEE_BPS,
        initialize_post(s0, admin, token, fee_bps, s1, r1),
        initialize_post(s1, admin2, token2, fee_bps2, s2, r2),
    ensures
        r1 is Ok,
        s1.fee_bps() == fee_bps,
        r2 == Err::<(), ContractError>(ContractError::AlreadyInitialized),
        unchanged(s1, s2),
{
}

/// A fee rate above 10000 makes `initialize` on an uninitialized escrow fail with
/// `InvalidFee`, leaving it uninitialized.
pub proof fn lemma_initialize_rejects_invalid_fee(
    s0: SwiftRemit,
    admin: Address,
    token: Address,
    fee_bps: u32,
    s1: SwiftRemit,
    r: Result<(), ContractError>,
)
    requires
        s0.config is None,
        fee_bps > MAX_FEE_BPS,
        initialize_post(s0, admin, token, fee_bps, s1, r),
    ensures
        r == Err::<(), ContractError>(ContractError::InvalidFee),
        s1.config is None,
        unchanged(s0, s1),
{
}

/// A fee rate above 10000 makes `update_fee` on an initialized escrow fail with
/// `InvalidFee`, leaving the configuration as it was.
pub proof fn lemma_update_fee_rejects_invalid_fee(
    s0: SwiftRemit,
    fee_bps: u32,
    s1: SwiftRemit,
    r: Result<(), ContractError>,
)
    requires
        s0.config is Some,
        fee_bps > MAX_FEE_BPS,
        update_fee_post(s0, fee_bps, s1, r),
    ensures
        r == Err::<(), ContractError>(ContractError::InvalidFee),
        s1.config == s0.config,
        unchanged(s0, s1),
{
}

/// A successful `create_remittance` takes the next identifier (1 on an empty ledger),
/// freezes the fee at the current rate, and asks the host to move exactly `amount` from the
/// sender into custody.
pub proof fn lemma_create_moves_amount(
    s0: SwiftRemit,
    sender: Address,
    agent: Address,
    amount: i128,
    currency: Seq<char>,
    country: Seq<char>,
    now: u64,
    s1: SwiftRemit,
    r: Result<u64, ContractError>,
)
    requires
        sender != s0.custody,
        create_post(s0, sender, agent, amount, currency, country, now, s1, r),
        r is Ok,
    ensures
        r->Ok_0 == s0.remittances@.len() + 1,
        s0.remittances@.len() == 0 ==> r->Ok_0 == 1,
        s1.remittance(r->Ok_0) == Some(
            crate::types::Remittance {
                id: r->Ok_0,
                sender,
                agent,
                amount,
                fee: fee_of(amount as int, s0.fee_bps() as int) as i128,
                status: RemittanceStatus::Pending,
            },
        ),
        net_flow(s1.effects@, s0.custody) == net_flow(s0.effects@, s0.custody) + amount,
        net_flow(s1.effects@, sender) == net_flow(s0.effects@, sender) - amount,
{
    let added = s1.effects@.subrange(s0.effects@.len() as int, s1.effects@.len() as int);
    assert(s1.effects@ =~= s0.effects@ + added);
    lemma_net_flow_append(s0.effects@, added, s0.custody);
    lemma_net_flow_append(s0.effects@, added, sender);
    reveal_with_fuel(net_flow, 4);
    assert(added.drop_last().drop_last().drop_last() =~= Seq::<Effect>::empty());
}

/// Two successful `create_remittance` calls in a row, by any senders, take consecutive
/// identifiers.
pub proof fn lemma_ids_increase(
    s0: SwiftRemit,
    sender1: Address,
    agent1: Address,
    amount1: i128,
    currency1: Seq<char>,
    country1: Seq<char>,
    now1: u64,
    s1: SwiftRemit,
    r1: Result<u64, ContractError>,
    sender2: Address,
    agent2: Address,
    amount2: i128,
    currency2: Seq<char>,
    country2: Seq<char>,
    now2: u64,
    s2: SwiftRemit,
    r2: Result<u64, ContractError>,
)
    requires
        create_post(s0, sender1, agent1, amount1, currency1, country1, now1, s1, r1),
        create_post(s1, sender2, agent2, amount2, currency2, country2, now2, s2, r2),
        r1 is Ok,
        r2 is Ok,
    ensures
        r2->Ok_0 == r1->Ok_0 + 1,
{
}

/// Confirming a remittance twice pays once: the second call fails with `InvalidStatus` and
/// leaves the state as the first call left it.
pub proof fn lemma_confirm_twice(
    s0: SwiftRemit,
    id: u64,
    s1: SwiftRemit,
    r1: Result<(), ContractError>,
    s2: SwiftRemit,
    r2: Result<(), ContractError>,
)
    requires
        confirm_post(s0, id, s1, r1),
        r1 is Ok,
        confirm_post(s1, id, s2, r2),
    ensures
        r2 == Err::<(), ContractError>(ContractError::InvalidStatus),
        unchanged(s1, s2),
{
}

/// Cancelling a confirmed remittance fails with `InvalidStatus` and asks for no transfer.
pub proof fn lemma_cancel_after_confirm(
    s0: SwiftRemit,
    id: u64,
    s1: SwiftRemit,
    r1: Result<(), ContractError>,
    s2: SwiftRemit,
    r2: Result<(), ContractError>,
)
    requires
        confirm_post(s0, id, s1, r1),
        r1 is Ok,
        cancel_post(s1, id, s2, r2),
    ensures
        r2 == Err::<(), ContractError>(ContractError::InvalidStatus),
        unchanged(s1, s2),
{
}

/// Creating a remittance and cancelling it gives the sender back what it paid and leaves
/// nothing of it in custody.
pub proof fn lemma_create_then_cancel(
    s0: SwiftRemit,
    sender: Address,
    agent: Address,
    amount: i128,
    currency: Seq<char>,
    country: Seq<char>,
    now: u64,
    s1: SwiftRemit,
    r1: Result<u64, ContractError>,
    s2: SwiftRemit,
    r2: Result<(), ContractError>,
)
    requires
        sender != s0.custody,
        create_post(s0, sender, agent, amount, currency, country, now, s1, r1),
        r1 is Ok,
        cancel_post(s1, r1->Ok_0, s2, r2),
    ensures
        r2 is Ok,
        s2.remittance(r1->Ok_0)->0.status == RemittanceStatus::Cancelled,
        net_flow(s2.effects@, sender) == net_flow(s0.effects@, sender),
        net_flow(s2.effects@, s0.custody) == net_flow(s0.effects@, s0.custody),
{
    lemma_create_moves_amount(s0, sender, agent, amount, currency, country, now, s1, r1);
    let added = s2.effects@.subrange(s1.effects@.len() as int, s2.effects@.len() as int);
    assert(s2.effects@ =~= s1.effects@ + added);
    lemma_net_flow_append(s1.effects@, added, s0.custody);
    lemma_net_flow_append(s1.effects@, added, sender);
    reveal_with_fuel(net_flow, 4);
    assert(added.drop_last().drop_last().drop_last() =~= Seq::<Effect>::empty());
}

/// A successful `withdraw_fees` empties the treasury, so that a second one fails with
/// `NoFeesToWithdraw`; on an initialized escrow with nothing collected it fails the same
/// way and changes nothing.
pub proof fn lemma_withdraw_drains(
    s0: SwiftRemit,
    recipient: Address,
    s1: SwiftRemit,
    r1: Result<i128, ContractError>,
    recipient2: Address,
    s2: SwiftRemit,
    r2: Result<i128, ContractError>,
)
    requires
        s0.config is Some,
        withdraw_post(s0, recipient, s1, r1),
        withdraw_post(s1, recipient2, s2, r2),
    ensures
        s0.accumulated_fees == 0 ==> r1 == Err::<i128, ContractError>(
            ContractError::NoFeesToWithdraw,
        ) && unchanged(s0, s1),
        r1 is Ok ==> s1.accumulated_fees == 0,
        r1 is Ok ==> r2 == Err::<i128, ContractError>(ContractError::NoFeesToWithdraw),
{
}

proof fn lemma_all_recent(h: Seq<TransferRecord>, cut: u64)
    requires
        forall|i: int| 0 <= i < h.len() ==> #[trigger] h[i].timestamp > cut,
    ensures
        recent(h, cut) == h,
    decreases h.len(),
{
    if h.len() > 0 {
        lemma_all_recent(h.drop_last(), cut);
        assert(h.drop_last().push(h.last()) =~= h);
    }
}

proof fn lemma_running_total_fits(h: Seq<TransferRecord>, cut: u64)
    requires
        forall|i: int| 0 <= i < h.len() ==> #[trigger] h[i].timestamp > cut,
        forall|i: int| 0 <= i < h.len() ==> #[trigger] h[i].amount >= 0,
        total(h) <= i128::MAX,
    ensures
        running_total(h, cut) == Some(total(h)),
        total(h) >= 0,
    decreases h.len(),
{
    if h.len() > 0 {
        assert(h.last() == h[h.len() - 1]);
        lemma_running_total_fits(h.drop_last(), cut);
    }
}

/// A transfer that keeps the sum of a sender's window at or under the limit is accepted,
/// and the window's new sum is the old one plus its amount; together these show that a
/// sequence of transfers inside one window whose sum stays within the limit is accepted
/// whole.
pub proof fn lemma_within_limit_accepted(
    h: Seq<TransferRecord>,
    limit: i128,
    amount: i128,
    now: u64,
)
    requires
        forall|i: int| 0 <= i < h.len() ==> #[trigger] h[i].timestamp > cutoff(now),
        forall|i: int| 0 <= i < h.len() ==> #[trigger] h[i].amount >= 0,
        amount >= 0,
        total(h) + amount <= limit,
    ensures
        window_check(h, limit, amount, now) == Ok::<Seq<TransferRecord>, ContractError>(
            h.push(TransferRecord { timestamp: now, amount }),
        ),
        total(h.push(TransferRecord { timestamp: now, amount })) == total(h) + amount,
{
    lemma_all_recent(h, cutoff(now));
    lemma_running_total_fits(h, cutoff(now));
    assert(h.push(TransferRecord { timestamp: now, amount }).drop_last() =~= h);
}

/// A transfer that would take the sum of a sender's window over the limit fails with
/// `DailySendLimitExceeded`.
pub proof fn lemma_over_limit_rejected(
    h: Seq<TransferRecord>,
    limit: i128,
    amount: i128,
    now: u64,
)
    requires
        forall|i: int| 0 <= i < h.len() ==> #[trigger] h[i].timestamp > cutoff(now),
        forall|i: int| 0 <= i < h.len() ==> #[trigger] h[i].amount >= 0,
        amount >= 0,
        total(h) + amount > limit,
        total(h) + amount <= i128::MAX,
    ensures
        window_check(h, limit, amount, now) == Err::<Seq<TransferRecord>, ContractError>(
            ContractError::DailySendLimitExceeded,
        ),
{
    lemma_all_recent(h, cutoff(now));
    lemma_running_total_fits(h, cutoff(now));
}

/// A rejected transfer is not recorded, so retrying it at the same time fails the same way.
pub proof fn lemma_rejected_retry(
    s0: SendLimits,
    sender: Address,
    amount: i128,
    currency: Seq<char>,
    country: Seq<char>,
    now: u64,
    s1: SendLimits,
    r1: Result<(), ContractError>,
    s2: SendLimits,
    r2: Result<(), ContractError>,
)
    requires
        validate_post(s0, sender, amount, currency, country, now, s1, r1),
        r1 is Err,
        validate_post(s1, sender, amount, currency, country, now, s2, r2),
    ensures
        r2 == r1,
        s1.history_map() == s0.history_map(),
        s2.history_map() == s0.history_map(),
{
}

} // verus!
