use vstd::prelude::*;

use crate::types::{Address, ContractError, DailyLimit, TransferRecord};

verus! {

/// Length of the rolling window, in seconds.
pub const SECONDS_IN_24_HOURS: u64 = 86400;

/// The accepted transfers of one sender, most recent last.
#[derive(Clone, Debug)]
pub struct SenderHistory {
    pub sender: Address,
    pub transfers: Vec<TransferRecord>,
}

/// The daily-limit table and the per-sender transfer histories that it is checked against.
#[derive(Clone, Debug)]
pub struct SendLimits {
    pub limits: Vec<DailyLimit>,
    pub histories: Vec<SenderHistory>,
}

pub open spec fn in_i128(x: int) -> bool {
    i128::MIN <= x <= i128::MAX
}

/// Start of the window that ends at `now`, saturating at zero.
pub open spec fn cutoff(now: u64) -> u64 {
    if now >= SECONDS_IN_24_HOURS {
        (now - SECONDS_IN_24_HOURS) as u64
    } else {
        0
    }
}

/// The entries of `h` strictly newer than `cut`, in their order.
pub open spec fn recent(h: Seq<TransferRecord>, cut: u64) -> Seq<TransferRecord>
    decreases h.len(),
{
    if h.len() == 0 {
        Seq::empty()
    } else {
        let p = recent(h.drop_last(), cut);
        if h.last().timestamp > cut {
            p.push(h.last())
        } else {
            p
        }
    }
}

/// Sum of the amounts of `h`.
pub open spec fn total(h: Seq<TransferRecord>) -> int
    decreases h.len(),
{
    if h.len() == 0 {
        0
    } else {
        total(h.drop_last()) + h.last().amount
    }
}

/// The running sum of the recent amounts of `h`, added front to back in `i128`;
/// `None` where some partial sum leaves the range of `i128`.
pub open spec fn running_total(h: Seq<TransferRecord>, cut: u64) -> Option<int>
    decreases h.len(),
{
    if h.len() == 0 {
        Some(0)
    } else {
        match running_total(h.drop_last(), cut) {
            None => None,
            Some(t) => if h.last().timestamp > cut {
                if in_i128(t + h.last().amount) {
                    Some(t + h.last().amount)
                } else {
                    None
                }
            } else {
                Some(t)
            },
        }
    }
}

/// Outcome of checking `amount` sent at `now` against `limit`, given the sender's history:
/// the history to store on success.
pub open spec fn window_check(h: Seq<TransferRecord>, limit: i128, amount: i128, now: u64) -> Result<
    Seq<TransferRecord>,
    ContractError,
> {
    match running_total(h, cutoff(now)) {
        None => Err(ContractError::Overflow),
        Some(t) => if !in_i128(t + amount) {
            Err(ContractError::Overflow)
        } else if t + amount > limit {
            Err(ContractError::DailySendLimitExceeded)
        } else {
            Ok(recent(h, cutoff(now)).push(TransferRecord { timestamp: now, amount }))
        },
    }
}

pub proof fn lemma_running_total_none(h: Seq<TransferRecord>, cut: u64, k: int)
    requires
        0 <= k <= h.len(),
        running_total(h.take(k), cut) is None,
    ensures
        running_total(h, cut) is None,
    decreases h.len() - k,
{
    if k == h.len() {
        assert(h.take(k) =~= h);
    } else {
        assert(h.take(k + 1).drop_last() =~= h.take(k));
        lemma_running_total_none(h, cut, k + 1);
    }
}

/// Checks `amount` sent at `now` against `limit` and the sender's `history`; on success
/// returns the pruned history with the new transfer appended.
pub fn check_window(history: &Vec<TransferRecord>, limit: i128, amount: i128, now: u64) -> (r:
    Result<Vec<TransferRecord>, ContractError>)
    ensures
        match r {
            Ok(v) => window_check(history@, limit, amount, now) == Ok::<
                Seq<TransferRecord>,
                ContractError,
            >(v@),
            Err(e) => window_check(history@, limit, amount, now) == Err::<
                Seq<TransferRecord>,
                ContractError,
            >(e),
        },
{
    let cutoff_time = now.saturating_sub(SECONDS_IN_24_HOURS);
    let mut total_sent: i128 = 0;
    let mut valid_transfers: Vec<TransferRecord> = Vec::new();
    let mut i: usize = 0;
    while i < history.len()
        invariant
            i <= history.len(),
            cutoff_time == cutoff(now),
            running_total(history@.take(i as int), cutoff_time) == Some(total_sent as int),
            valid_transfers@ == recent(history@.take(i as int), cutoff_time),
        decreases history.len() - i,
    {
        let transfer = history[i];
        assert(history@.take(i + 1).drop_last() =~= history@.take(i as int));
        if transfer.timestamp > cutoff_time {
            match total_sent.checked_add(transfer.amount) {
                Some(s) => total_sent = s,
                None => {
                    proof {
                        lemma_running_total_none(history@, cutoff_time, i + 1);
                    }
                    return Err(ContractError::Overflow);
                },
            }
            valid_transfers.push(transfer);
        }
        i += 1;
    }
    assert(history@.take(history.len() as int) =~= history@);
    let new_total = match total_sent.checked_add(amount) {
        Some(t) => t,
        None => return Err(ContractError::Overflow),
    };
    if new_total > limit {
        return Err(ContractError::DailySendLimitExceeded);
    }
    valid_transfers.push(TransferRecord { timestamp: now, amount });
    Ok(valid_transfers)
}

/// The limit configured for `(currency, country)`: the last matching entry, if any.
pub open spec fn limit_of(limits: Seq<DailyLimit>, currency: Seq<char>, country: Seq<char>) -> Option<
    i128,
>
    decreases limits.len(),
{
    if limits.len() == 0 {
        None
    } else if limits.last().currency@ == currency && limits.last().country@ == country {
        Some(limits.last().limit)
    } else {
        limit_of(limits.drop_last(), currency, country)
    }
}

/// Index of the last entry of `hs` that belongs to `sender`.
pub open spec fn history_index(hs: Seq<SenderHistory>, sender: Address) -> Option<int>
    decreases hs.len(),
{
    if hs.len() == 0 {
        None
    } else if hs.last().sender == sender {
        Some(hs.len() - 1)
    } else {
        history_index(hs.drop_last(), sender)
    }
}

/// The stored history of `sender`; empty where none is stored.
pub open spec fn history_of(hs: Seq<SenderHistory>, sender: Address) -> Seq<TransferRecord> {
    match history_index(hs, sender) {
        Some(i) => hs[i].transfers@,
        None => Seq::empty(),
    }
}

proof fn lemma_history_index_bounds(hs: Seq<SenderHistory>, sender: Address)
    ensures
        match history_index(hs, sender) {
            Some(i) => 0 <= i < hs.len() && hs[i].sender == sender,
            None => true,
        },
    decreases hs.len(),
{
    if hs.len() > 0 {
        lemma_history_index_bounds(hs.drop_last(), sender);
    }
}

proof fn lemma_history_index_update(hs: Seq<SenderHistory>, i: int, e: SenderHistory, b: Address)
    requires
        history_index(hs, e.sender) == Some(i),
    ensures
        history_index(hs.update(i, e), b) == history_index(hs, b),
    decreases hs.len(),
{
    lemma_history_index_bounds(hs, e.sender);
    let u = hs.update(i, e);
    if i == hs.len() - 1 {
        assert(u.drop_last() =~= hs.drop_last());
    } else {
        assert(u.drop_last() =~= hs.drop_last().update(i, e));
        lemma_history_index_update(hs.drop_last(), i, e, b);
    }
}

impl SendLimits {
    /// Each sender's stored history.
    pub open spec fn history_map(&self) -> Map<Address, Seq<TransferRecord>> {
        Map::total(|a: Address| history_of(self.histories@, a))
    }

    pub fn new() -> (r: SendLimits)
        ensures
            r.limits@.len() == 0,
            r.histories@.len() == 0,
    {
        SendLimits { limits: Vec::new(), histories: Vec::new() }
    }

    /// The limit configured for `(currency, country)`, if any.
    pub fn get_daily_limit(&self, currency: &String, country: &String) -> (r: Option<i128>)
        ensures
            r == limit_of(self.limits@, currency@, country@),
    {
        let mut found: Option<i128> = None;
        let mut i: usize = 0;
        while i < self.limits.len()
            invariant
                i <= self.limits.len(),
                found == limit_of(self.limits@.take(i as int), currency@, country@),
            decreases self.limits.len() - i,
        {
            assert(self.limits@.take(i + 1).drop_last() =~= self.limits@.take(i as int));
            let entry = &self.limits[i];
            if entry.currency == *currency && entry.country == *country {
                found = Some(entry.limit);
            }
            i += 1;
        }
        assert(self.limits@.take(self.limits.len() as int) =~= self.limits@);
        found
    }

    /// Sets the limit for `(currency, country)`, replacing any earlier one.
    pub fn set_daily_limit(&mut self, currency: String, country: String, limit: i128)
        ensures
            final(self).histories@ == old(self).histories@,
            forall|c: Seq<char>, k: Seq<char>|
                #![trigger limit_of(final(self).limits@, c, k)]
                limit_of(final(self).limits@, c, k) == if c == currency@ && k == country@ {
                    Some(limit)
                } else {
                    limit_of(old(self).limits@, c, k)
                },
    {
        let ghost before = self.limits@;
        self.limits.push(DailyLimit { currency, country, limit });
        assert(self.limits@.drop_last() =~= before);
    }

    fn find_history(&self, sender: &Address) -> (r: Option<usize>)
        ensures
            match r {
                Some(i) => history_index(self.histories@, *sender) == Some(i as int),
                None => history_index(self.histories@, *sender) is None,
            },
    {
        let mut found: Option<usize> = None;
        let mut i: usize = 0;
        while i < self.histories.len()
            invariant
                i <= self.histories.len(),
                match found {
                    Some(j) => history_index(self.histories@.take(i as int), *sender) == Some(
                        j as int,
                    ),
                    None => history_index(self.histories@.take(i as int), *sender) is None,
                },
            decreases self.histories.len() - i,
        {
            assert(self.histories@.take(i + 1).drop_last() =~= self.histories@.take(i as int));
            if self.histories[i].sender == *sender {
                found = Some(i);
            }
            i += 1;
        }
        assert(self.histories@.take(self.histories.len() as int) =~= self.histories@);
        found
    }

    /// The stored history of `sender`.
    pub fn transfers_of(&self, sender: &Address) -> (r: Vec<TransferRecord>)
        ensures
            r@ == self.history_map()[*sender],
    {
        proof {
            lemma_history_index_bounds(self.histories@, *sender);
        }
        match self.find_history(sender) {
            Some(i) => self.histories[i].transfers.clone(),
            None => Vec::new(),
        }
    }

    fn store_history(&mut self, sender: Address, transfers: Vec<TransferRecord>)
        ensures
            final(self).limits@ == old(self).limits@,
            final(self).history_map() == old(self).history_map().insert(sender, transfers@),
    {
        let ghost before = self.histories@;
        let ghost tv = transfers@;
        let entry = SenderHistory { sender, transfers };
        proof {
            lemma_history_index_bounds(before, sender);
        }
        match self.find_history(&sender) {
            Some(i) => {
                self.histories.set(i, entry);
                proof {
                    assert forall|b: Address| #[trigger]
                        history_index(self.histories@, b) == history_index(before, b) by {
                        lemma_history_index_update(before, i as int, entry, b);
                    }
                    assert forall|b: Address|
                        history_of(self.histories@, b) == (if b == sender {
                            tv
                        } else {
                            history_of(before, b)
                        }) by {
                        lemma_history_index_bounds(before, b);
                    }
                }
            },
            None => {
                self.histories.push(entry);
                proof {
                    assert(self.histories@.drop_last() =~= before);
                    assert forall|b: Address|
                        history_of(self.histories@, b) == (if b == sender {
                            tv
                        } else {
                            history_of(before, b)
                        }) by {
                        lemma_history_index_bounds(before, b);
                    }
                }
            },
        }
        assert(self.history_map() =~= old(self).history_map().insert(sender, tv));
    }
}

/// What `validate_daily_send_limit` does: `r` and `post` are its result and the store after
/// it, on store `pre`.
pub open spec fn validate_post(
    pre: SendLimits,
    sender: Address,
    amount: i128,
    currency: Seq<char>,
    country: Seq<char>,
    now: u64,
    post: SendLimits,
    r: Result<(), ContractError>,
) -> bool {
    &&& post.limits@ == pre.limits@
    &&& match limit_of(pre.limits@, currency, country) {
        None => r is Ok && post.history_map() == pre.history_map(),
        Some(limit) => match window_check(pre.history_map()[sender], limit, amount, now) {
            Ok(h) => r is Ok && post.history_map() == pre.history_map().insert(sender, h),
            Err(e) => r == Err::<(), ContractError>(e) && post.history_map() == pre.history_map(),
        },
    }
}

/// Addresses are valid by construction: there is nothing further to check.
pub fn validate_address(address: &Address) -> (r: Result<(), ContractError>)
    ensures
        r is Ok,
{
    Ok(())
}

/// Checks that `sender` may send `amount` at `now` under the limit configured for
/// `(currency, country)`, and records the transfer in the sender's history on success.
/// Without a configured limit the transfer is allowed and nothing is recorded. On failure
/// nothing changes.
pub fn validate_daily_send_limit(
    store: &mut SendLimits,
    sender: &Address,
    amount: i128,
    currency: &String,
    country: &String,
    now: u64,
) -> (r: Result<(), ContractError>)
    ensures
        validate_post(*old(store), *sender, amount, currency@, country@, now, *final(store), r),
{
    let daily_limit = match store.get_daily_limit(currency, country) {
        Some(limit) => limit,
        None => return Ok(()),
    };
    let transfers = store.transfers_of(sender);
    let kept = check_window(&transfers, daily_limit, amount, now)?;
    store.store_history(*sender, kept);
    Ok(())
}

} // verus!
