//! Wallet balances and the three-state decision taken after each sync.

use vstd::prelude::*;

verus! {

/// The funding threshold that is used where none is configured.
pub const DEFAULT_FUND_THRESHOLD: u64 = 1000;

/// The spending threshold that is used where none is configured.
pub const DEFAULT_SPEND_THRESHOLD: u64 = 10000;

/// The state of a wallet after a sync, which selects what is done next.
#[derive(Clone, Copy, Debug, PartialEq, Eq, Structural)]
pub enum WalletState {
    /// Less than the funding threshold has arrived, confirmed or not.
    Empty,
    /// Enough has arrived, but too little of it can be spent yet.
    AwaitingConfirmation,
    /// The spendable balance reaches the spending threshold.
    Ready,
}

/// The two amounts that decide a wallet's state, in the smallest currency unit.
#[derive(Clone, Copy, Debug, PartialEq, Eq, Structural)]
pub struct Thresholds {
    /// Below this total balance the wallet counts as empty.
    pub fund: u64,
    /// From this spendable balance on the wallet is drained.
    pub spend: u64,
}

/// A wallet's balance as of the last sync, in the smallest currency unit.
#[derive(Clone, Copy, Debug, PartialEq, Eq, Structural)]
pub struct WalletBalance {
    /// Everything that the wallet sees, pending funds included.
    pub total: u64,
    /// What can be used as transaction inputs now.
    pub spendable: u64,
}

/// A transaction of the wallet, as far as the decision looks at it.
#[derive(Debug)]
pub struct TransactionSummary {
    /// The transaction's identifier, in its usual hexadecimal form.
    pub txid: String,
    /// The sum of the wallet's own outputs in it.
    pub received: u64,
    /// The sum of the wallet's own inputs in it.
    pub sent: u64,
    /// Whether a block holds it.
    pub confirmed: bool,
}

/// The state for given balances and thresholds.
pub open spec fn state_of(balance: WalletBalance, thresholds: Thresholds) -> WalletState {
    if balance.total < thresholds.fund {
        WalletState::Empty
    } else if balance.spendable < thresholds.spend {
        WalletState::AwaitingConfirmation
    } else {
        WalletState::Ready
    }
}

/// How far a state is on the way to spending.
pub open spec fn progress(state: WalletState) -> nat {
    match state {
        WalletState::Empty => 0,
        WalletState::AwaitingConfirmation => 1,
        WalletState::Ready => 2,
    }
}

/// A transaction that brought funds which no block holds yet.
pub open spec fn is_pending_inbound(t: TransactionSummary) -> bool {
    t.received > 0 && !t.confirmed
}

impl Thresholds {
    /// The thresholds that are used where none are configured.
    pub fn standard() -> (t: Thresholds)
        ensures
            t.fund == DEFAULT_FUND_THRESHOLD,
            t.spend == DEFAULT_SPEND_THRESHOLD,
    {
        Thresholds { fund: DEFAULT_FUND_THRESHOLD, spend: DEFAULT_SPEND_THRESHOLD }
    }
}

impl WalletBalance {
    /// What can be spent is part of the total.
    pub open spec fn wf(&self) -> bool {
        self.spendable <= self.total
    }

    /// The balance made of the four categories that a wallet tells apart:
    /// everything counts towards the total, and what is confirmed or pending
    /// from the wallet itself can be spent. `None` where the total is too
    /// large to be held.
    pub fn from_categories(immature: u64, trusted_pending: u64, untrusted_pending: u64, confirmed: u64) -> (r:
        Option<WalletBalance>)
        ensures
            match r {
                Some(b) => {
                    &&& b.total == immature + trusted_pending + untrusted_pending + confirmed
                    &&& b.spendable == confirmed + trusted_pending
                    &&& b.wf()
                },
                None => immature + trusted_pending + untrusted_pending + confirmed > u64::MAX,
            },
    {
        let spendable = match confirmed.checked_add(trusted_pending) {
            Some(s) => s,
            None => {
                return None;
            },
        };
        let seen = match spendable.checked_add(untrusted_pending) {
            Some(s) => s,
            None => {
                return None;
            },
        };
        match seen.checked_add(immature) {
            Some(total) => Some(WalletBalance { total, spendable }),
            None => None,
        }
    }

    /// The state that this balance puts the wallet in. Whether to spend is
    /// decided by the spendable balance, never by the total.
    pub fn classify(&self, thresholds: &Thresholds) -> (state: WalletState)
        ensures
            state == state_of(*self, *thresholds),
    {
        if self.total < thresholds.fund {
            WalletState::Empty
        } else if self.spendable < thresholds.spend {
            WalletState::AwaitingConfirmation
        } else {
            WalletState::Ready
        }
    }
}

/// The transactions that brought funds which are not confirmed yet, in the
/// order in which they were given.
pub fn pending_inbound(transactions: &Vec<TransactionSummary>) -> (out: Vec<TransactionSummary>)
    ensures
        out@ == transactions@.filter(|t: TransactionSummary| is_pending_inbound(t)),
{
    let ghost pred = |t: TransactionSummary| is_pending_inbound(t);
    let mut out: Vec<TransactionSummary> = Vec::new();
    let mut i: usize = 0;
    proof {
        reveal(Seq::filter);
        assert(transactions@.take(0).filter(pred) =~= Seq::<TransactionSummary>::empty());
    }
    while i < transactions.len()
        invariant
            i <= transactions.len(),
            pred == |t: TransactionSummary| is_pending_inbound(t),
            out@ == transactions@.take(i as int).filter(pred),
        decreases transactions.len() - i,
    {
        let t = &transactions[i];
        proof {
            reveal(Seq::filter);
            assert(transactions@.take(i + 1).drop_last() =~= transactions@.take(i as int));
            assert(transactions@.take(i + 1).last() == transactions@[i as int]);
        }
        if t.received > 0 && !t.confirmed {
            out.push(
                TransactionSummary {
                    txid: t.txid.clone(),
                    received: t.received,
                    sent: t.sent,
                    confirmed: t.confirmed,
                },
            );
        }
        i = i + 1;
    }
    assert(transactions@.take(i as int) =~= transactions@);
    out
}

/// More funds never move a wallet back: where both balances are at least
/// what they were, under the same thresholds, the state is at least as far
/// on the way to spending.
pub proof fn lemma_classification_monotone(a: WalletBalance, b: WalletBalance, thresholds: Thresholds)
    requires
        a.total <= b.total,
        a.spendable <= b.spendable,
    ensures
        progress(state_of(a, thresholds)) <= progress(state_of(b, thresholds)),
{
}

/// The wallet is drained only on spendable funds: a state of `Ready` means
/// that the spendable balance alone reaches the spending threshold.
pub proof fn lemma_ready_needs_spendable(balance: WalletBalance, thresholds: Thresholds)
    ensures
        state_of(balance, thresholds) == WalletState::Ready <==> (balance.total >= thresholds.fund
            && balance.spendable >= thresholds.spend),
{
}

} // verus!
