use tabwallet::balance::{pending_inbound, Thresholds, TransactionSummary, WalletBalance, WalletState};

fn standard(total: u64, spendable: u64) -> WalletState {
    WalletBalance { total, spendable }.classify(&Thresholds::standard())
}

#[test]
fn nothing_received_is_empty() {
    assert_eq!(standard(0, 0), WalletState::Empty);
}

#[test]
fn unconfirmed_funds_await_confirmation() {
    assert_eq!(standard(5000, 0), WalletState::AwaitingConfirmation);
}

#[test]
fn confirmed_funds_are_ready() {
    assert_eq!(standard(20000, 15000), WalletState::Ready);
}

#[test]
fn thresholds_are_inclusive_lower_bounds() {
    assert_eq!(standard(999, 999), WalletState::Empty);
    assert_eq!(standard(1000, 0), WalletState::AwaitingConfirmation);
    assert_eq!(standard(10000, 9999), WalletState::AwaitingConfirmation);
    assert_eq!(standard(10000, 10000), WalletState::Ready);
}

#[test]
fn total_alone_never_makes_ready() {
    assert_eq!(standard(u64::MAX, 9999), WalletState::AwaitingConfirmation);
}

#[test]
fn standard_thresholds() {
    let t = Thresholds::standard();
    assert_eq!(t.fund, 1000);
    assert_eq!(t.spend, 10000);
}

#[test]
fn categories_add_up() {
    let b = WalletBalance::from_categories(1, 20, 300, 4000).unwrap();
    assert_eq!(b.total, 4321);
    assert_eq!(b.spendable, 4020);
    assert_eq!(WalletBalance::from_categories(u64::MAX, 1, 0, 0), None);
    assert_eq!(WalletBalance::from_categories(0, u64::MAX, 0, 1), None);
}

#[test]
fn more_funds_never_move_back() {
    let t = Thresholds::standard();
    let rank = |s: WalletState| match s {
        WalletState::Empty => 0,
        WalletState::AwaitingConfirmation => 1,
        WalletState::Ready => 2,
    };
    let steps = [0u64, 999, 1000, 5000, 9999, 10000, 20000];
    for &total in &steps {
        for &spendable in &steps {
            let a = WalletBalance { total, spendable }.classify(&t);
            let b = WalletBalance { total: total + 1, spendable: spendable + 1 }.classify(&t);
            assert!(rank(a) <= rank(b));
        }
    }
}

fn summary(txid: &str, received: u64, confirmed: bool) -> TransactionSummary {
    TransactionSummary { txid: txid.to_string(), received, sent: 0, confirmed }
}

#[test]
fn pending_inbound_keeps_unconfirmed_receipts_in_order() {
    let all = vec![
        summary("a", 5, false),
        summary("b", 5, true),
        summary("c", 0, false),
        summary("d", 7, false),
    ];
    let pending = pending_inbound(&all);
    let ids: Vec<&str> = pending.iter().map(|t| t.txid.as_str()).collect();
    assert_eq!(ids, vec!["a", "d"]);
    assert_eq!(pending[1].received, 7);
    assert!(pending_inbound(&Vec::new()).is_empty());
}
