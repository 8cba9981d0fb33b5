use lightningchess::challenge::User;
use lightningchess::errors::CoreError;
use lightningchess::ledger::{Ledger, NewTransaction, TransactionType, TxState};
use lightningchess::money::{begin_withdrawal, record_invoice, settle_withdrawal, DecodedPayment};

fn user(name: &str, token: &str) -> User {
    User { username: name.to_string(), access_token: token.to_string() }
}

/// Funds an account the way a paid invoice would: a settled entry plus the
/// matching credit, keeping the ledger balanced.
fn fund(ledger: &mut Ledger, name: &str, amount: i64) {
    ledger.record_transaction(NewTransaction {
        username: name.to_string(),
        ttype: TransactionType::Invoice,
        detail: "funding".to_string(),
        amount,
        state: TxState::Settled,
        payment_addr: None,
        payment_request: None,
        payment_hash: None,
    });
    ledger.credit(&name.to_string(), amount);
}

#[test]
fn withdrawal_settles_decoded_amount() {
    let mut ledger = Ledger::new();
    fund(&mut ledger, "user1", 500);
    let caller = user("user1", "token1");
    let decoded = DecodedPayment { num_satoshis: 300, payment_hash: "hash1".to_string() };

    let intent = begin_withdrawal(&ledger, &caller, &decoded).unwrap();
    assert_eq!(intent.username, "user1");
    assert_eq!(intent.amount, 300);
    assert_eq!(intent.payment_hash, "hash1");

    let response = settle_withdrawal(&mut ledger, intent, true).unwrap();
    assert!(response.complete);
    assert_eq!(ledger.get_balance(&"user1".to_string()), 200);

    let row = ledger.transactions.last().expect("the settled withdrawal row");
    assert_eq!(row.username, "user1");
    assert_eq!(row.ttype, TransactionType::Withdrawal);
    assert_eq!(row.amount, -300);
    assert_eq!(row.state, TxState::Settled);
    assert_eq!(row.detail, "");
    assert_eq!(row.payment_hash, Some("hash1".to_string()));
}

#[test]
fn withdrawal_uncovered_amount_creates_no_row() {
    let mut ledger = Ledger::new();
    fund(&mut ledger, "user1", 500);
    let caller = user("user1", "token1");
    let decoded = DecodedPayment { num_satoshis: 600, payment_hash: "hash1".to_string() };

    let txs_before = ledger.transactions.len();
    let res = begin_withdrawal(&ledger, &caller, &decoded);
    assert_eq!(res.unwrap_err(), CoreError::InsufficientFunds);
    assert_eq!(ledger.transactions.len(), txs_before);
    assert_eq!(ledger.get_balance(&"user1".to_string()), 500);
}

#[test]
fn withdrawal_nonpositive_amount_is_rejected() {
    let mut ledger = Ledger::new();
    fund(&mut ledger, "user1", 500);
    let caller = user("user1", "token1");
    let decoded = DecodedPayment { num_satoshis: 0, payment_hash: "hash1".to_string() };
    let res = begin_withdrawal(&ledger, &caller, &decoded);
    assert_eq!(res.unwrap_err(), CoreError::Validation);
}

#[test]
fn failed_payment_leaves_no_residual_row() {
    let mut ledger = Ledger::new();
    fund(&mut ledger, "user1", 500);
    let caller = user("user1", "token1");
    let decoded = DecodedPayment { num_satoshis: 300, payment_hash: "hash1".to_string() };

    let intent = begin_withdrawal(&ledger, &caller, &decoded).unwrap();
    let txs_before = ledger.transactions.len();
    let res = settle_withdrawal(&mut ledger, intent, false);
    assert_eq!(res.unwrap_err(), CoreError::ExternalService);
    assert_eq!(ledger.get_balance(&"user1".to_string()), 500);
    assert_eq!(ledger.transactions.len(), txs_before);
}

#[test]
fn invoice_records_open_zero_row() {
    let mut ledger = Ledger::new();
    fund(&mut ledger, "user1", 500);
    let caller = user("user1", "token1");

    let row = record_invoice(
        &mut ledger,
        &caller,
        "addr1".to_string(),
        "lnbc-request".to_string(),
    );
    assert_eq!(row.username, "user1");
    assert_eq!(row.ttype, TransactionType::Invoice);
    assert_eq!(row.amount, 0);
    assert_eq!(row.state, TxState::Open);
    assert_eq!(row.detail, "fund user1 on lightningchess.io");
    assert_eq!(row.payment_addr, Some("addr1".to_string()));
    assert_eq!(row.payment_request, Some("lnbc-request".to_string()));
    assert_eq!(row.payment_hash, None);
    assert_eq!(ledger.get_balance(&"user1".to_string()), 500);
}
