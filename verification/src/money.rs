use vstd::prelude::*;
use vstd::string::StringExecFns;
use crate::challenge::User;
use crate::errors::CoreError;
use crate::ledger::{
    Ledger, NewTransaction, Transaction, TransactionType, TxState, finalized,
    lemma_settled_sum_push, settled_sum, spec_balance_of,
};

verus! {

/// What the payment gateway decoded out of a caller-supplied payment
/// request: the authoritative amount and the correlation hash.  The decoded
/// amount is never taken from the caller.
#[derive(Debug)]
pub struct DecodedPayment {
    pub num_satoshis: i64,
    pub payment_hash: String,
}

/// A withdrawal the coordinator has checked and is ready to settle once the
/// outbound payment's outcome is known.
#[derive(Debug)]
pub struct WithdrawalIntent {
    pub username: String,
    /// The decoded amount; always positive.
    pub amount: i64,
    pub payment_hash: String,
}

/// What a completed withdrawal reports back.
#[derive(Clone, Copy, Debug, PartialEq, Eq, Structural)]
pub struct SendPaymentResponse {
    pub complete: bool,
}

/// Checks an outbound payment before anything is sent: the decoded amount
/// must be positive and the caller's balance must cover it.  Reads only —
/// when the balance does not cover the decoded amount, no transaction row is
/// created and the balance is untouched.
pub fn begin_withdrawal(ledger: &Ledger, caller: &User, decoded: &DecodedPayment) -> (r: Result<
    WithdrawalIntent,
    CoreError,
>)
    requires
        ledger.basic_wf(),
    ensures
        decoded.num_satoshis <= 0 ==> r == Err::<WithdrawalIntent, CoreError>(
            CoreError::Validation,
        ),
        decoded.num_satoshis > 0 && spec_balance_of(ledger.balances@, caller.username@)
            < decoded.num_satoshis ==> r == Err::<WithdrawalIntent, CoreError>(
            CoreError::InsufficientFunds,
        ),
        decoded.num_satoshis > 0 && spec_balance_of(ledger.balances@, caller.username@)
            >= decoded.num_satoshis ==> (r matches Ok(w) && {
            &&& w.username == caller.username
            &&& w.amount == decoded.num_satoshis
            &&& w.payment_hash == decoded.payment_hash
        }),
{
    if decoded.num_satoshis <= 0 {
        return Err(CoreError::Validation);
    }
    let bal = ledger.get_balance(&caller.username);
    if bal < decoded.num_satoshis {
        return Err(CoreError::InsufficientFunds);
    }
    Ok(
        WithdrawalIntent {
            username: caller.username.clone(),
            amount: decoded.num_satoshis,
            payment_hash: decoded.payment_hash.clone(),
        },
    )
}

/// Settles a checked withdrawal once the gateway call's outcome is known;
/// the shell reports a call that ran past its bounded timeout as failed.
/// A failed payment abandons the whole scope: the ledger is left exactly as
/// it was, with no settled and no residual open row.  A timed-out call that
/// did go through on the network side is then under-reported — a known gap
/// of this design, flagged and not resolved here.  A successful payment
/// records the withdrawal — internally an open row, its anchor, finalized to
/// settled in the same scope — and applies the matching debit, together or
/// not at all.  The balance-row lock the caller holds across the payment is
/// what keeps the balance covering the amount between the check and this
/// settlement.
pub fn settle_withdrawal(
    ledger: &mut Ledger,
    intent: WithdrawalIntent,
    payment_succeeded: bool,
) -> (r: Result<SendPaymentResponse, CoreError>)
    requires
        old(ledger).basic_wf(),
        old(ledger).balanced(),
        old(ledger).next_id < i32::MAX,
        intent.amount > 0,
        spec_balance_of(old(ledger).balances@, intent.username@) >= intent.amount,
    ensures
        final(ledger).basic_wf(),
        final(ledger).balanced(),
        !payment_succeeded ==> {
            &&& r == Err::<SendPaymentResponse, CoreError>(CoreError::ExternalService)
            &&& *final(ledger) == *old(ledger)
        },
        payment_succeeded ==> {
            &&& r == Ok::<SendPaymentResponse, CoreError>(SendPaymentResponse { complete: true })
            &&& final(ledger).transactions@ == old(ledger).transactions@.push(
                final(ledger).transactions@.last(),
            )
            &&& {
                let t = final(ledger).transactions@.last();
                {
                    &&& t.transaction_id == old(ledger).next_id
                    &&& t.username == intent.username
                    &&& t.ttype == TransactionType::Withdrawal
                    &&& t.detail@ == Seq::<char>::empty()
                    &&& t.amount == -intent.amount
                    &&& t.state == TxState::Settled
                    &&& t.payment_addr is None
                    &&& t.payment_request is None
                    &&& t.payment_hash == Some(intent.payment_hash)
                }
            }
            &&& final(ledger).next_id == old(ledger).next_id + 1
            &&& spec_balance_of(final(ledger).balances@, intent.username@) == spec_balance_of(
                old(ledger).balances@,
                intent.username@,
            ) - intent.amount
            &&& forall|u: Seq<char>|
                u != intent.username@ ==> #[trigger] spec_balance_of(final(ledger).balances@, u)
                    == spec_balance_of(old(ledger).balances@, u)
        },
{
    if !payment_succeeded {
        return Err(CoreError::ExternalService);
    }

    let ghost pre_ledger = *ledger;

    // The durable open row is the reconciliation anchor between issuing the
    // payment and finalizing it.
    let open_row = ledger.record_transaction(
        NewTransaction {
            username: intent.username.clone(),
            ttype: TransactionType::Withdrawal,
            detail: String::new(),
            amount: -intent.amount,
            state: TxState::Open,
            payment_addr: None,
            payment_request: None,
            payment_hash: Some(intent.payment_hash),
        },
    );
    let ghost recorded_ledger = *ledger;
    let ghost last = recorded_ledger.transactions@.len() - 1;

    let finalize_result = ledger.finalize_transaction(
        open_row.transaction_id,
        TxState::Settled,
        Some(-intent.amount),
    );
    match finalize_result {
        Ok(_) => (),
        Err(_) => {
            proof {
                assert(recorded_ledger.transactions@[last].transaction_id
                    == open_row.transaction_id);
                assert(false);
            }
            return Err(CoreError::NotFound);
        },
    }
    proof {
        let i = choose|i: int|
            {
                &&& 0 <= i < recorded_ledger.transactions@.len()
                &&& (#[trigger] recorded_ledger.transactions@[i]).transaction_id
                    == open_row.transaction_id
                &&& ledger.transactions@ == recorded_ledger.transactions@.update(
                    i,
                    finalized(
                        recorded_ledger.transactions@[i],
                        TxState::Settled,
                        Some((-intent.amount) as i64),
                    ),
                )
            };
        assert(recorded_ledger.transactions@[last].transaction_id == open_row.transaction_id);
        assert(i == last);
        assert(ledger.transactions@ =~= pre_ledger.transactions@.push(
            finalized(open_row, TxState::Settled, Some((-intent.amount) as i64)),
        ));
    }

    let debited = ledger.reserve_and_debit(&intent.username, intent.amount);
    match debited {
        Ok(_) => (),
        Err(_) => {
            proof {
                assert(false);
            }
            return Err(CoreError::InsufficientFunds);
        },
    }

    proof {
        let settled_row = finalized(open_row, TxState::Settled, Some((-intent.amount) as i64));
        assert forall|u: Seq<char>| #[trigger] spec_balance_of(ledger.balances@, u) == settled_sum(
            ledger.transactions@,
            u,
        ) by {
            lemma_settled_sum_push(pre_ledger.transactions@, settled_row, u);
            assert(spec_balance_of(pre_ledger.balances@, u) == settled_sum(
                pre_ledger.transactions@,
                u,
            ));
        }
    }
    Ok(SendPaymentResponse { complete: true })
}

/// Records a funding invoice as an open entry: amount zero until the
/// invoice is paid, with the memo and the gateway's correlation fields the
/// surrounding shell obtained.  Balances are untouched.
pub fn record_invoice(
    ledger: &mut Ledger,
    caller: &User,
    payment_addr: String,
    payment_request: String,
) -> (t: Transaction)
    requires
        old(ledger).basic_wf(),
        old(ledger).balanced(),
        old(ledger).next_id < i32::MAX,
    ensures
        final(ledger).basic_wf(),
        final(ledger).balanced(),
        final(ledger).balances@ == old(ledger).balances@,
        final(ledger).transactions@ == old(ledger).transactions@.push(t),
        final(ledger).next_id == old(ledger).next_id + 1,
        t.transaction_id == old(ledger).next_id,
        t.username == caller.username,
        t.ttype == TransactionType::Invoice,
        t.detail@ == "fund "@ + caller.username@ + " on lightningchess.io"@,
        t.amount == 0,
        t.state == TxState::Open,
        t.payment_addr == Some(payment_addr),
        t.payment_request == Some(payment_request),
        t.payment_hash is None,
{
    let ghost pre_ledger = *ledger;
    let mut memo = "fund ".to_owned();
    memo.append(caller.username.as_str());
    memo.append(" on lightningchess.io");
    let t = ledger.record_transaction(
        NewTransaction {
            username: caller.username.clone(),
            ttype: TransactionType::Invoice,
            detail: memo,
            amount: 0,
            state: TxState::Open,
            payment_addr: Some(payment_addr),
            payment_request: Some(payment_request),
            payment_hash: None,
        },
    );
    proof {
        assert forall|u: Seq<char>| #[trigger] spec_balance_of(ledger.balances@, u) == settled_sum(
            ledger.transactions@,
            u,
        ) by {
            lemma_settled_sum_push(pre_ledger.transactions@, t, u);
            assert(spec_balance_of(pre_ledger.balances@, u) == settled_sum(
                pre_ledger.transactions@,
                u,
            ));
        }
    }
    t
}

} // verus!
