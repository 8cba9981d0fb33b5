use vstd::prelude::*;
use vstd::pervasive::VecAdditionalExecFns;
use crate::errors::CoreError;

verus! {

/// State of a ledger entry: `Open` marks an in-flight external operation,
/// `Settled` a finalized one.  A row transitions `Open` to `Settled` exactly
/// once and is never deleted.
#[derive(Clone, Copy, Debug, PartialEq, Eq, Structural)]
pub enum TxState {
    Open,
    Settled,
}

/// What a ledger entry records.
#[derive(Clone, Copy, Debug, PartialEq, Eq, Structural)]
pub enum TransactionType {
    Invoice,
    Withdrawal,
    AcceptChallenge,
}

/// One balance row: a user's current amount in the smallest payment unit.
/// Created lazily; a missing row reads as zero.
#[derive(Debug)]
pub struct Balance {
    /// Row identity, assigned by the surrounding storage; zero until then.
    pub balance_id: i32,
    pub username: String,
    pub balance: i64,
}

impl Clone for Balance {
    fn clone(&self) -> (r: Self)
        ensures
            r == *self,
    {
        Balance {
            balance_id: self.balance_id,
            username: self.username.clone(),
            balance: self.balance,
        }
    }
}

/// One append-only ledger entry: a signed amount attributed to one user,
/// with optional external correlation fields.
#[derive(Debug)]
pub struct Transaction {
    /// Auto-assigned, strictly increasing across the ledger.
    pub transaction_id: i32,
    pub username: String,
    pub ttype: TransactionType,
    /// Free-text detail; by convention records which challenge or invoice
    /// produced the entry.
    pub detail: String,
    pub amount: i64,
    pub state: TxState,
    pub payment_addr: Option<String>,
    pub payment_request: Option<String>,
    pub payment_hash: Option<String>,
}

impl Clone for Transaction {
    fn clone(&self) -> (r: Self)
        ensures
            r == *self,
    {
        Transaction {
            transaction_id: self.transaction_id,
            username: self.username.clone(),
            ttype: self.ttype,
            detail: self.detail.clone(),
            amount: self.amount,
            state: self.state,
            payment_addr: clone_opt_string(&self.payment_addr),
            payment_request: clone_opt_string(&self.payment_request),
            payment_hash: clone_opt_string(&self.payment_hash),
        }
    }
}

fn clone_opt_string(s: &Option<String>) -> (r: Option<String>)
    ensures
        r == *s,
{
    match s {
        Some(v) => Some(v.clone()),
        None => None,
    }
}

/// A new entry handed to [`Ledger::record_transaction`]; the ledger assigns
/// the identity.
#[derive(Debug)]
pub struct NewTransaction {
    pub username: String,
    pub ttype: TransactionType,
    pub detail: String,
    pub amount: i64,
    pub state: TxState,
    pub payment_addr: Option<String>,
    pub payment_request: Option<String>,
    pub payment_hash: Option<String>,
}

/// No two balance rows name the same user.
pub open spec fn accounts_unique(rows: Seq<Balance>) -> bool {
    forall|i: int, j: int|
        0 <= i < j < rows.len() ==> #[trigger] rows[i].username@ != #[trigger] rows[j].username@
}

/// Whether some balance row names this user.
pub open spec fn spec_has_account(rows: Seq<Balance>, u: Seq<char>) -> bool
    decreases rows.len(),
{
    rows.len() != 0 && (rows.last().username@ == u || spec_has_account(rows.drop_last(), u))
}

/// The balance the rows record for this user; a missing row reads as zero.
pub open spec fn spec_balance_of(rows: Seq<Balance>, u: Seq<char>) -> int
    decreases rows.len(),
{
    if rows.len() == 0 {
        0
    } else if rows.last().username@ == u {
        rows.last().balance as int
    } else {
        spec_balance_of(rows.drop_last(), u)
    }
}

/// What one entry contributes to a user's settled total: its amount if it is
/// a settled entry of that user, nothing otherwise.
pub open spec fn settled_contrib(t: Transaction, u: Seq<char>) -> int {
    if t.state == TxState::Settled && t.username@ == u {
        t.amount as int
    } else {
        0
    }
}

/// The sum of a user's settled entry amounts.
pub open spec fn settled_sum(txs: Seq<Transaction>, u: Seq<char>) -> int
    decreases txs.len(),
{
    if txs.len() == 0 {
        0
    } else {
        settled_sum(txs.drop_last(), u) + settled_contrib(txs.last(), u)
    }
}

/// Whether some entry carries this identity.
pub open spec fn spec_has_tx(txs: Seq<Transaction>, id: int) -> bool {
    exists|i: int| 0 <= i < txs.len() && #[trigger] txs[i].transaction_id == id
}

/// Balance store plus append-only transaction log.  Every operation here is
/// invoked inside a caller-owned atomic scope: the surrounding shell decides
/// durability, and a coordinator applies mutations only once their external
/// preconditions are known to hold, so an aborted flow never touches the
/// ledger at all.
#[derive(Debug)]
pub struct Ledger {
    pub balances: Vec<Balance>,
    pub transactions: Vec<Transaction>,
    /// The identity the next recorded entry receives.
    pub next_id: i32,
}

impl Ledger {
    /// Structural well-formedness: one row per user, no negative balance,
    /// strictly increasing entry identities below `next_id`.
    pub open spec fn basic_wf(self) -> bool {
        &&& accounts_unique(self.balances@)
        &&& forall|i: int|
            0 <= i < self.balances@.len() ==> (#[trigger] self.balances@[i]).balance >= 0
        &&& forall|i: int, j: int|
            0 <= i < j < self.transactions@.len()
                ==> (#[trigger] self.transactions@[i]).transaction_id < (
            #[trigger] self.transactions@[j]).transaction_id
        &&& forall|i: int|
            0 <= i < self.transactions@.len() ==> (
            #[trigger] self.transactions@[i]).transaction_id < self.next_id
        &&& self.next_id >= 1
    }

    /// The settlement invariant: for every user, the stored balance equals
    /// the sum of that user's settled entry amounts.
    pub open spec fn balanced(self) -> bool {
        forall|u: Seq<char>|
            #[trigger] spec_balance_of(self.balances@, u) == settled_sum(self.transactions@, u)
    }

    /// An empty ledger: no accounts, no entries.
    pub fn new() -> (l: Ledger)
        ensures
            l.balances@.len() == 0,
            l.transactions@.len() == 0,
            l.next_id == 1,
            l.basic_wf(),
            l.balanced(),
    {
        Ledger { balances: Vec::new(), transactions: Vec::new(), next_id: 1 }
    }

    /// The current amount for a user; an unknown user reads as zero without
    /// creating a row.
    pub fn get_balance(&self, user: &String) -> (r: i64)
        requires
            self.basic_wf(),
        ensures
            r as int == spec_balance_of(self.balances@, user@),
            r >= 0,
    {
        match find_account(&self.balances, user) {
            Some(i) => {
                proof {
                    lemma_balance_at_index(self.balances@, i as int, user@);
                }
                self.balances[i].balance
            },
            None => {
                proof {
                    lemma_balance_absent(self.balances@, user@);
                }
                0
            },
        }
    }

    /// Verifies the amount is covered, decrements the user's balance and
    /// returns the new amount; fails with `InsufficientFunds`, changing
    /// nothing, when the balance does not cover it.  Taken alone this debit
    /// suspends the settlement invariant; the calling coordinator restores
    /// it by recording the matching settled entry in the same atomic scope.
    pub fn reserve_and_debit(&mut self, user: &String, amount: i64) -> (r: Result<i64, CoreError>)
        requires
            old(self).basic_wf(),
            amount > 0,
        ensures
            final(self).basic_wf(),
            final(self).transactions@ == old(self).transactions@,
            final(self).next_id == old(self).next_id,
            amount <= spec_balance_of(old(self).balances@, user@) ==> {
                &&& r matches Ok(b) && b as int == spec_balance_of(old(self).balances@, user@)
                    - amount
                &&& spec_balance_of(final(self).balances@, user@) == spec_balance_of(
                    old(self).balances@,
                    user@,
                ) - amount
                &&& forall|u: Seq<char>|
                    u != user@ ==> #[trigger] spec_balance_of(final(self).balances@, u)
                        == spec_balance_of(old(self).balances@, u)
            },
            amount > spec_balance_of(old(self).balances@, user@) ==> {
                &&& r == Err::<i64, CoreError>(CoreError::InsufficientFunds)
                &&& *final(self) == *old(self)
            },
    {
        match find_account(&self.balances, user) {
            Some(i) => {
                proof {
                    lemma_balance_at_index(self.balances@, i as int, user@);
                }
                let b = self.balances[i].balance;
                if b < amount {
                    Err(CoreError::InsufficientFunds)
                } else {
                    let row = Balance {
                        balance_id: self.balances[i].balance_id,
                        username: self.balances[i].username.clone(),
                        balance: b - amount,
                    };
                    proof {
                        lemma_balance_update(self.balances@, i as int, row);
                    }
                    self.balances.set(i, row);
                    Ok(b - amount)
                }
            },
            None => {
                proof {
                    lemma_balance_absent(self.balances@, user@);
                }
                Err(CoreError::InsufficientFunds)
            },
        }
    }

    /// Increments the user's balance, creating the row lazily for an unknown
    /// user.  The same locking discipline as the debit: only a coordinator
    /// that pairs it with a settled entry keeps the ledger balanced.
    pub fn credit(&mut self, user: &String, amount: i64)
        requires
            old(self).basic_wf(),
            amount >= 0,
            spec_balance_of(old(self).balances@, user@) + amount <= i64::MAX,
        ensures
            final(self).basic_wf(),
            final(self).transactions@ == old(self).transactions@,
            final(self).next_id == old(self).next_id,
            spec_balance_of(final(self).balances@, user@) == spec_balance_of(
                old(self).balances@,
                user@,
            ) + amount,
            forall|u: Seq<char>|
                u != user@ ==> #[trigger] spec_balance_of(final(self).balances@, u)
                    == spec_balance_of(old(self).balances@, u),
    {
        match find_account(&self.balances, user) {
            Some(i) => {
                proof {
                    lemma_balance_at_index(self.balances@, i as int, user@);
                }
                let b = self.balances[i].balance;
                let row = Balance {
                    balance_id: self.balances[i].balance_id,
                    username: self.balances[i].username.clone(),
                    balance: b + amount,
                };
                proof {
                    lemma_balance_update(self.balances@, i as int, row);
                }
                self.balances.set(i, row);
            },
            None => {
                proof {
                    lemma_balance_absent(self.balances@, user@);
                }
                let row = Balance { balance_id: 0, username: user.clone(), balance: amount };
                proof {
                    lemma_balance_push(self.balances@, row);
                }
                self.balances.push(row);
            },
        }
    }

    /// Appends an entry in the state the caller specifies and returns the
    /// persisted row including its generated identity.
    pub fn record_transaction(&mut self, entry: NewTransaction) -> (t: Transaction)
        requires
            old(self).basic_wf(),
            old(self).next_id < i32::MAX,
        ensures
            final(self).basic_wf(),
            final(self).balances@ == old(self).balances@,
            final(self).next_id == old(self).next_id + 1,
            final(self).transactions@ == old(self).transactions@.push(t),
            t.transaction_id == old(self).next_id,
            t.username == entry.username,
            t.ttype == entry.ttype,
            t.detail == entry.detail,
            t.amount == entry.amount,
            t.state == entry.state,
            t.payment_addr == entry.payment_addr,
            t.payment_request == entry.payment_request,
            t.payment_hash == entry.payment_hash,
    {
        let t = Transaction {
            transaction_id: self.next_id,
            username: entry.username,
            ttype: entry.ttype,
            detail: entry.detail,
            amount: entry.amount,
            state: entry.state,
            payment_addr: entry.payment_addr,
            payment_request: entry.payment_request,
            payment_hash: entry.payment_hash,
        };
        let stored = t.clone();
        self.transactions.push(stored);
        self.next_id = self.next_id + 1;
        t
    }

    /// Mutates an existing entry's state, and optionally its amount, in
    /// place; fails with `NotFound`, changing nothing, when no entry carries
    /// the identity.
    pub fn finalize_transaction(
        &mut self,
        id: i32,
        new_state: TxState,
        new_amount: Option<i64>,
    ) -> (r: Result<(), CoreError>)
        requires
            old(self).basic_wf(),
        ensures
            final(self).basic_wf(),
            final(self).balances@ == old(self).balances@,
            final(self).next_id == old(self).next_id,
            !spec_has_tx(old(self).transactions@, id as int) ==> {
                &&& r == Err::<(), CoreError>(CoreError::NotFound)
                &&& *final(self) == *old(self)
            },
            spec_has_tx(old(self).transactions@, id as int) ==> {
                &&& r == Ok::<(), CoreError>(())
                &&& exists|i: int|
                    {
                        &&& 0 <= i < old(self).transactions@.len()
                        &&& (#[trigger] old(self).transactions@[i]).transaction_id == id
                        &&& final(self).transactions@ == old(self).transactions@.update(
                            i,
                            finalized(old(self).transactions@[i], new_state, new_amount),
                        )
                    }
            },
    {
        match find_transaction(&self.transactions, id) {
            Some(i) => {
                let existing = &self.transactions[i];
                let updated = Transaction {
                    transaction_id: existing.transaction_id,
                    username: existing.username.clone(),
                    ttype: existing.ttype,
                    detail: existing.detail.clone(),
                    amount: match new_amount {
                        Some(a) => a,
                        None => existing.amount,
                    },
                    state: new_state,
                    payment_addr: clone_opt_string(&existing.payment_addr),
                    payment_request: clone_opt_string(&existing.payment_request),
                    payment_hash: clone_opt_string(&existing.payment_hash),
                };
                self.transactions.set(i, updated);
                Ok(())
            },
            None => Err(CoreError::NotFound),
        }
    }
}

/// The row as `finalize_transaction` leaves it: new state, the new amount
/// where one was given, every other field untouched.
pub open spec fn finalized(t: Transaction, new_state: TxState, new_amount: Option<i64>) -> Transaction {
    Transaction {
        state: new_state,
        amount: if new_amount is Some {
            new_amount.unwrap()
        } else {
            t.amount
        },
        ..t
    }
}

/// The index of the balance row naming this user, if any.
fn find_account(rows: &Vec<Balance>, user: &String) -> (r: Option<usize>)
    ensures
        r matches Some(i) ==> i < rows@.len() && rows@[i as int].username@ == user@,
        r is None ==> forall|i: int| 0 <= i < rows@.len() ==> (#[trigger] rows@[i]).username@
            != user@,
        r is None ==> !spec_has_account(rows@, user@),
{
    let mut i: usize = 0;
    while i < rows.len()
        invariant
            i <= rows@.len(),
            forall|j: int| 0 <= j < i ==> (#[trigger] rows@[j]).username@ != user@,
        decreases rows@.len() - i,
    {
        if rows[i].username == *user {
            return Some(i);
        }
        i = i + 1;
    }
    proof {
        lemma_no_account_index(rows@, user@);
    }
    None
}

/// The index of the entry carrying this identity, if any.
fn find_transaction(txs: &Vec<Transaction>, id: i32) -> (r: Option<usize>)
    ensures
        r matches Some(i) ==> i < txs@.len() && txs@[i as int].transaction_id == id,
        r is None ==> !spec_has_tx(txs@, id as int),
{
    let mut i: usize = 0;
    while i < txs.len()
        invariant
            i <= txs@.len(),
            forall|j: int| 0 <= j < i ==> (#[trigger] txs@[j]).transaction_id != id,
        decreases txs@.len() - i,
    {
        if txs[i].transaction_id == id {
            return Some(i);
        }
        i = i + 1;
    }
    None
}

/// If no row names the user, the user has no account.
proof fn lemma_no_account_index(rows: Seq<Balance>, u: Seq<char>)
    requires
        forall|i: int| 0 <= i < rows.len() ==> (#[trigger] rows[i]).username@ != u,
    ensures
        !spec_has_account(rows, u),
    decreases rows.len(),
{
    if rows.len() > 0 {
        lemma_no_account_index(rows.drop_last(), u);
    }
}

/// With one row per user, the balance the rows record for a user is the
/// amount on the row that names them.
proof fn lemma_balance_at_index(rows: Seq<Balance>, i: int, u: Seq<char>)
    requires
        accounts_unique(rows),
        0 <= i < rows.len(),
        rows[i].username@ == u,
    ensures
        spec_balance_of(rows, u) == rows[i].balance as int,
        spec_has_account(rows, u),
    decreases rows.len(),
{
    if i < rows.len() - 1 {
        lemma_balance_at_index(rows.drop_last(), i, u);
    }
}

/// A user with no account reads as zero.
proof fn lemma_balance_absent(rows: Seq<Balance>, u: Seq<char>)
    requires
        !spec_has_account(rows, u),
    ensures
        spec_balance_of(rows, u) == 0,
    decreases rows.len(),
{
    if rows.len() > 0 {
        lemma_balance_absent(rows.drop_last(), u);
    }
}

/// Replacing a row with one naming the same user moves only that user's
/// balance.
proof fn lemma_balance_update(rows: Seq<Balance>, i: int, row: Balance)
    requires
        accounts_unique(rows),
        0 <= i < rows.len(),
        row.username@ == rows[i].username@,
    ensures
        accounts_unique(rows.update(i, row)),
        spec_balance_of(rows.update(i, row), rows[i].username@) == row.balance as int,
        forall|u: Seq<char>|
            u != rows[i].username@ ==> #[trigger] spec_balance_of(rows.update(i, row), u)
                == spec_balance_of(rows, u),
    decreases rows.len(),
{
    let updated = rows.update(i, row);
    assert forall|a: int, b: int| 0 <= a < b < updated.len() implies #[trigger] updated[a].username@
        != #[trigger] updated[b].username@ by {
        assert(rows[a].username@ != rows[b].username@);
    }
    if i == rows.len() - 1 {
        assert(updated.drop_last() =~= rows.drop_last());
    } else {
        assert forall|a: int, b: int| 0 <= a < b < rows.drop_last().len() implies #[trigger] rows.drop_last()[a].username@
            != #[trigger] rows.drop_last()[b].username@ by {
            assert(rows[a].username@ != rows[b].username@);
        }
        lemma_balance_update(rows.drop_last(), i, row);
        assert(updated.drop_last() =~= rows.drop_last().update(i, row));
        assert(updated.last() == rows.last());
        assert forall|u: Seq<char>|
            u != rows[i].username@ implies #[trigger] spec_balance_of(updated, u)
                == spec_balance_of(rows, u) by {
            assert(spec_balance_of(updated.drop_last(), u) == spec_balance_of(
                rows.drop_last(),
                u,
            ));
        }
    }
}

/// Appending a row for a user moves only that user's balance.
proof fn lemma_balance_push(rows: Seq<Balance>, row: Balance)
    ensures
        spec_balance_of(rows.push(row), row.username@) == row.balance as int,
        forall|u: Seq<char>|
            u != row.username@ ==> #[trigger] spec_balance_of(rows.push(row), u)
                == spec_balance_of(rows, u),
{
    assert(rows.push(row).drop_last() =~= rows);
    assert(rows.push(row).last() == row);
}

/// Appending an entry adds exactly its contribution to each user's settled
/// total.
pub proof fn lemma_settled_sum_push(txs: Seq<Transaction>, t: Transaction, u: Seq<char>)
    ensures
        settled_sum(txs.push(t), u) == settled_sum(txs, u) + settled_contrib(t, u),
{
    assert(txs.push(t).drop_last() =~= txs);
    assert(txs.push(t).last() == t);
}

/// Replacing an entry swaps its old contribution for its new one in each
/// user's settled total.
pub proof fn lemma_settled_sum_update(txs: Seq<Transaction>, i: int, t: Transaction, u: Seq<char>)
    requires
        0 <= i < txs.len(),
    ensures
        settled_sum(txs.update(i, t), u) == settled_sum(txs, u) - settled_contrib(txs[i], u)
            + settled_contrib(t, u),
    decreases txs.len(),
{
    let updated = txs.update(i, t);
    if i == txs.len() - 1 {
        assert(updated.drop_last() =~= txs.drop_last());
    } else {
        lemma_settled_sum_update(txs.drop_last(), i, t, u);
        assert(updated.drop_last() =~= txs.drop_last().update(i, t));
        assert(updated.last() == txs.last());
    }
}

/// Law: between completed operations, every user's balance equals the sum
/// of that user's settled transaction amounts.
pub proof fn lemma_balance_matches_settled_sum(l: Ledger, u: Seq<char>)
    requires
        l.balanced(),
    ensures
        spec_balance_of(l.balances@, u) == settled_sum(l.transactions@, u),
{
}

} // verus!
