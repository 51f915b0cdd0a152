//! The balance engine: credits and debits of one account, each recorded in
//! the ledger under the next sequence number.

use vstd::prelude::*;
use std::collections::HashMap;
use crate::decimal::{
    at_most, checked_difference, checked_sum, decimal_difference, decimal_le, decimal_sum, Decimal,
};
use crate::error::LedgerError;
use crate::ledger::{next_sequence, next_sequence_spec};
use crate::structure::{
    ledger_view, CardInfo, CardInfoView, TradeHistory, TradeHistoryView, TransactionType,
    TransactionTypeView,
};

verus! {

/// `price` is positive and at most `balance`.
pub open spec fn funds_cover(balance: (int, nat), price: (int, nat)) -> bool {
    decimal_le(price, balance) && price.0 > 0
}

/// Whether the balance can pay `price`: the price is positive and no larger
/// than the balance.
pub fn check_balance(balance: &Decimal, price: Decimal) -> (r: bool)
    ensures
        r == funds_cover(balance@, price@),
{
    at_most(price, *balance) && price.is_positive()
}

/// The amount that a transaction moves.
pub open spec fn amount_of(kind: TransactionTypeView) -> (int, nat) {
    match kind {
        TransactionTypeView::Credit { amount } => amount,
        TransactionTypeView::Debit { amount } => amount,
    }
}

/// What the arithmetic gives for the balance after a transaction, before the
/// balance engine has judged it.
pub open spec fn raw_balance(balance: (int, nat), kind: TransactionTypeView) -> Option<(int, nat)> {
    match kind {
        TransactionTypeView::Credit { amount } => decimal_sum(
            balance.0,
            balance.1,
            amount.0,
            amount.1,
        ),
        TransactionTypeView::Debit { amount } => decimal_difference(
            balance.0,
            balance.1,
            amount.0,
            amount.1,
        ),
    }
}

/// The balance after a transaction, or why the transaction is refused. An
/// amount that is not positive is invalid; a debit needs the balance to be at
/// least the amount.
pub open spec fn computed_balance(balance: (int, nat), kind: TransactionTypeView) -> Result<
    (int, nat),
    LedgerError,
> {
    if amount_of(kind).0 <= 0 {
        Err(LedgerError::InvalidAmount)
    } else if kind is Debit && !decimal_le(amount_of(kind), balance) {
        Err(LedgerError::InsufficientFunds)
    } else {
        match raw_balance(balance, kind) {
            Some(after) => Ok(after),
            None => Err(LedgerError::Overflow),
        }
    }
}

/// The account once a transaction at time `now` was recorded under `seq`.
pub open spec fn recorded_account(
    account: CardInfoView,
    balance: (int, nat),
    now: i64,
    seq: i64,
) -> CardInfoView {
    CardInfoView {
        balance,
        transaction: Some(
            match account.transaction {
                Some(index) => index.insert(now, seq),
                None => Map::<i64, i64>::empty().insert(now, seq),
            },
        ),
        ..account
    }
}

/// The account and the ledger once `kind` was posted with the balance
/// `new_balance`, or why it is not posted: the balance may not be negative,
/// and the ledger must have a sequence number left.
pub open spec fn posted(
    account: CardInfoView,
    ledger: Map<i64, TradeHistoryView>,
    kind: TransactionTypeView,
    target_user: Seq<char>,
    now: i64,
    new_balance: (int, nat),
) -> Result<(CardInfoView, Map<i64, TradeHistoryView>), LedgerError> {
    if new_balance.0 < 0 {
        Err(LedgerError::NegativeBalance)
    } else if next_sequence_spec(ledger.dom()) > i64::MAX {
        Err(LedgerError::SequenceExhausted)
    } else {
        let seq = next_sequence_spec(ledger.dom()) as i64;
        Ok(
            (
                recorded_account(account, new_balance, now, seq),
                ledger.insert(
                    seq,
                    TradeHistoryView { timestamp: now, transaction_type: kind, target_user },
                ),
            ),
        )
    }
}

/// The account and the ledger after a transaction, or why it is refused.
pub open spec fn transact_spec(
    account: CardInfoView,
    ledger: Map<i64, TradeHistoryView>,
    kind: TransactionTypeView,
    target_user: Seq<char>,
    now: i64,
) -> Result<(CardInfoView, Map<i64, TradeHistoryView>), LedgerError> {
    match computed_balance(account.balance, kind) {
        Ok(new_balance) => posted(account, ledger, kind, target_user, now, new_balance),
        Err(e) => Err(e),
    }
}

/// Inserting into a ledger and taking views commute.
pub proof fn lemma_ledger_view_insert(trades: Map<i64, TradeHistory>, seq: i64, entry: TradeHistory)
    ensures
        ledger_view(trades.insert(seq, entry)) == ledger_view(trades).insert(seq, entry@),
        ledger_view(trades).dom() == trades.dom(),
{
    assert(ledger_view(trades.insert(seq, entry)) =~= ledger_view(trades).insert(seq, entry@));
    assert(ledger_view(trades).dom() =~= trades.dom());
}

/// Computes the balance that a transaction leaves, and refuses the
/// transaction where the amount is not positive, where a debit exceeds the
/// balance, or where the result leaves the range of a decimal.
pub fn compute_balance(balance: Decimal, kind: TransactionType) -> (r: Result<Decimal, LedgerError>)
    ensures
        (match computed_balance(balance@, kind@) {
            Ok(after) => r matches Ok(d) && d@ == after,
            Err(e) => r matches Err(x) && x == e,
        }),
{
    match kind {
        TransactionType::Credit { amount } => {
            if !amount.is_positive() {
                return Err(LedgerError::InvalidAmount);
            }
            match checked_sum(balance, amount) {
                Some(after) => Ok(after),
                None => Err(LedgerError::Overflow),
            }
        },
        TransactionType::Debit { amount } => {
            if !amount.is_positive() {
                return Err(LedgerError::InvalidAmount);
            }
            if !at_most(amount, balance) {
                return Err(LedgerError::InsufficientFunds);
            }
            match checked_difference(balance, amount) {
                Some(after) => Ok(after),
                None => Err(LedgerError::Overflow),
            }
        },
    }
}

/// Posts a transaction whose resulting balance has been computed: sets the
/// balance, writes the ledger entry under the next sequence number and notes
/// that number in the account's index under `now`. Returns the sequence
/// number. A negative balance is never posted. On an error nothing changes.
pub fn post_transaction(
    card: &mut CardInfo,
    trade_map: &mut HashMap<i64, TradeHistory>,
    kind: TransactionType,
    target_user: String,
    now: i64,
    new_balance: Decimal,
) -> (r: Result<i64, LedgerError>)
    ensures
        (match posted(
            old(card)@,
            ledger_view(old(trade_map)@),
            kind@,
            target_user@,
            now,
            new_balance@,
        ) {
            Ok((account, ledger)) => {
                &&& r matches Ok(seq)
                &&& seq == next_sequence_spec(old(trade_map)@.dom())
                &&& final(card)@ == account
                &&& ledger_view(final(trade_map)@) == ledger
                &&& final(trade_map)@.dom() == old(trade_map)@.dom().insert(seq)
            },
            Err(e) => {
                &&& r matches Err(x)
                &&& x == e
                &&& *final(card) == *old(card)
                &&& *final(trade_map) == *old(trade_map)
            },
        }),
{
    proof {
        assert(ledger_view(trade_map@).dom() =~= trade_map@.dom());
    }
    if new_balance.is_negative() {
        return Err(LedgerError::NegativeBalance);
    }
    let seq = match next_sequence(trade_map) {
        Some(seq) => seq,
        None => {
            return Err(LedgerError::SequenceExhausted);
        },
    };
    let entry = TradeHistory { timestamp: now, transaction_type: kind, target_user };
    proof {
        lemma_ledger_view_insert(trade_map@, seq, entry);
    }
    let mut index = match card.transaction.take() {
        Some(index) => index,
        None => HashMap::new(),
    };
    index.insert(now, seq);
    card.transaction = Some(index);
    card.balance = new_balance;
    trade_map.insert(seq, entry);
    Ok(seq)
}

/// Applies a credit or a debit to the account and records it in the ledger.
/// Returns the new balance. On an error nothing changes.
pub fn apply_transaction(
    card: &mut CardInfo,
    trade_map: &mut HashMap<i64, TradeHistory>,
    kind: TransactionType,
    target_user: String,
    now: i64,
) -> (r: Result<Decimal, LedgerError>)
    ensures
        (match transact_spec(old(card)@, ledger_view(old(trade_map)@), kind@, target_user@, now) {
            Ok((account, ledger)) => {
                &&& r matches Ok(balance)
                &&& balance@ == account.balance
                &&& balance@.0 >= 0
                &&& final(card)@ == account
                &&& ledger_view(final(trade_map)@) == ledger
            },
            Err(e) => {
                &&& r matches Err(x)
                &&& x == e
                &&& *final(card) == *old(card)
                &&& *final(trade_map) == *old(trade_map)
            },
        }),
{
    let new_balance = match compute_balance(card.balance, kind) {
        Ok(new_balance) => new_balance,
        Err(e) => {
            return Err(e);
        },
    };
    match post_transaction(card, trade_map, kind, target_user, now, new_balance) {
        Ok(_) => Ok(new_balance),
        Err(e) => Err(e),
    }
}

} // verus!
