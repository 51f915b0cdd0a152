use card_ledger::balance::{apply_transaction, check_balance, compute_balance, post_transaction};
use card_ledger::card::gen_card;
use card_ledger::decimal::{Decimal, MAX_MANTISSA};
use card_ledger::error::LedgerError;
use card_ledger::ledger::{last_sequence, next_sequence};
use card_ledger::structure::{CardInfo, TradeHistory, TransactionType};
use std::collections::HashMap;

fn dec(num: i64, scale: u32) -> Decimal {
    Decimal::new(num, scale).unwrap()
}

fn account(balance: Decimal) -> CardInfo {
    let mut card = gen_card("Visa".to_string(), "Gold".to_string(), 1, "alice");
    card.balance = balance;
    card
}

fn entry(timestamp: i64) -> TradeHistory {
    TradeHistory {
        timestamp,
        transaction_type: TransactionType::Credit { amount: dec(1, 0) },
        target_user: "bob".to_string(),
    }
}

#[test]
fn next_sequence_of_an_empty_ledger_is_one() {
    let ledger: HashMap<i64, TradeHistory> = HashMap::new();
    assert_eq!(last_sequence(&ledger), None);
    assert_eq!(next_sequence(&ledger), Some(1));
}

#[test]
fn next_sequence_follows_the_largest_key() {
    let mut ledger = HashMap::new();
    ledger.insert(3, entry(10));
    ledger.insert(17, entry(11));
    ledger.insert(5, entry(12));
    assert_eq!(last_sequence(&ledger), Some(17));
    assert_eq!(next_sequence(&ledger), Some(18));
}

#[test]
fn next_sequence_follows_a_negative_key() {
    let mut ledger = HashMap::new();
    ledger.insert(-4, entry(10));
    ledger.insert(-9, entry(10));
    assert_eq!(next_sequence(&ledger), Some(-3));
}

#[test]
fn next_sequence_stops_at_the_last_number() {
    let mut ledger = HashMap::new();
    ledger.insert(i64::MAX, entry(10));
    ledger.insert(1, entry(10));
    assert_eq!(last_sequence(&ledger), Some(i64::MAX));
    assert_eq!(next_sequence(&ledger), None);
}

#[test]
fn check_balance_needs_a_positive_price_within_the_balance() {
    assert!(check_balance(&dec(100, 0), dec(100, 0)));
    assert!(check_balance(&dec(100, 0), dec(9999, 2)));
    assert!(!check_balance(&dec(100, 0), dec(10001, 2)));
    assert!(!check_balance(&dec(100, 0), dec(0, 0)));
    assert!(!check_balance(&dec(100, 0), dec(-1, 0)));
    assert!(!check_balance(&dec(0, 0), dec(1, 28)));
}

#[test]
fn compute_balance_adds_a_credit() {
    let after = compute_balance(dec(1050, 2), TransactionType::Credit { amount: dec(25, 1) });
    assert!(after.unwrap().value_eq(&dec(13, 0)));
}

#[test]
fn compute_balance_subtracts_a_debit() {
    let after = compute_balance(dec(1050, 2), TransactionType::Debit { amount: dec(25, 1) });
    assert!(after.unwrap().value_eq(&dec(8, 0)));
    let all = compute_balance(dec(1050, 2), TransactionType::Debit { amount: dec(105, 1) });
    assert!(all.unwrap().value_eq(&Decimal::zero()));
}

#[test]
fn compute_balance_refuses_amounts_that_are_not_positive() {
    for amount in [dec(0, 0), dec(0, 5), dec(-1, 0), dec(-1, 28)] {
        assert_eq!(
            compute_balance(dec(10, 0), TransactionType::Credit { amount }),
            Err(LedgerError::InvalidAmount)
        );
        assert_eq!(
            compute_balance(dec(10, 0), TransactionType::Debit { amount }),
            Err(LedgerError::InvalidAmount)
        );
    }
}

#[test]
fn compute_balance_refuses_a_debit_above_the_balance() {
    assert_eq!(
        compute_balance(dec(10, 0), TransactionType::Debit { amount: dec(1001, 2) }),
        Err(LedgerError::InsufficientFunds)
    );
    assert_eq!(
        compute_balance(dec(0, 0), TransactionType::Debit { amount: dec(1, 28) }),
        Err(LedgerError::InsufficientFunds)
    );
}

#[test]
fn compute_balance_reports_overflow() {
    let max = Decimal::from_parts(MAX_MANTISSA, 0).unwrap();
    assert_eq!(
        compute_balance(max, TransactionType::Credit { amount: dec(1, 0) }),
        Err(LedgerError::Overflow)
    );
}

#[test]
fn post_transaction_writes_balance_entry_and_index() {
    let mut card = account(dec(5, 0));
    let mut ledger = HashMap::new();
    ledger.insert(41, entry(1));
    let kind = TransactionType::Credit { amount: dec(7, 0) };
    let seq = post_transaction(&mut card, &mut ledger, kind, "bob".to_string(), 1000, dec(12, 0));
    assert_eq!(seq, Ok(42));
    assert_eq!(card.balance, dec(12, 0));
    assert_eq!(card.transaction.as_ref().unwrap().get(&1000), Some(&42));
    assert_eq!(ledger.len(), 2);
    assert_eq!(
        ledger.get(&42),
        Some(&TradeHistory { timestamp: 1000, transaction_type: kind, target_user: "bob".to_string() })
    );
    assert_eq!(ledger.get(&41), Some(&entry(1)));
}

#[test]
fn post_transaction_never_posts_a_negative_balance() {
    let mut card = account(dec(5, 0));
    let mut ledger = HashMap::new();
    let before = card.clone();
    let kind = TransactionType::Debit { amount: dec(7, 0) };
    let r = post_transaction(&mut card, &mut ledger, kind, "bob".to_string(), 1000, dec(-2, 0));
    assert_eq!(r, Err(LedgerError::NegativeBalance));
    assert_eq!(card, before);
    assert!(ledger.is_empty());
}

#[test]
fn post_transaction_stops_when_the_ledger_is_full() {
    let mut card = account(dec(5, 0));
    let mut ledger = HashMap::new();
    ledger.insert(i64::MAX, entry(1));
    let before = card.clone();
    let kind = TransactionType::Credit { amount: dec(7, 0) };
    let r = post_transaction(&mut card, &mut ledger, kind, "bob".to_string(), 1000, dec(12, 0));
    assert_eq!(r, Err(LedgerError::SequenceExhausted));
    assert_eq!(card, before);
    assert_eq!(ledger.len(), 1);
}

#[test]
fn apply_transaction_credits_and_records() {
    let mut card = account(Decimal::zero());
    let mut ledger = HashMap::new();
    let kind = TransactionType::Credit { amount: dec(2550, 2) };
    let balance = apply_transaction(&mut card, &mut ledger, kind, "bob".to_string(), 77).unwrap();
    assert!(balance.value_eq(&dec(255, 1)));
    assert_eq!(card.balance, balance);
    assert_eq!(ledger.len(), 1);
    assert_eq!(ledger[&1].timestamp, 77);
    assert_eq!(ledger[&1].transaction_type, kind);
    assert_eq!(ledger[&1].target_user, "bob");
    assert_eq!(card.transaction.unwrap()[&77], 1);
}

#[test]
fn apply_transaction_numbers_entries_upwards() {
    let mut card = account(Decimal::zero());
    let mut ledger = HashMap::new();
    for (i, now) in [100i64, 200, 300].into_iter().enumerate() {
        let kind = TransactionType::Credit { amount: dec(1, 0) };
        apply_transaction(&mut card, &mut ledger, kind, "bob".to_string(), now).unwrap();
        assert_eq!(ledger.len(), i + 1);
        assert_eq!(card.transaction.as_ref().unwrap()[&now], i as i64 + 1);
    }
    assert!(card.balance.value_eq(&dec(3, 0)));
    let mut keys: Vec<i64> = ledger.keys().copied().collect();
    keys.sort();
    assert_eq!(keys, vec![1, 2, 3]);
}

#[test]
fn apply_transaction_debit_above_balance_changes_nothing() {
    let mut card = account(dec(10, 0));
    let mut ledger = HashMap::new();
    ledger.insert(1, entry(5));
    let before = card.clone();
    let kind = TransactionType::Debit { amount: dec(1001, 2) };
    let r = apply_transaction(&mut card, &mut ledger, kind, "bob".to_string(), 77);
    assert_eq!(r, Err(LedgerError::InsufficientFunds));
    assert_eq!(card, before);
    assert_eq!(ledger.len(), 1);
    assert_eq!(ledger[&1], entry(5));
}

#[test]
fn apply_transaction_debit_of_the_whole_balance_leaves_zero() {
    let mut card = account(dec(10, 0));
    let mut ledger = HashMap::new();
    let kind = TransactionType::Debit { amount: dec(1000, 2) };
    let balance = apply_transaction(&mut card, &mut ledger, kind, "bob".to_string(), 77).unwrap();
    assert!(balance.value_eq(&Decimal::zero()));
    assert!(!card.balance.is_negative());
    assert_eq!(ledger.len(), 1);
}

#[test]
fn apply_transaction_refuses_a_zero_credit() {
    let mut card = account(dec(10, 0));
    let mut ledger = HashMap::new();
    let kind = TransactionType::Credit { amount: Decimal::zero() };
    let r = apply_transaction(&mut card, &mut ledger, kind, "bob".to_string(), 77);
    assert_eq!(r, Err(LedgerError::InvalidAmount));
    assert!(ledger.is_empty());
    assert!(card.transaction.is_none());
}

#[test]
fn balance_stays_non_negative_over_a_run_of_operations() {
    let mut card = account(Decimal::zero());
    let mut ledger = HashMap::new();
    let run = [
        TransactionType::Debit { amount: dec(1, 0) },
        TransactionType::Credit { amount: dec(500, 2) },
        TransactionType::Debit { amount: dec(3, 0) },
        TransactionType::Debit { amount: dec(201, 2) },
        TransactionType::Credit { amount: dec(-4, 0) },
        TransactionType::Debit { amount: dec(2, 0) },
        TransactionType::Debit { amount: dec(1, 28) },
    ];
    let mut posted = 0;
    for (now, kind) in run.into_iter().enumerate() {
        if apply_transaction(&mut card, &mut ledger, kind, "bob".to_string(), now as i64).is_ok() {
            posted += 1;
        }
        assert!(!card.balance.is_negative());
        assert_eq!(ledger.len(), posted);
    }
    assert_eq!(posted, 3);
    assert!(card.balance.value_eq(&Decimal::zero()));
}
