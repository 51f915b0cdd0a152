use card_ledger::card::gen_card;
use card_ledger::decimal::Decimal;
use card_ledger::error::{LedgerError, StockError};
use card_ledger::position::{
    close_position, compute_cost, compute_earning, direction_of, find_position, open_position,
    scaled_leverage, value_position, Direction,
};
use card_ledger::structure::{CardInfo, Stock, StockHold, TradeHistory, TransactionType};
use std::collections::HashMap;

fn dec(num: i64, scale: u32) -> Decimal {
    Decimal::new(num, scale).unwrap()
}

fn account(balance: Decimal) -> CardInfo {
    let mut card = gen_card("Visa".to_string(), "Gold".to_string(), 1, "alice");
    card.balance = balance;
    card
}

fn order(buy_type: &str, hand: Decimal, leverage: Decimal, price: Decimal) -> Stock {
    Stock { buy_type: buy_type.to_string(), symbol: "AAPL".to_string(), hand, leverage, price }
}

#[test]
fn direction_of_reads_long_and_short_only() {
    assert_eq!(direction_of(&"Long".to_string()), Some(Direction::Long));
    assert_eq!(direction_of(&"Short".to_string()), Some(Direction::Short));
    assert_eq!(direction_of(&"long".to_string()), None);
    assert_eq!(direction_of(&"".to_string()), None);
    assert_eq!(direction_of(&"Long ".to_string()), None);
}

#[test]
fn scaled_leverage_reads_hundredths() {
    assert!(scaled_leverage(dec(100, 0)).unwrap().value_eq(&dec(1, 0)));
    assert_eq!(scaled_leverage(dec(100, 0)), Some(dec(100, 2)));
    assert_eq!(scaled_leverage(dec(250, 0)), Some(dec(250, 2)));
    assert_eq!(scaled_leverage(dec(1, 0)), Some(dec(1, 2)));
    assert_eq!(scaled_leverage(dec(-200, 0)), Some(dec(-200, 2)));
}

#[test]
fn scaled_leverage_drops_the_fraction() {
    assert_eq!(scaled_leverage(dec(1999, 1)), Some(dec(199, 2)));
    assert_eq!(scaled_leverage(dec(-1999, 1)), Some(dec(-199, 2)));
}

#[test]
fn scaled_leverage_refuses_zero() {
    assert_eq!(scaled_leverage(dec(0, 0)), None);
    assert_eq!(scaled_leverage(dec(0, 5)), None);
    assert_eq!(scaled_leverage(dec(5, 1)), None);
    assert_eq!(scaled_leverage(dec(-99, 2)), None);
}

#[test]
fn scaled_leverage_refuses_what_does_not_fit_in_64_bits() {
    let big = Decimal::from_parts(i64::MAX as i128 + 1, 0).unwrap();
    assert_eq!(scaled_leverage(big), None);
    let edge = Decimal::from_parts(i64::MAX as i128, 0).unwrap();
    assert_eq!(scaled_leverage(edge), Some(dec(i64::MAX, 2)));
    let low = Decimal::from_parts(i64::MIN as i128, 0).unwrap();
    assert_eq!(scaled_leverage(low), Some(dec(i64::MIN, 2)));
    let lower = Decimal::from_parts(i64::MIN as i128 - 1, 0).unwrap();
    assert_eq!(scaled_leverage(lower), None);
}

#[test]
fn compute_cost_is_price_times_hand_over_leverage() {
    // 100 * 10 / 1.00 = 1000
    assert!(compute_cost(dec(100, 0), dec(10, 0), dec(100, 2)).unwrap().value_eq(&dec(1000, 0)));
    // 12.50 * 4 / 2.00 = 25
    assert!(compute_cost(dec(1250, 2), dec(4, 0), dec(200, 2)).unwrap().value_eq(&dec(25, 0)));
    // 10 * 1 / 3.00 = 3.3333333333333333333333333333
    assert_eq!(
        compute_cost(dec(10, 0), dec(1, 0), dec(300, 2)),
        Decimal::from_parts(33_333_333_333_333_333_333_333_333_333, 28)
    );
}

#[test]
fn compute_cost_reports_a_zero_divisor_and_overflow() {
    assert_eq!(compute_cost(dec(100, 0), dec(10, 0), dec(0, 2)), None);
    let max = Decimal::from_parts(card_ledger::decimal::MAX_MANTISSA, 0).unwrap();
    assert_eq!(compute_cost(max, dec(10, 0), dec(100, 2)), None);
}

#[test]
fn compute_earning_follows_the_direction() {
    let long = compute_earning(Direction::Long, dec(100, 0), dec(110, 0), dec(10, 0), dec(100, 2));
    assert!(long.unwrap().value_eq(&dec(100, 0)));
    let short = compute_earning(Direction::Short, dec(100, 0), dec(110, 0), dec(10, 0), dec(100, 2));
    assert!(short.unwrap().value_eq(&dec(-100, 0)));
    let levered = compute_earning(Direction::Short, dec(100, 0), dec(95, 0), dec(2, 0), dec(300, 2));
    assert!(levered.unwrap().value_eq(&dec(30, 0)));
}

#[test]
fn value_position_long_gains_when_the_price_rises() {
    let stock = order("Long", dec(10, 0), dec(100, 0), dec(100, 0));
    let (earning, payout) = value_position(&stock, dec(110, 0)).unwrap();
    assert!(earning.value_eq(&dec(100, 0)));
    assert!(payout.value_eq(&dec(1100, 0)));
}

#[test]
fn value_position_short_loses_when_the_price_rises() {
    let stock = order("Short", dec(10, 0), dec(100, 0), dec(100, 0));
    let (earning, payout) = value_position(&stock, dec(110, 0)).unwrap();
    assert!(earning.value_eq(&dec(-100, 0)));
    assert!(payout.value_eq(&dec(900, 0)));
}

#[test]
fn value_position_can_lose_more_than_the_principal() {
    // principal 100 * 1 / 10.00 = 10; earning (80 - 100) * 1 * 10.00 = -200
    let stock = order("Long", dec(1, 0), dec(1000, 0), dec(100, 0));
    let (earning, payout) = value_position(&stock, dec(80, 0)).unwrap();
    assert!(earning.value_eq(&dec(-200, 0)));
    assert!(payout.value_eq(&dec(-190, 0)));
}

#[test]
fn value_position_refuses_other_directions_and_zero_leverage() {
    let sideways = order("Sideways", dec(10, 0), dec(100, 0), dec(100, 0));
    assert_eq!(value_position(&sideways, dec(110, 0)), Err(StockError::InvalidDirection));
    let flat = order("Long", dec(10, 0), dec(0, 0), dec(100, 0));
    assert_eq!(value_position(&flat, dec(110, 0)), Err(StockError::InvalidLeverage));
}

#[test]
fn find_position_matches_symbol_and_time() {
    let hold = |timestamp: i64, symbol: &str| StockHold {
        timestamp,
        stock: Stock {
            buy_type: "Long".to_string(),
            symbol: symbol.to_string(),
            hand: dec(1, 0),
            leverage: dec(100, 0),
            price: dec(1, 0),
        },
    };
    let holds = vec![hold(5, "AAPL"), hold(6, "MSFT"), hold(6, "AAPL"), hold(6, "AAPL")];
    assert_eq!(find_position(&holds, &"AAPL".to_string(), 6), Some(2));
    assert_eq!(find_position(&holds, &"AAPL".to_string(), 5), Some(0));
    assert_eq!(find_position(&holds, &"MSFT".to_string(), 5), None);
    assert_eq!(find_position(&holds, &"AAPL".to_string(), 7), None);
    assert_eq!(find_position(&Vec::new(), &"AAPL".to_string(), 5), None);
}

#[test]
fn open_position_debits_the_cost() {
    let mut card = account(dec(1500, 0));
    let mut holds = Vec::new();
    let mut ledger: HashMap<i64, TradeHistory> = HashMap::new();
    let stock = order("Long", dec(10, 0), dec(100, 0), dec(100, 0));
    let cost = open_position(&mut card, &mut holds, &mut ledger, stock.clone(), 50).unwrap();
    assert!(cost.value_eq(&dec(1000, 0)));
    assert!(card.balance.value_eq(&dec(500, 0)));
    assert_eq!(holds, vec![StockHold { timestamp: 50, stock }]);
    assert_eq!(ledger.len(), 1);
    assert_eq!(ledger[&1].timestamp, 50);
    assert_eq!(ledger[&1].target_user, "Stock! Bot");
    assert_eq!(ledger[&1].transaction_type, TransactionType::Debit { amount: cost });
    assert_eq!(card.transaction.unwrap()[&50], 1);
}

#[test]
fn open_position_with_zero_leverage_changes_nothing() {
    let mut card = account(dec(1500, 0));
    let mut holds = Vec::new();
    let mut ledger: HashMap<i64, TradeHistory> = HashMap::new();
    let before = card.clone();
    let stock = order("Long", dec(10, 0), dec(0, 0), dec(100, 0));
    assert_eq!(
        open_position(&mut card, &mut holds, &mut ledger, stock, 50),
        Err(StockError::InvalidLeverage)
    );
    assert_eq!(card, before);
    assert!(holds.is_empty());
    assert_eq!(ledger.len(), 0);
}

#[test]
fn open_position_refuses_an_unknown_direction() {
    let mut card = account(dec(1500, 0));
    let mut holds = Vec::new();
    let mut ledger: HashMap<i64, TradeHistory> = HashMap::new();
    let stock = order("Up", dec(10, 0), dec(100, 0), dec(100, 0));
    assert_eq!(
        open_position(&mut card, &mut holds, &mut ledger, stock, 50),
        Err(StockError::InvalidDirection)
    );
    assert!(holds.is_empty());
    assert!(ledger.is_empty());
}

#[test]
fn open_position_needs_funds_for_a_positive_cost() {
    let mut card = account(dec(999, 0));
    let mut holds = Vec::new();
    let mut ledger: HashMap<i64, TradeHistory> = HashMap::new();
    let before = card.clone();
    let dear = order("Long", dec(10, 0), dec(100, 0), dec(100, 0));
    assert_eq!(
        open_position(&mut card, &mut holds, &mut ledger, dear, 50),
        Err(StockError::InsufficientFunds)
    );
    let none = order("Long", dec(0, 0), dec(100, 0), dec(100, 0));
    assert_eq!(
        open_position(&mut card, &mut holds, &mut ledger, none, 50),
        Err(StockError::InsufficientFunds)
    );
    let backwards = order("Long", dec(1, 0), dec(-100, 0), dec(100, 0));
    assert_eq!(
        open_position(&mut card, &mut holds, &mut ledger, backwards, 50),
        Err(StockError::InsufficientFunds)
    );
    assert_eq!(card, before);
    assert!(holds.is_empty());
    assert!(ledger.is_empty());
}

#[test]
fn open_position_reports_overflow() {
    let mut card = account(dec(999, 0));
    let mut holds = Vec::new();
    let mut ledger: HashMap<i64, TradeHistory> = HashMap::new();
    let max = Decimal::from_parts(card_ledger::decimal::MAX_MANTISSA, 0).unwrap();
    let huge = order("Long", dec(10, 0), dec(100, 0), max);
    assert_eq!(
        open_position(&mut card, &mut holds, &mut ledger, huge, 50),
        Err(StockError::Ledger(LedgerError::Overflow))
    );
}

#[test]
fn open_then_close_round_trip() {
    let mut card = account(dec(1000, 0));
    let mut holds = Vec::new();
    let mut ledger: HashMap<i64, TradeHistory> = HashMap::new();
    let stock = order("Long", dec(10, 0), dec(100, 0), dec(100, 0));
    open_position(&mut card, &mut holds, &mut ledger, stock, 50).unwrap();
    assert!(card.balance.value_eq(&Decimal::zero()));
    let settlement =
        close_position(&mut card, &mut holds, &mut ledger, &"AAPL".to_string(), 50, dec(110, 0), 60)
            .unwrap();
    assert!(settlement.earning.value_eq(&dec(100, 0)));
    assert!(settlement.payout.value_eq(&dec(1100, 0)));
    assert_eq!(settlement.hand, dec(10, 0));
    assert_eq!(settlement.leverage, dec(100, 0));
    assert!(card.balance.value_eq(&dec(1100, 0)));
    assert!(holds.is_empty());
    assert_eq!(ledger.len(), 2);
    assert_eq!(ledger[&2].timestamp, 60);
    assert_eq!(ledger[&2].target_user, "Stock! Bot");
    assert_eq!(ledger[&2].transaction_type, TransactionType::Credit { amount: settlement.payout });
    assert_eq!(card.transaction.as_ref().unwrap()[&60], 2);
}

#[test]
fn close_position_twice_finds_nothing_the_second_time() {
    let mut card = account(dec(1000, 0));
    let mut holds = Vec::new();
    let mut ledger: HashMap<i64, TradeHistory> = HashMap::new();
    let stock = order("Short", dec(10, 0), dec(100, 0), dec(100, 0));
    open_position(&mut card, &mut holds, &mut ledger, stock, 50).unwrap();
    let symbol = "AAPL".to_string();
    let first = close_position(&mut card, &mut holds, &mut ledger, &symbol, 50, dec(90, 0), 60);
    assert!(first.unwrap().payout.value_eq(&dec(1100, 0)));
    let after_first = card.clone();
    let second = close_position(&mut card, &mut holds, &mut ledger, &symbol, 50, dec(90, 0), 61);
    assert_eq!(second, Err(StockError::PositionNotFound));
    assert_eq!(card, after_first);
    assert_eq!(ledger.len(), 2);
}

#[test]
fn close_position_wants_the_exact_symbol_and_time() {
    let mut card = account(dec(1000, 0));
    let mut holds = Vec::new();
    let mut ledger: HashMap<i64, TradeHistory> = HashMap::new();
    let stock = order("Long", dec(10, 0), dec(100, 0), dec(100, 0));
    open_position(&mut card, &mut holds, &mut ledger, stock, 50).unwrap();
    let wrong_time =
        close_position(&mut card, &mut holds, &mut ledger, &"AAPL".to_string(), 51, dec(110, 0), 60);
    assert_eq!(wrong_time, Err(StockError::PositionNotFound));
    let wrong_symbol =
        close_position(&mut card, &mut holds, &mut ledger, &"MSFT".to_string(), 50, dec(110, 0), 60);
    assert_eq!(wrong_symbol, Err(StockError::PositionNotFound));
    assert_eq!(holds.len(), 1);
    assert_eq!(ledger.len(), 1);
}

#[test]
fn close_position_without_a_payout_keeps_the_position() {
    let mut card = account(dec(10, 0));
    let mut holds = Vec::new();
    let mut ledger: HashMap<i64, TradeHistory> = HashMap::new();
    let stock = order("Long", dec(1, 0), dec(1000, 0), dec(100, 0));
    open_position(&mut card, &mut holds, &mut ledger, stock, 50).unwrap();
    let before = (card.clone(), holds.clone(), ledger.clone());
    let r = close_position(&mut card, &mut holds, &mut ledger, &"AAPL".to_string(), 50, dec(80, 0), 60);
    assert_eq!(r, Err(StockError::Ledger(LedgerError::InvalidAmount)));
    assert_eq!((card, holds, ledger), before);
}

#[test]
fn close_position_with_a_bad_stored_direction_keeps_the_position() {
    let mut card = account(dec(10, 0));
    let mut holds = vec![StockHold {
        timestamp: 50,
        stock: order("Sideways", dec(1, 0), dec(100, 0), dec(100, 0)),
    }];
    let mut ledger: HashMap<i64, TradeHistory> = HashMap::new();
    let r = close_position(&mut card, &mut holds, &mut ledger, &"AAPL".to_string(), 50, dec(80, 0), 60);
    assert_eq!(r, Err(StockError::InvalidDirection));
    assert_eq!(holds.len(), 1);
    assert!(ledger.is_empty());
}

#[test]
fn close_position_takes_the_first_of_two_alike() {
    let mut card = account(dec(100, 0));
    let mut holds = Vec::new();
    let mut ledger: HashMap<i64, TradeHistory> = HashMap::new();
    let small = order("Long", dec(1, 0), dec(100, 0), dec(10, 0));
    let large = order("Long", dec(2, 0), dec(100, 0), dec(10, 0));
    open_position(&mut card, &mut holds, &mut ledger, small, 50).unwrap();
    open_position(&mut card, &mut holds, &mut ledger, large.clone(), 50).unwrap();
    let symbol = "AAPL".to_string();
    let first = close_position(&mut card, &mut holds, &mut ledger, &symbol, 50, dec(10, 0), 60);
    assert_eq!(first.unwrap().hand, dec(1, 0));
    assert_eq!(holds, vec![StockHold { timestamp: 50, stock: large }]);
    let second = close_position(&mut card, &mut holds, &mut ledger, &symbol, 50, dec(10, 0), 61);
    assert_eq!(second.unwrap().hand, dec(2, 0));
}
