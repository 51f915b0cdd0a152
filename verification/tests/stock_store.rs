use card_ledger::authorizer::connect_verify;
use card_ledger::card::{gen_card, hash_str_to_u64};
use card_ledger::decimal::Decimal;
use card_ledger::error::{
    AuthError, ErrorCategory, HistoryError, LedgerError, QuoteError, RegisterError, StockError,
};
use card_ledger::stock::{buy_stock, check_stock_hold, sell_stock};
use card_ledger::structure::{
    BuyStock, CardInfo, Identification, SellStock, StockHold, TargetVerify, TradeHistory,
    TransactionType,
};
use std::collections::HashMap;

fn dec(num: i64, scale: u32) -> Decimal {
    Decimal::new(num, scale).unwrap()
}

struct Store {
    cards: HashMap<u64, CardInfo>,
    holds: HashMap<u64, Vec<StockHold>>,
    ledger: HashMap<i64, TradeHistory>,
    token: String,
}

fn store(balance: Decimal) -> Store {
    let mut cards = HashMap::new();
    let mut card = gen_card("Visa".to_string(), "Gold".to_string(), 7, "alice");
    card.balance = balance;
    cards.insert(hash_str_to_u64("alice"), card);
    let ask = TargetVerify { card_holder: "alice".to_string(), target: "discord".to_string() };
    let token = connect_verify(ask, "secret", 1, &mut cards).unwrap().token;
    Store { cards, holds: HashMap::new(), ledger: HashMap::new(), token }
}

fn buy(store: &Store, buy_type: &str, hand: Decimal, leverage: Decimal) -> BuyStock {
    BuyStock {
        buy_type: buy_type.to_string(),
        symbol: "AAPL".to_string(),
        hand,
        leverage,
        token: store.token.clone(),
        target: "discord".to_string(),
        card_holder: "alice".to_string(),
    }
}

fn sell(store: &Store, timestamp: i64) -> SellStock {
    SellStock {
        symbol: "AAPL".to_string(),
        timestamp,
        token: store.token.clone(),
        target: "discord".to_string(),
        card_holder: "alice".to_string(),
    }
}

fn alice() -> u64 {
    hash_str_to_u64("alice")
}

#[test]
fn buy_stock_opens_a_position_for_the_holder() {
    let mut s = store(dec(1500, 0));
    let request = buy(&s, "Long", dec(10, 0), dec(100, 0));
    let cost = buy_stock(request, Ok(dec(100, 0)), 50, &mut s.cards, &mut s.holds, &mut s.ledger)
        .unwrap();
    assert!(cost.value_eq(&dec(1000, 0)));
    assert!(s.cards[&alice()].balance.value_eq(&dec(500, 0)));
    assert_eq!(s.holds[&alice()].len(), 1);
    assert_eq!(s.holds[&alice()][0].timestamp, 50);
    assert_eq!(s.holds[&alice()][0].stock.symbol, "AAPL");
    assert_eq!(s.holds[&alice()][0].stock.buy_type, "Long");
    assert_eq!(s.holds[&alice()][0].stock.price, dec(100, 0));
    assert_eq!(s.ledger.len(), 1);
    assert_eq!(s.ledger[&1].transaction_type, TransactionType::Debit { amount: cost });
    assert_eq!(s.cards[&alice()].transaction.as_ref().unwrap()[&50], 1);
}

#[test]
fn buy_stock_with_zero_leverage_leaves_the_store_alone() {
    let mut s = store(dec(1500, 0));
    let before = (s.cards.clone(), s.holds.clone(), s.ledger.clone());
    let request = buy(&s, "Long", dec(10, 0), dec(0, 0));
    let r = buy_stock(request, Ok(dec(100, 0)), 50, &mut s.cards, &mut s.holds, &mut s.ledger);
    assert_eq!(r, Err(StockError::InvalidLeverage));
    assert_eq!((s.cards, s.holds, s.ledger), before);
}

#[test]
fn buy_stock_wants_the_token_of_the_platform() {
    let mut s = store(dec(1500, 0));
    let before = (s.cards.clone(), s.holds.clone(), s.ledger.clone());
    let mut forged = buy(&s, "Long", dec(10, 0), dec(100, 0));
    forged.token = "forged".to_string();
    let r = buy_stock(forged, Ok(dec(100, 0)), 50, &mut s.cards, &mut s.holds, &mut s.ledger);
    assert_eq!(r, Err(StockError::Unauthorized(AuthError::TokenMismatch)));
    let mut elsewhere = buy(&s, "Long", dec(10, 0), dec(100, 0));
    elsewhere.target = "line".to_string();
    let r = buy_stock(elsewhere, Ok(dec(100, 0)), 50, &mut s.cards, &mut s.holds, &mut s.ledger);
    assert_eq!(r, Err(StockError::Unauthorized(AuthError::UnknownPlatform)));
    let mut stranger = buy(&s, "Long", dec(10, 0), dec(100, 0));
    stranger.card_holder = "bob".to_string();
    let r = buy_stock(stranger, Ok(dec(100, 0)), 50, &mut s.cards, &mut s.holds, &mut s.ledger);
    assert_eq!(r, Err(StockError::Unauthorized(AuthError::NoSuchAccount)));
    assert_eq!((s.cards, s.holds, s.ledger), before);
}

#[test]
fn buy_stock_without_a_quote_leaves_the_store_alone() {
    let mut s = store(dec(1500, 0));
    let before = (s.cards.clone(), s.holds.clone(), s.ledger.clone());
    for failure in [QuoteError::SymbolNotFound, QuoteError::QuoteUnavailable] {
        let request = buy(&s, "Long", dec(10, 0), dec(100, 0));
        let r = buy_stock(request, Err(failure), 50, &mut s.cards, &mut s.holds, &mut s.ledger);
        assert_eq!(r, Err(StockError::Quote(failure)));
    }
    assert_eq!((s.cards, s.holds, s.ledger), before);
}

#[test]
fn buy_stock_without_funds_adds_no_list_of_positions() {
    let mut s = store(dec(999, 0));
    let request = buy(&s, "Long", dec(10, 0), dec(100, 0));
    let r = buy_stock(request, Ok(dec(100, 0)), 50, &mut s.cards, &mut s.holds, &mut s.ledger);
    assert_eq!(r, Err(StockError::InsufficientFunds));
    assert!(s.holds.is_empty());
    assert!(s.ledger.is_empty());
    assert!(s.cards[&alice()].balance.value_eq(&dec(999, 0)));
}

#[test]
fn buy_stock_adds_to_the_positions_that_are_open() {
    let mut s = store(dec(1500, 0));
    let first = buy(&s, "Long", dec(1, 0), dec(100, 0));
    buy_stock(first, Ok(dec(100, 0)), 50, &mut s.cards, &mut s.holds, &mut s.ledger).unwrap();
    let second = buy(&s, "Short", dec(2, 0), dec(200, 0));
    buy_stock(second, Ok(dec(100, 0)), 51, &mut s.cards, &mut s.holds, &mut s.ledger).unwrap();
    assert_eq!(s.holds[&alice()].len(), 2);
    assert_eq!(s.holds[&alice()][1].timestamp, 51);
    assert_eq!(s.holds[&alice()][1].stock.buy_type, "Short");
    assert!(s.cards[&alice()].balance.value_eq(&dec(1300, 0)));
    let mut keys: Vec<i64> = s.ledger.keys().copied().collect();
    keys.sort();
    assert_eq!(keys, vec![1, 2]);
}

#[test]
fn sell_stock_round_trip_pays_principal_and_earning() {
    let mut s = store(dec(1000, 0));
    let request = buy(&s, "Long", dec(10, 0), dec(100, 0));
    buy_stock(request, Ok(dec(100, 0)), 50, &mut s.cards, &mut s.holds, &mut s.ledger).unwrap();
    let request = sell(&s, 50);
    let settlement =
        sell_stock(request, Ok(dec(110, 0)), 60, &mut s.cards, &mut s.holds, &mut s.ledger).unwrap();
    assert!(settlement.earning.value_eq(&dec(100, 0)));
    assert!(settlement.payout.value_eq(&dec(1100, 0)));
    assert!(s.cards[&alice()].balance.value_eq(&dec(1100, 0)));
    assert!(s.holds[&alice()].is_empty());
    assert_eq!(s.ledger.len(), 2);
    assert_eq!(
        s.ledger[&2].transaction_type,
        TransactionType::Credit { amount: settlement.payout }
    );
}

#[test]
fn sell_stock_twice_pays_once() {
    let mut s = store(dec(1000, 0));
    let request = buy(&s, "Long", dec(10, 0), dec(100, 0));
    buy_stock(request, Ok(dec(100, 0)), 50, &mut s.cards, &mut s.holds, &mut s.ledger).unwrap();
    let first = sell_stock(sell(&s, 50), Ok(dec(110, 0)), 60, &mut s.cards, &mut s.holds, &mut s.ledger);
    assert!(first.is_ok());
    let after_first = (s.cards.clone(), s.holds.clone(), s.ledger.clone());
    let second = sell_stock(sell(&s, 50), Ok(dec(110, 0)), 61, &mut s.cards, &mut s.holds, &mut s.ledger);
    assert_eq!(second, Err(StockError::PositionNotFound));
    assert_eq!((s.cards, s.holds, s.ledger), after_first);
}

#[test]
fn sell_stock_before_any_purchase_finds_nothing() {
    let mut s = store(dec(1000, 0));
    let r = sell_stock(sell(&s, 50), Ok(dec(110, 0)), 60, &mut s.cards, &mut s.holds, &mut s.ledger);
    assert_eq!(r, Err(StockError::PositionNotFound));
    assert!(s.holds.is_empty());
}

#[test]
fn sell_stock_looks_for_the_position_before_the_quote() {
    let mut s = store(dec(1000, 0));
    let r = sell_stock(
        sell(&s, 50),
        Err(QuoteError::QuoteUnavailable),
        60,
        &mut s.cards,
        &mut s.holds,
        &mut s.ledger,
    );
    assert_eq!(r, Err(StockError::PositionNotFound));
}

#[test]
fn sell_stock_without_a_quote_keeps_the_position() {
    let mut s = store(dec(1000, 0));
    let request = buy(&s, "Long", dec(10, 0), dec(100, 0));
    buy_stock(request, Ok(dec(100, 0)), 50, &mut s.cards, &mut s.holds, &mut s.ledger).unwrap();
    let before = (s.cards.clone(), s.holds.clone(), s.ledger.clone());
    let r = sell_stock(
        sell(&s, 50),
        Err(QuoteError::QuoteUnavailable),
        60,
        &mut s.cards,
        &mut s.holds,
        &mut s.ledger,
    );
    assert_eq!(r, Err(StockError::Quote(QuoteError::QuoteUnavailable)));
    assert_eq!((s.cards, s.holds, s.ledger), before);
}

#[test]
fn sell_stock_wants_the_token_of_the_platform() {
    let mut s = store(dec(1000, 0));
    let request = buy(&s, "Long", dec(10, 0), dec(100, 0));
    buy_stock(request, Ok(dec(100, 0)), 50, &mut s.cards, &mut s.holds, &mut s.ledger).unwrap();
    let mut forged = sell(&s, 50);
    forged.token = "forged".to_string();
    let r = sell_stock(forged, Ok(dec(110, 0)), 60, &mut s.cards, &mut s.holds, &mut s.ledger);
    assert_eq!(r, Err(StockError::Unauthorized(AuthError::TokenMismatch)));
    assert_eq!(s.holds[&alice()].len(), 1);
}

#[test]
fn check_stock_hold_lists_the_open_positions() {
    let mut s = store(dec(1000, 0));
    let who = Identification { card_holder: "alice".to_string() };
    assert_eq!(check_stock_hold(&who, &s.holds), None);
    let request = buy(&s, "Long", dec(10, 0), dec(100, 0));
    buy_stock(request, Ok(dec(100, 0)), 50, &mut s.cards, &mut s.holds, &mut s.ledger).unwrap();
    let holds = check_stock_hold(&who, &s.holds).unwrap();
    assert_eq!(holds.len(), 1);
    assert_eq!(holds[0].timestamp, 50);
    let other = Identification { card_holder: "bob".to_string() };
    assert_eq!(check_stock_hold(&other, &s.holds), None);
}

#[test]
fn every_error_has_its_category() {
    assert_eq!(StockError::Unauthorized(AuthError::NotConnected).category(), ErrorCategory::Authorization);
    assert_eq!(StockError::Quote(QuoteError::SymbolNotFound).category(), ErrorCategory::Dependency);
    assert_eq!(StockError::InvalidDirection.category(), ErrorCategory::Validation);
    assert_eq!(StockError::InvalidLeverage.category(), ErrorCategory::Validation);
    assert_eq!(StockError::InsufficientFunds.category(), ErrorCategory::BusinessRule);
    assert_eq!(StockError::PositionNotFound.category(), ErrorCategory::BusinessRule);
    assert_eq!(
        StockError::Ledger(LedgerError::NegativeBalance).category(),
        ErrorCategory::InvariantViolation
    );
    assert_eq!(StockError::Ledger(LedgerError::InvalidAmount).category(), ErrorCategory::Validation);
    assert_eq!(LedgerError::NoSuchAccount.category(), ErrorCategory::Authorization);
    assert_eq!(LedgerError::InsufficientFunds.category(), ErrorCategory::BusinessRule);
    assert_eq!(LedgerError::Overflow.category(), ErrorCategory::InvariantViolation);
    assert_eq!(LedgerError::SequenceExhausted.category(), ErrorCategory::InvariantViolation);
    assert_eq!(AuthError::TokenMismatch.category(), ErrorCategory::Authorization);
    assert_eq!(AuthError::NoSuchAccount.category(), ErrorCategory::Authorization);
    assert_eq!(AuthError::NotConnected.category(), ErrorCategory::Authorization);
    assert_eq!(AuthError::UnknownPlatform.category(), ErrorCategory::Authorization);
    assert_eq!(QuoteError::SymbolNotFound.category(), ErrorCategory::Dependency);
    assert_eq!(QuoteError::QuoteUnavailable.category(), ErrorCategory::Dependency);
    assert_eq!(
        StockError::Quote(QuoteError::QuoteUnavailable).category(),
        ErrorCategory::Dependency
    );
    assert_eq!(RegisterError::AlreadyRegistered.category(), ErrorCategory::BusinessRule);
    assert_eq!(HistoryError::NoSuchAccount.category(), ErrorCategory::Authorization);
    assert_eq!(HistoryError::NoTransactions.category(), ErrorCategory::BusinessRule);
}
