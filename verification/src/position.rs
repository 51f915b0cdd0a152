//! The position engine: opening a leveraged position against a debit, and
//! closing it against a credit of what it is worth.

use vstd::prelude::*;
use std::collections::HashMap;
use crate::balance::{
    check_balance, compute_balance, funds_cover, post_transaction, posted, transact_spec,
};
use crate::decimal::{
    checked_difference, checked_product, checked_quotient, checked_sum, decimal_difference,
    decimal_product, decimal_quotient, decimal_sum, integer_part, integer_part_i64, Decimal,
};
use crate::error::{LedgerError, StockError};
use crate::structure::{
    holds_view, ledger_view, CardInfo, CardInfoView, Stock, StockHold, StockHoldView, StockView,
    TradeHistory, TradeHistoryView, TransactionType, TransactionTypeView,
};

verus! {

/// Which way a position bets on the price.
#[derive(Clone, Copy, Debug, PartialEq, Eq, Structural)]
pub enum Direction {
    Long,
    Short,
}

/// What closing a position gave.
#[derive(Clone, Copy, Debug, PartialEq, Eq)]
pub struct Settlement {
    pub hand: Decimal,
    pub leverage: Decimal,
    /// What the position gained; negative for a loss.
    pub earning: Decimal,
    /// What was credited to the account: the principal and the earning.
    pub payout: Decimal,
}

pub struct SettlementView {
    pub hand: (int, nat),
    pub leverage: (int, nat),
    pub earning: (int, nat),
    pub payout: (int, nat),
}

impl View for Settlement {
    type V = SettlementView;

    open spec fn view(&self) -> SettlementView {
        SettlementView {
            hand: self.hand@,
            leverage: self.leverage@,
            earning: self.earning@,
            payout: self.payout@,
        }
    }
}

/// The counterparty of every debit and credit that the position engine makes.
pub open spec fn stock_bot() -> Seq<char> {
    "Stock! Bot"@
}

/// The direction that a tag stands for.
pub open spec fn direction_spec(tag: Seq<char>) -> Option<Direction> {
    if tag == "Long"@ {
        Some(Direction::Long)
    } else if tag == "Short"@ {
        Some(Direction::Short)
    } else {
        None
    }
}

/// The multiplier for a leverage given in hundredths: its whole part over
/// 100. A leverage whose whole part is zero, or does not fit in 64 bits, has
/// none.
pub open spec fn leverage_factor(leverage: (int, nat)) -> Option<(int, nat)> {
    let whole = integer_part(leverage.0, leverage.1);
    if whole != 0 && i64::MIN <= whole <= i64::MAX {
        Some((whole, 2nat))
    } else {
        None
    }
}

/// `price * hand / factor`: what a position costs to open, and what is paid
/// back as its principal when it is closed.
pub open spec fn position_cost(price: (int, nat), hand: (int, nat), factor: (int, nat)) -> Option<
    (int, nat),
> {
    match decimal_product(price.0, price.1, hand.0, hand.1) {
        Some(volume) => decimal_quotient(volume.0, volume.1, factor.0, factor.1),
        None => None,
    }
}

/// How far the price moved in the position's favour.
pub open spec fn price_move(direction: Direction, entry: (int, nat), sell: (int, nat)) -> Option<
    (int, nat),
> {
    match direction {
        Direction::Long => decimal_difference(sell.0, sell.1, entry.0, entry.1),
        Direction::Short => decimal_difference(entry.0, entry.1, sell.0, sell.1),
    }
}

/// `move * hand * factor`: what a position gained.
pub open spec fn position_earning(
    direction: Direction,
    entry: (int, nat),
    sell: (int, nat),
    hand: (int, nat),
    factor: (int, nat),
) -> Option<(int, nat)> {
    match price_move(direction, entry, sell) {
        Some(moved) => match decimal_product(moved.0, moved.1, hand.0, hand.1) {
            Some(gain) => decimal_product(gain.0, gain.1, factor.0, factor.1),
            None => None,
        },
        None => None,
    }
}

/// The earning and the payout of a position that is closed at `sell`, or why
/// it has none.
pub open spec fn valued(stock: StockView, sell: (int, nat)) -> Result<
    ((int, nat), (int, nat)),
    StockError,
> {
    match direction_spec(stock.buy_type) {
        None => Err(StockError::InvalidDirection),
        Some(direction) => match leverage_factor(stock.leverage) {
            None => Err(StockError::InvalidLeverage),
            Some(factor) => match (
                position_earning(direction, stock.price, sell, stock.hand, factor),
                position_cost(stock.price, stock.hand, factor),
            ) {
                (Some(earning), Some(principal)) => match decimal_sum(
                    principal.0,
                    principal.1,
                    earning.0,
                    earning.1,
                ) {
                    Some(payout) => Ok((earning, payout)),
                    None => Err(StockError::Ledger(LedgerError::Overflow)),
                },
                _ => Err(StockError::Ledger(LedgerError::Overflow)),
            },
        },
    }
}

/// The position was opened at `timestamp` on `symbol`.
pub open spec fn is_position(hold: StockHoldView, symbol: Seq<char>, timestamp: i64) -> bool {
    hold.timestamp == timestamp && hold.stock.symbol == symbol
}

/// Some position of the list was opened at `timestamp` on `symbol`.
pub open spec fn has_position(list: Seq<StockHoldView>, symbol: Seq<char>, timestamp: i64) -> bool {
    exists|i: int| 0 <= i < list.len() && is_position(#[trigger] list[i], symbol, timestamp)
}

/// The position at `i` is the first of the list that was opened at
/// `timestamp` on `symbol`.
pub open spec fn is_first_position(
    list: Seq<StockHoldView>,
    symbol: Seq<char>,
    timestamp: i64,
    i: int,
) -> bool {
    &&& 0 <= i < list.len()
    &&& is_position(list[i], symbol, timestamp)
    &&& forall|j: int| 0 <= j < i ==> !is_position(#[trigger] list[j], symbol, timestamp)
}

/// The place of the first position that was opened at `timestamp` on `symbol`.
pub open spec fn position_index(list: Seq<StockHoldView>, symbol: Seq<char>, timestamp: i64) -> int
    recommends
        has_position(list, symbol, timestamp),
{
    choose|i: int| is_first_position(list, symbol, timestamp, i)
}

/// The account, the ledger and the account's open positions after `order` was
/// opened at time `now`, with what it cost; or why it is not opened.
pub open spec fn opened(
    account: CardInfoView,
    ledger: Map<i64, TradeHistoryView>,
    holds: Seq<StockHoldView>,
    order: StockView,
    now: i64,
) -> Result<
    (CardInfoView, Map<i64, TradeHistoryView>, Seq<StockHoldView>, (int, nat)),
    StockError,
> {
    if direction_spec(order.buy_type) is None {
        Err(StockError::InvalidDirection)
    } else {
        match leverage_factor(order.leverage) {
            None => Err(StockError::InvalidLeverage),
            Some(factor) => match position_cost(order.price, order.hand, factor) {
                None => Err(StockError::Ledger(LedgerError::Overflow)),
                Some(cost) => if !funds_cover(account.balance, cost) {
                    Err(StockError::InsufficientFunds)
                } else {
                    match transact_spec(
                        account,
                        ledger,
                        TransactionTypeView::Debit { amount: cost },
                        stock_bot(),
                        now,
                    ) {
                        Err(e) => Err(StockError::Ledger(e)),
                        Ok((after, entries)) => Ok(
                            (
                                after,
                                entries,
                                holds.push(StockHoldView { timestamp: now, stock: order }),
                                cost,
                            ),
                        ),
                    }
                },
            },
        }
    }
}

/// The account, the ledger and the account's open positions after the
/// position that was opened at `timestamp` on `symbol` was closed at the
/// price `sell` at time `now`, with what closing it gave; or why it is not
/// closed.
pub open spec fn closed(
    account: CardInfoView,
    ledger: Map<i64, TradeHistoryView>,
    holds: Seq<StockHoldView>,
    symbol: Seq<char>,
    timestamp: i64,
    sell: (int, nat),
    now: i64,
) -> Result<
    (CardInfoView, Map<i64, TradeHistoryView>, Seq<StockHoldView>, SettlementView),
    StockError,
> {
    if !has_position(holds, symbol, timestamp) {
        Err(StockError::PositionNotFound)
    } else {
        let i = position_index(holds, symbol, timestamp);
        match valued(holds[i].stock, sell) {
            Err(e) => Err(e),
            Ok((earning, payout)) => match transact_spec(
                account,
                ledger,
                TransactionTypeView::Credit { amount: payout },
                stock_bot(),
                now,
            ) {
                Err(e) => Err(StockError::Ledger(e)),
                Ok((after, entries)) => Ok(
                    (
                        after,
                        entries,
                        holds.remove(i),
                        SettlementView {
                            hand: holds[i].stock.hand,
                            leverage: holds[i].stock.leverage,
                            earning,
                            payout,
                        },
                    ),
                ),
            },
        }
    }
}

/// The account, the ledger and the account's open positions after `order`
/// was settled at time `now`: `cost` is debited, which leaves `new_balance`,
/// and the position joins the open ones. Nothing is settled where the debit
/// is not posted.
pub open spec fn settled_open(
    account: CardInfoView,
    ledger: Map<i64, TradeHistoryView>,
    holds: Seq<StockHoldView>,
    order: StockView,
    cost: (int, nat),
    new_balance: (int, nat),
    now: i64,
) -> Result<(CardInfoView, Map<i64, TradeHistoryView>, Seq<StockHoldView>), LedgerError> {
    match posted(
        account,
        ledger,
        TransactionTypeView::Debit { amount: cost },
        stock_bot(),
        now,
        new_balance,
    ) {
        Ok((after, entries)) => Ok(
            (after, entries, holds.push(StockHoldView { timestamp: now, stock: order })),
        ),
        Err(e) => Err(e),
    }
}

/// The account, the ledger and the account's open positions after the
/// position that was opened at `timestamp` on `symbol` was settled at time
/// `now`: `payout` is credited, which leaves `new_balance`, and the position
/// leaves the open ones. Nothing is settled where there is no such position,
/// or where the credit is not posted.
pub open spec fn settled_close(
    account: CardInfoView,
    ledger: Map<i64, TradeHistoryView>,
    holds: Seq<StockHoldView>,
    symbol: Seq<char>,
    timestamp: i64,
    payout: (int, nat),
    new_balance: (int, nat),
    now: i64,
) -> Result<(CardInfoView, Map<i64, TradeHistoryView>, Seq<StockHoldView>), StockError> {
    if !has_position(holds, symbol, timestamp) {
        Err(StockError::PositionNotFound)
    } else {
        match posted(
            account,
            ledger,
            TransactionTypeView::Credit { amount: payout },
            stock_bot(),
            now,
            new_balance,
        ) {
            Ok((after, entries)) => Ok(
                (after, entries, holds.remove(position_index(holds, symbol, timestamp))),
            ),
            Err(e) => Err(StockError::Ledger(e)),
        }
    }
}

/// A list has at most one first position for a symbol and a time.
pub proof fn lemma_first_position_unique(
    list: Seq<StockHoldView>,
    symbol: Seq<char>,
    timestamp: i64,
    a: int,
    b: int,
)
    requires
        is_first_position(list, symbol, timestamp, a),
        is_first_position(list, symbol, timestamp, b),
    ensures
        a == b,
{
    if a < b {
        assert(!is_position(list[a], symbol, timestamp));
    } else if b < a {
        assert(!is_position(list[b], symbol, timestamp));
    }
}

/// The place that is looked for is the place of the first such position.
pub proof fn lemma_first_position_is_index(
    list: Seq<StockHoldView>,
    symbol: Seq<char>,
    timestamp: i64,
    i: int,
)
    requires
        is_first_position(list, symbol, timestamp, i),
    ensures
        has_position(list, symbol, timestamp),
        position_index(list, symbol, timestamp) == i,
{
    lemma_first_position_unique(
        list,
        symbol,
        timestamp,
        position_index(list, symbol, timestamp),
        i,
    );
}

/// Reads a direction tag: `"Long"` or `"Short"`.
pub fn direction_of(tag: &String) -> (r: Option<Direction>)
    ensures
        r == direction_spec(tag@),
{
    let long = "Long".to_owned();
    let short = "Short".to_owned();
    if *tag == long {
        Some(Direction::Long)
    } else if *tag == short {
        Some(Direction::Short)
    } else {
        None
    }
}

/// The multiplier for a leverage given in hundredths.
pub fn scaled_leverage(leverage: Decimal) -> (r: Option<Decimal>)
    ensures
        (match leverage_factor(leverage@) {
            Some(factor) => r matches Some(d) && d@ == factor,
            None => r is None,
        }),
{
    match integer_part_i64(leverage) {
        Some(whole) => {
            if whole == 0 {
                None
            } else {
                Decimal::new(whole, 2)
            }
        },
        None => None,
    }
}

/// `price * hand / factor`, or `None` where the arithmetic fails.
pub fn compute_cost(price: Decimal, hand: Decimal, factor: Decimal) -> (r: Option<Decimal>)
    ensures
        (match position_cost(price@, hand@, factor@) {
            Some(cost) => r matches Some(d) && d@ == cost,
            None => r is None,
        }),
{
    match checked_product(price, hand) {
        Some(volume) => checked_quotient(volume, factor),
        None => None,
    }
}

/// `move * hand * factor`, or `None` where the arithmetic fails.
pub fn compute_earning(
    direction: Direction,
    entry: Decimal,
    sell: Decimal,
    hand: Decimal,
    factor: Decimal,
) -> (r: Option<Decimal>)
    ensures
        (match position_earning(direction, entry@, sell@, hand@, factor@) {
            Some(earning) => r matches Some(d) && d@ == earning,
            None => r is None,
        }),
{
    let moved = match direction {
        Direction::Long => checked_difference(sell, entry),
        Direction::Short => checked_difference(entry, sell),
    };
    match moved {
        Some(moved) => match checked_product(moved, hand) {
            Some(gain) => checked_product(gain, factor),
            None => None,
        },
        None => None,
    }
}

/// The earning and the payout of a position that is closed at the price
/// `sell`.
pub fn value_position(stock: &Stock, sell: Decimal) -> (r: Result<(Decimal, Decimal), StockError>)
    ensures
        (match valued(stock@, sell@) {
            Ok((earning, payout)) => r matches Ok(pair) && pair.0@ == earning && pair.1@ == payout,
            Err(e) => r matches Err(x) && x == e,
        }),
{
    let direction = match direction_of(&stock.buy_type) {
        Some(direction) => direction,
        None => {
            return Err(StockError::InvalidDirection);
        },
    };
    let factor = match scaled_leverage(stock.leverage) {
        Some(factor) => factor,
        None => {
            return Err(StockError::InvalidLeverage);
        },
    };
    let earning = compute_earning(direction, stock.price, sell, stock.hand, factor);
    let principal = compute_cost(stock.price, stock.hand, factor);
    match (earning, principal) {
        (Some(earning), Some(principal)) => match checked_sum(principal, earning) {
            Some(payout) => Ok((earning, payout)),
            None => Err(StockError::Ledger(LedgerError::Overflow)),
        },
        _ => Err(StockError::Ledger(LedgerError::Overflow)),
    }
}

/// The place of the first position that was opened at `timestamp` on `symbol`.
pub fn find_position(holds: &Vec<StockHold>, symbol: &String, timestamp: i64) -> (r: Option<usize>)
    ensures
        (match r {
            Some(i) => is_first_position(holds_view(holds@), symbol@, timestamp, i as int) && i
                == position_index(holds_view(holds@), symbol@, timestamp),
            None => !has_position(holds_view(holds@), symbol@, timestamp),
        }),
{
    let mut i: usize = 0;
    while i < holds.len()
        invariant
            i <= holds.len(),
            forall|j: int|
                0 <= j < i ==> !is_position(#[trigger] holds_view(holds@)[j], symbol@, timestamp),
        decreases holds.len() - i,
    {
        if holds[i].timestamp == timestamp && holds[i].stock.symbol == *symbol {
            proof {
                lemma_first_position_is_index(holds_view(holds@), symbol@, timestamp, i as int);
            }
            return Some(i);
        }
        i = i + 1;
    }
    None
}

/// Settles an order whose cost and resulting balance have been computed:
/// posts the debit of `cost`, which leaves `new_balance`, and adds the
/// position to the account's open positions. On an error nothing changes.
pub fn settle_open(
    card: &mut CardInfo,
    holds: &mut Vec<StockHold>,
    trade_map: &mut HashMap<i64, TradeHistory>,
    order: Stock,
    cost: Decimal,
    new_balance: Decimal,
    now: i64,
) -> (r: Result<(), LedgerError>)
    ensures
        (match settled_open(
            old(card)@,
            ledger_view(old(trade_map)@),
            holds_view(old(holds)@),
            order@,
            cost@,
            new_balance@,
            now,
        ) {
            Ok((account, ledger, positions)) => {
                &&& r is Ok
                &&& final(card)@ == account
                &&& ledger_view(final(trade_map)@) == ledger
                &&& holds_view(final(holds)@) == positions
            },
            Err(e) => {
                &&& r matches Err(x)
                &&& x == e
                &&& *final(card) == *old(card)
                &&& *final(trade_map) == *old(trade_map)
                &&& *final(holds) == *old(holds)
            },
        }),
{
    let debit = TransactionType::Debit { amount: cost };
    match post_transaction(card, trade_map, debit, "Stock! Bot".to_owned(), now, new_balance) {
        Ok(_) => {},
        Err(e) => {
            return Err(e);
        },
    }
    let ghost before = holds_view(holds@);
    holds.push(StockHold { timestamp: now, stock: order });
    assert(holds_view(holds@) =~= before.push(StockHoldView { timestamp: now, stock: order@ }));
    Ok(())
}

/// Settles the close of the position that was opened at `timestamp` on
/// `symbol`, whose payout and resulting balance have been computed: posts the
/// credit of `payout`, which leaves `new_balance`, and takes the position out
/// of the account's open positions. Returns the position. On an error nothing
/// changes.
pub fn settle_close(
    card: &mut CardInfo,
    holds: &mut Vec<StockHold>,
    trade_map: &mut HashMap<i64, TradeHistory>,
    symbol: &String,
    timestamp: i64,
    payout: Decimal,
    new_balance: Decimal,
    now: i64,
) -> (r: Result<StockHold, StockError>)
    ensures
        (match settled_close(
            old(card)@,
            ledger_view(old(trade_map)@),
            holds_view(old(holds)@),
            symbol@,
            timestamp,
            payout@,
            new_balance@,
            now,
        ) {
            Ok((account, ledger, positions)) => {
                &&& r matches Ok(hold)
                &&& hold@ == holds_view(old(holds)@)[position_index(
                    holds_view(old(holds)@),
                    symbol@,
                    timestamp,
                )]
                &&& final(card)@ == account
                &&& ledger_view(final(trade_map)@) == ledger
                &&& holds_view(final(holds)@) == positions
            },
            Err(e) => {
                &&& r matches Err(x)
                &&& x == e
                &&& *final(card) == *old(card)
                &&& *final(trade_map) == *old(trade_map)
                &&& *final(holds) == *old(holds)
            },
        }),
{
    let i = match find_position(holds, symbol, timestamp) {
        Some(i) => i,
        None => {
            return Err(StockError::PositionNotFound);
        },
    };
    let credit = TransactionType::Credit { amount: payout };
    match post_transaction(card, trade_map, credit, "Stock! Bot".to_owned(), now, new_balance) {
        Ok(_) => {},
        Err(e) => {
            return Err(StockError::Ledger(e));
        },
    }
    let ghost before = holds_view(holds@);
    let hold = holds.remove(i);
    assert(holds_view(holds@) =~= before.remove(i as int));
    assert(hold@ == before[i as int]);
    Ok(hold)
}

/// Opens a position for the account: debits what it costs at the order's
/// price, records the debit in the ledger and adds the position to the
/// account's open positions. Returns the cost. On an error nothing changes.
pub fn open_position(
    card: &mut CardInfo,
    holds: &mut Vec<StockHold>,
    trade_map: &mut HashMap<i64, TradeHistory>,
    order: Stock,
    now: i64,
) -> (r: Result<Decimal, StockError>)
    ensures
        (match opened(
            old(card)@,
            ledger_view(old(trade_map)@),
            holds_view(old(holds)@),
            order@,
            now,
        ) {
            Ok((account, ledger, positions, cost)) => {
                &&& r matches Ok(paid)
                &&& paid@ == cost
                &&& final(card)@ == account
                &&& ledger_view(final(trade_map)@) == ledger
                &&& holds_view(final(holds)@) == positions
            },
            Err(e) => {
                &&& r matches Err(x)
                &&& x == e
                &&& *final(card) == *old(card)
                &&& *final(trade_map) == *old(trade_map)
                &&& *final(holds) == *old(holds)
            },
        }),
{
    if direction_of(&order.buy_type).is_none() {
        return Err(StockError::InvalidDirection);
    }
    let factor = match scaled_leverage(order.leverage) {
        Some(factor) => factor,
        None => {
            return Err(StockError::InvalidLeverage);
        },
    };
    let cost = match compute_cost(order.price, order.hand, factor) {
        Some(cost) => cost,
        None => {
            return Err(StockError::Ledger(LedgerError::Overflow));
        },
    };
    if !check_balance(&card.balance, cost) {
        return Err(StockError::InsufficientFunds);
    }
    let debit = TransactionType::Debit { amount: cost };
    let new_balance = match compute_balance(card.balance, debit) {
        Ok(new_balance) => new_balance,
        Err(e) => {
            return Err(StockError::Ledger(e));
        },
    };
    match settle_open(card, holds, trade_map, order, cost, new_balance, now) {
        Ok(_) => Ok(cost),
        Err(e) => Err(StockError::Ledger(e)),
    }
}

/// Closes the account's position that was opened at `timestamp` on `symbol`,
/// at the price `sell`: credits the principal and the earning, records the
/// credit in the ledger and takes the position out of the account's open
/// positions. On an error nothing changes.
pub fn close_position(
    card: &mut CardInfo,
    holds: &mut Vec<StockHold>,
    trade_map: &mut HashMap<i64, TradeHistory>,
    symbol: &String,
    timestamp: i64,
    sell: Decimal,
    now: i64,
) -> (r: Result<Settlement, StockError>)
    ensures
        (match closed(
            old(card)@,
            ledger_view(old(trade_map)@),
            holds_view(old(holds)@),
            symbol@,
            timestamp,
            sell@,
            now,
        ) {
            Ok((account, ledger, positions, settlement)) => {
                &&& r matches Ok(given)
                &&& given@ == settlement
                &&& final(card)@ == account
                &&& ledger_view(final(trade_map)@) == ledger
                &&& holds_view(final(holds)@) == positions
            },
            Err(e) => {
                &&& r matches Err(x)
                &&& x == e
                &&& *final(card) == *old(card)
                &&& *final(trade_map) == *old(trade_map)
                &&& *final(holds) == *old(holds)
            },
        }),
{
    let i = match find_position(holds, symbol, timestamp) {
        Some(i) => i,
        None => {
            return Err(StockError::PositionNotFound);
        },
    };
    let (earning, payout) = match value_position(&holds[i].stock, sell) {
        Ok(pair) => pair,
        Err(e) => {
            return Err(e);
        },
    };
    let credit = TransactionType::Credit { amount: payout };
    let new_balance = match compute_balance(card.balance, credit) {
        Ok(new_balance) => new_balance,
        Err(e) => {
            return Err(StockError::Ledger(e));
        },
    };
    match settle_close(card, holds, trade_map, symbol, timestamp, payout, new_balance, now) {
        Ok(hold) => Ok(
            Settlement { hand: hold.stock.hand, leverage: hold.stock.leverage, earning, payout },
        ),
        Err(e) => Err(e),
    }
}

} // verus!
