//! Buying and selling for the holder of an account: the store's side of the
//! position engine.

use vstd::prelude::*;
use std::collections::HashMap;
use crate::authorizer::{authorized, get_verified_card};
use crate::card::{hash_str_to_u64, str_hash};
use crate::decimal::Decimal;
use crate::error::{AuthError, QuoteError, StockError};
use crate::handler::lemma_accounts_view_replace;
use crate::position::{
    close_position, closed, find_position, has_position, open_position, opened, Settlement,
    SettlementView,
};
use crate::structure::{
    accounts_view, holds_view, ledger_view, positions_view, BuyStock, CardInfo, CardInfoView,
    Identification, SellStock, Stock, StockHold, StockHoldView, StockView, TradeHistory,
    TradeHistoryView,
};

verus! {

/// The open positions of an account; none where the store has no list for it.
pub open spec fn holds_of(positions: Map<u64, Seq<StockHoldView>>, id: u64) -> Seq<StockHoldView> {
    if positions.contains_key(id) {
        positions[id]
    } else {
        Seq::empty()
    }
}

/// The order that a request makes at a price.
pub open spec fn order_of(request: BuyStock, price: (int, nat)) -> StockView {
    StockView {
        buy_type: request.buy_type@,
        symbol: request.symbol@,
        hand: request.hand@,
        leverage: request.leverage@,
        price,
    }
}

/// The store after the request to buy was served with the quote `quote` at
/// time `now`, with what the position cost; or why nothing was bought. The
/// platform must be authorized and the quote must have arrived before the
/// order is looked at.
pub open spec fn bought(
    accounts: Map<u64, CardInfoView>,
    ledger: Map<i64, TradeHistoryView>,
    positions: Map<u64, Seq<StockHoldView>>,
    request: BuyStock,
    quote: Result<(int, nat), QuoteError>,
    now: i64,
) -> Result<
    (
        Map<u64, CardInfoView>,
        Map<i64, TradeHistoryView>,
        Map<u64, Seq<StockHoldView>>,
        (int, nat),
    ),
    StockError,
> {
    match authorized(accounts, request.card_holder@, request.target@, request.token@) {
        Err(e) => Err(StockError::Unauthorized(e)),
        Ok(id) => match quote {
            Err(e) => Err(StockError::Quote(e)),
            Ok(price) => match opened(
                accounts[id],
                ledger,
                holds_of(positions, id),
                order_of(request, price),
                now,
            ) {
                Err(e) => Err(e),
                Ok((account, entries, holds, cost)) => Ok(
                    (accounts.insert(id, account), entries, positions.insert(id, holds), cost),
                ),
            },
        },
    }
}

/// The store after the request to sell was served with the quote `quote` at
/// time `now`, with what closing the position gave; or why nothing was sold.
/// The platform must be authorized, the position must be open, and the quote
/// must have arrived, in this order.
pub open spec fn sold(
    accounts: Map<u64, CardInfoView>,
    ledger: Map<i64, TradeHistoryView>,
    positions: Map<u64, Seq<StockHoldView>>,
    request: SellStock,
    quote: Result<(int, nat), QuoteError>,
    now: i64,
) -> Result<
    (
        Map<u64, CardInfoView>,
        Map<i64, TradeHistoryView>,
        Map<u64, Seq<StockHoldView>>,
        SettlementView,
    ),
    StockError,
> {
    match authorized(accounts, request.card_holder@, request.target@, request.token@) {
        Err(e) => Err(StockError::Unauthorized(e)),
        Ok(id) => if !has_position(holds_of(positions, id), request.symbol@, request.timestamp) {
            Err(StockError::PositionNotFound)
        } else {
            match quote {
                Err(e) => Err(StockError::Quote(e)),
                Ok(price) => match closed(
                    accounts[id],
                    ledger,
                    holds_of(positions, id),
                    request.symbol@,
                    request.timestamp,
                    price,
                    now,
                ) {
                    Err(e) => Err(e),
                    Ok((account, entries, holds, settlement)) => Ok(
                        (
                            accounts.insert(id, account),
                            entries,
                            positions.insert(id, holds),
                            settlement,
                        ),
                    ),
                },
            }
        },
    }
}

/// The view of a quote.
pub open spec fn quote_view(quote: Result<Decimal, QuoteError>) -> Result<(int, nat), QuoteError> {
    match quote {
        Ok(price) => Ok(price@),
        Err(e) => Err(e),
    }
}

/// Taking a list of positions out of the store and putting one back under
/// the same key replaces the list's view.
pub proof fn lemma_positions_view_replace(
    holds: Map<u64, Vec<StockHold>>,
    id: u64,
    list: Vec<StockHold>,
)
    ensures
        positions_view(holds.remove(id).insert(id, list)) == positions_view(holds).insert(
            id,
            holds_view(list@),
        ),
        holds.contains_key(id) ==> holds.remove(id).insert(id, holds[id]) == holds,
        !holds.contains_key(id) ==> holds.remove(id) == holds,
{
    assert(positions_view(holds.remove(id).insert(id, list)) =~= positions_view(holds).insert(
        id,
        holds_view(list@),
    ));
    if holds.contains_key(id) {
        assert(holds.remove(id).insert(id, holds[id]) =~= holds);
    } else {
        assert(holds.remove(id) =~= holds);
    }
}

/// Serves a request to buy. The platform must be authorized for the holder's
/// account with the request's token, and the quote provider must have given
/// a price; then the position is opened at that price. Returns what it cost.
/// On an error the store holds what it held.
pub fn buy_stock(
    stock: BuyStock,
    quote: Result<Decimal, QuoteError>,
    now: i64,
    card_map: &mut HashMap<u64, CardInfo>,
    stock_map: &mut HashMap<u64, Vec<StockHold>>,
    trade_map: &mut HashMap<i64, TradeHistory>,
) -> (r: Result<Decimal, StockError>)
    ensures
        (match bought(
            accounts_view(old(card_map)@),
            ledger_view(old(trade_map)@),
            positions_view(old(stock_map)@),
            stock,
            quote_view(quote),
            now,
        ) {
            Ok((accounts, ledger, positions, cost)) => {
                &&& r matches Ok(paid)
                &&& paid@ == cost
                &&& accounts_view(final(card_map)@) == accounts
                &&& ledger_view(final(trade_map)@) == ledger
                &&& positions_view(final(stock_map)@) == positions
            },
            Err(e) => {
                &&& r matches Err(x)
                &&& x == e
                &&& final(card_map)@ == old(card_map)@
                &&& final(trade_map)@ == old(trade_map)@
                &&& final(stock_map)@ == old(stock_map)@
            },
        }),
{
    let id = match get_verified_card(
        card_map,
        stock.card_holder.as_str(),
        stock.target.as_str(),
        stock.token.as_str(),
    ) {
        Ok(id) => id,
        Err(e) => {
            return Err(StockError::Unauthorized(e));
        },
    };
    let price = match quote {
        Ok(price) => price,
        Err(e) => {
            return Err(StockError::Quote(e));
        },
    };
    let mut card = match card_map.remove(&id) {
        Some(card) => card,
        None => {
            return Err(StockError::Unauthorized(AuthError::NoSuchAccount));
        },
    };
    let (mut holds, listed) = match stock_map.remove(&id) {
        Some(holds) => (holds, true),
        None => (Vec::new(), false),
    };
    proof {
        lemma_positions_view_replace(old(stock_map)@, id, holds);
        assert(holds_view(holds@) =~= holds_of(positions_view(old(stock_map)@), id));
    }
    let order = Stock {
        buy_type: stock.buy_type,
        symbol: stock.symbol,
        hand: stock.hand,
        leverage: stock.leverage,
        price,
    };
    let result = open_position(&mut card, &mut holds, trade_map, order, now);
    proof {
        lemma_accounts_view_replace(old(card_map)@, id, card);
        lemma_positions_view_replace(old(stock_map)@, id, holds);
    }
    card_map.insert(id, card);
    if listed || result.is_ok() {
        stock_map.insert(id, holds);
    }
    result
}

/// Serves a request to sell. The platform must be authorized for the holder's
/// account with the request's token, the position must be open, and the quote
/// provider must have given a price; then the position is closed at that
/// price. On an error the store holds what it held.
pub fn sell_stock(
    stock: SellStock,
    quote: Result<Decimal, QuoteError>,
    now: i64,
    card_map: &mut HashMap<u64, CardInfo>,
    stock_map: &mut HashMap<u64, Vec<StockHold>>,
    trade_map: &mut HashMap<i64, TradeHistory>,
) -> (r: Result<Settlement, StockError>)
    ensures
        (match sold(
            accounts_view(old(card_map)@),
            ledger_view(old(trade_map)@),
            positions_view(old(stock_map)@),
            stock,
            quote_view(quote),
            now,
        ) {
            Ok((accounts, ledger, positions, settlement)) => {
                &&& r matches Ok(given)
                &&& given@ == settlement
                &&& accounts_view(final(card_map)@) == accounts
                &&& ledger_view(final(trade_map)@) == ledger
                &&& positions_view(final(stock_map)@) == positions
            },
            Err(e) => {
                &&& r matches Err(x)
                &&& x == e
                &&& final(card_map)@ == old(card_map)@
                &&& final(trade_map)@ == old(trade_map)@
                &&& final(stock_map)@ == old(stock_map)@
            },
        }),
{
    let id = match get_verified_card(
        card_map,
        stock.card_holder.as_str(),
        stock.target.as_str(),
        stock.token.as_str(),
    ) {
        Ok(id) => id,
        Err(e) => {
            return Err(StockError::Unauthorized(e));
        },
    };
    let open = match stock_map.get(&id) {
        Some(holds) => find_position(holds, &stock.symbol, stock.timestamp).is_some(),
        None => false,
    };
    if !open {
        return Err(StockError::PositionNotFound);
    }
    let price = match quote {
        Ok(price) => price,
        Err(e) => {
            return Err(StockError::Quote(e));
        },
    };
    let mut card = match card_map.remove(&id) {
        Some(card) => card,
        None => {
            return Err(StockError::Unauthorized(AuthError::NoSuchAccount));
        },
    };
    let mut holds = match stock_map.remove(&id) {
        Some(holds) => holds,
        None => {
            card_map.insert(id, card);
            return Err(StockError::PositionNotFound);
        },
    };
    let result = close_position(
        &mut card,
        &mut holds,
        trade_map,
        &stock.symbol,
        stock.timestamp,
        price,
        now,
    );
    proof {
        lemma_accounts_view_replace(old(card_map)@, id, card);
        lemma_positions_view_replace(old(stock_map)@, id, holds);
    }
    card_map.insert(id, card);
    stock_map.insert(id, holds);
    result
}

/// The holder's open positions, or `None` where the store has no list for
/// the holder.
pub fn check_stock_hold<'a>(
    id: &Identification,
    stock_map: &'a HashMap<u64, Vec<StockHold>>,
) -> (r: Option<&'a Vec<StockHold>>)
    ensures
        (match r {
            Some(holds) => stock_map@.contains_key(str_hash(id.card_holder@)) && *holds
                == stock_map@[str_hash(id.card_holder@)],
            None => !stock_map@.contains_key(str_hash(id.card_holder@)),
        }),
{
    let key = hash_str_to_u64(id.card_holder.as_str());
    stock_map.get(&key)
}

} // verus!
