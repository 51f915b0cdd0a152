//! The records that the ledger keeps, and the requests that act on them.

use vstd::prelude::*;
use std::collections::HashMap;
use crate::decimal::Decimal;

verus! {

/// A platform that may act on an account, with the token that was issued to it.
#[derive(Clone, Debug, PartialEq, Eq)]
pub struct TargetInfo {
    pub target: String,
    pub token: String,
}

pub struct TargetInfoView {
    pub target: Seq<char>,
    pub token: Seq<char>,
}

impl View for TargetInfo {
    type V = TargetInfoView;

    open spec fn view(&self) -> TargetInfoView {
        TargetInfoView { target: self.target@, token: self.token@ }
    }
}

/// An issued card: the account of one holder.
#[derive(Clone, Debug, PartialEq, Eq)]
pub struct CardInfo {
    pub card_holder: String,
    pub card_number: u64,
    pub good_thru: u16,
    pub verify_number: u16,
    pub scheme: String,
    pub card_type: String,
    pub balance: Decimal,
    /// The platforms that hold a token for this account; `None` until the
    /// first one connects.
    pub connection: Option<Vec<TargetInfo>>,
    /// Time of each of the account's own transactions, to its sequence number
    /// in the ledger; `None` until the first one.
    pub transaction: Option<HashMap<i64, i64>>,
}

pub struct CardInfoView {
    pub card_holder: Seq<char>,
    pub card_number: u64,
    pub good_thru: u16,
    pub verify_number: u16,
    pub scheme: Seq<char>,
    pub card_type: Seq<char>,
    pub balance: (int, nat),
    pub connection: Option<Seq<TargetInfoView>>,
    pub transaction: Option<Map<i64, i64>>,
}

/// The connections of a list, each by its view.
pub open spec fn connections_view(list: Seq<TargetInfo>) -> Seq<TargetInfoView> {
    Seq::new(list.len(), |i: int| list[i]@)
}

impl View for CardInfo {
    type V = CardInfoView;

    open spec fn view(&self) -> CardInfoView {
        CardInfoView {
            card_holder: self.card_holder@,
            card_number: self.card_number,
            good_thru: self.good_thru,
            verify_number: self.verify_number,
            scheme: self.scheme@,
            card_type: self.card_type@,
            balance: self.balance@,
            connection: match self.connection {
                Some(list) => Some(connections_view(list@)),
                None => None,
            },
            transaction: match self.transaction {
                Some(index) => Some(index@),
                None => None,
            },
        }
    }
}

/// Money that enters an account (`Credit`) or leaves it (`Debit`).
#[derive(Clone, Copy, Debug, PartialEq, Eq)]
pub enum TransactionType {
    Credit { amount: Decimal },
    Debit { amount: Decimal },
}

pub enum TransactionTypeView {
    Credit { amount: (int, nat) },
    Debit { amount: (int, nat) },
}

impl View for TransactionType {
    type V = TransactionTypeView;

    open spec fn view(&self) -> TransactionTypeView {
        match *self {
            TransactionType::Credit { amount } => TransactionTypeView::Credit { amount: amount@ },
            TransactionType::Debit { amount } => TransactionTypeView::Debit { amount: amount@ },
        }
    }
}

/// One entry of the ledger. Its sequence number is the key it is stored under.
#[derive(Clone, Debug, PartialEq, Eq)]
pub struct TradeHistory {
    pub timestamp: i64,
    pub transaction_type: TransactionType,
    pub target_user: String,
}

pub struct TradeHistoryView {
    pub timestamp: i64,
    pub transaction_type: TransactionTypeView,
    pub target_user: Seq<char>,
}

impl View for TradeHistory {
    type V = TradeHistoryView;

    open spec fn view(&self) -> TradeHistoryView {
        TradeHistoryView {
            timestamp: self.timestamp,
            transaction_type: self.transaction_type@,
            target_user: self.target_user@,
        }
    }
}

/// A transaction between a card holder and another user.
#[derive(Clone, Debug, PartialEq, Eq)]
pub struct DiscordTrade {
    pub card_holder: String,
    pub target_user: String,
    pub transaction_type: TransactionType,
}

#[derive(Clone, Debug, PartialEq, Eq)]
pub struct RegisterInfo {
    pub discord_id: String,
    pub scheme: String,
    pub card_type: String,
}

#[derive(Clone, Debug, PartialEq, Eq)]
pub struct Identification {
    pub card_holder: String,
}

#[derive(Clone, Debug, PartialEq, Eq)]
pub struct TargetVerify {
    pub card_holder: String,
    pub target: String,
}

#[derive(Clone, Debug, PartialEq, Eq)]
pub struct Symbol {
    pub symbol: String,
}

/// What was bought: the direction (`"Long"` or `"Short"`), the symbol, the lot
/// size, the leverage in hundredths (100 stands for 1.00) and the entry price.
#[derive(Clone, Debug, PartialEq, Eq)]
pub struct Stock {
    pub buy_type: String,
    pub symbol: String,
    pub hand: Decimal,
    pub leverage: Decimal,
    pub price: Decimal,
}

pub struct StockView {
    pub buy_type: Seq<char>,
    pub symbol: Seq<char>,
    pub hand: (int, nat),
    pub leverage: (int, nat),
    pub price: (int, nat),
}

impl View for Stock {
    type V = StockView;

    open spec fn view(&self) -> StockView {
        StockView {
            buy_type: self.buy_type@,
            symbol: self.symbol@,
            hand: self.hand@,
            leverage: self.leverage@,
            price: self.price@,
        }
    }
}

#[derive(Clone, Debug, PartialEq, Eq)]
pub struct BuyStock {
    pub buy_type: String,
    pub symbol: String,
    pub hand: Decimal,
    pub leverage: Decimal,
    pub token: String,
    pub target: String,
    pub card_holder: String,
}

#[derive(Clone, Debug, PartialEq, Eq)]
pub struct SellStock {
    pub symbol: String,
    pub timestamp: i64,
    pub token: String,
    pub target: String,
    pub card_holder: String,
}

/// An open position: what was bought, and when.
#[derive(Clone, Debug, PartialEq, Eq)]
pub struct StockHold {
    pub timestamp: i64,
    pub stock: Stock,
}

pub struct StockHoldView {
    pub timestamp: i64,
    pub stock: StockView,
}

impl View for StockHold {
    type V = StockHoldView;

    open spec fn view(&self) -> StockHoldView {
        StockHoldView { timestamp: self.timestamp, stock: self.stock@ }
    }
}

/// The positions of a list, each by its view.
pub open spec fn holds_view(list: Seq<StockHold>) -> Seq<StockHoldView> {
    Seq::new(list.len(), |i: int| list[i]@)
}

#[derive(Clone, Debug, PartialEq, Eq)]
pub struct StockHistory {
    pub symbol: String,
    pub period: String,
    pub interval: String,
}

/// The accounts of a store, each by its view.
pub open spec fn accounts_view(cards: Map<u64, CardInfo>) -> Map<u64, CardInfoView> {
    Map::new(|id: u64| cards.contains_key(id), |id: u64| cards[id]@)
}

/// The entries of a ledger, each by its view.
pub open spec fn ledger_view(trades: Map<i64, TradeHistory>) -> Map<i64, TradeHistoryView> {
    Map::new(|seq: i64| trades.contains_key(seq), |seq: i64| trades[seq]@)
}

/// The open positions of a store, each by its view.
pub open spec fn positions_view(holds: Map<u64, Vec<StockHold>>) -> Map<u64, Seq<StockHoldView>> {
    Map::new(|id: u64| holds.contains_key(id), |id: u64| holds_view(holds[id]@))
}

} // verus!
