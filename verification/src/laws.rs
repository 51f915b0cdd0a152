//! What holds of the engine whatever the store and the request.

use vstd::prelude::*;
use crate::authorizer::{
    account_id, authorized, connect_spec, connected, connections_of, fresh_token, has_connection,
    has_platform, is_first_for, lemma_stored_token_is_first, stored_token, verified,
};
use crate::card::str_hash;
use crate::balance::{amount_of, funds_cover, raw_balance, recorded_account, transact_spec};
use crate::decimal::{decimal_le, integer_part};
use crate::error::{AuthError, LedgerError, QuoteError, RegisterError, StockError};
use crate::handler::{handled_transaction, history_spec, registered, HISTORY_WINDOW};
use crate::ledger::{is_last_sequence, next_sequence_spec};
use crate::position::{
    closed, direction_spec, has_position, is_first_position, is_position, leverage_factor, opened,
    position_cost, position_index, stock_bot, valued, SettlementView,
};
use crate::stock::{bought, holds_of, order_of, sold};
use crate::structure::{
    BuyStock, CardInfoView, DiscordTrade, RegisterInfo, SellStock, StockHoldView, StockView,
    TargetInfoView, TargetVerify, TradeHistoryView, TransactionTypeView,
};

verus! {

/// A set of sequence numbers with a member at or above `from` has a largest
/// member.
proof fn lemma_largest_from(keys: Set<i64>, from: int)
    requires
        i64::MIN <= from <= i64::MAX,
        exists|k: i64| keys.contains(k) && k >= from,
    ensures
        exists|k: i64| is_last_sequence(keys, k),
    decreases i64::MAX - from,
{
    if exists|k: i64| keys.contains(k) && k > from {
        let k = choose|k: i64| keys.contains(k) && k > from;
        assert(keys.contains(k) && k >= from + 1);
        lemma_largest_from(keys, from + 1);
    } else {
        let k = choose|k: i64| keys.contains(k) && k >= from;
        assert(is_last_sequence(keys, k));
    }
}

/// The next sequence number of a ledger is new to it and above every number
/// in it; it is 1 exactly where the ledger is empty or ends at 0.
pub proof fn law_next_sequence_is_fresh(keys: Set<i64>)
    ensures
        forall|k: i64| keys.contains(k) ==> k < next_sequence_spec(keys),
        keys =~= Set::<i64>::empty() ==> next_sequence_spec(keys) == 1,
        !(keys =~= Set::<i64>::empty()) ==> keys.contains(
            (next_sequence_spec(keys) - 1) as i64,
        ),
{
    if exists|k: i64| is_last_sequence(keys, k) {
    } else {
        if exists|k: i64| keys.contains(k) {
            let k = choose|k: i64| keys.contains(k);
            assert(keys.contains(k) && k >= i64::MIN);
            lemma_largest_from(keys, i64::MIN as int);
        }
        assert(keys =~= Set::<i64>::empty());
    }
}

/// Every transaction that succeeds leaves a balance that is not negative.
pub proof fn law_balance_never_negative(
    account: CardInfoView,
    ledger: Map<i64, TradeHistoryView>,
    kind: TransactionTypeView,
    target_user: Seq<char>,
    now: i64,
)
    ensures
        transact_spec(account, ledger, kind, target_user, now) matches Ok(after) ==> after.0.balance.0
            >= 0,
{
}

/// Every transaction that succeeds adds exactly one entry to the ledger,
/// under the number after the largest that the ledger held, changes no
/// other entry, and makes the account's index point from the time of the
/// transaction to that number.
pub proof fn law_one_entry_per_transaction(
    account: CardInfoView,
    ledger: Map<i64, TradeHistoryView>,
    kind: TransactionTypeView,
    target_user: Seq<char>,
    now: i64,
)
    ensures
        transact_spec(account, ledger, kind, target_user, now) matches Ok(after) ==> ({
            let seq = next_sequence_spec(ledger.dom()) as i64;
            &&& seq == next_sequence_spec(ledger.dom())
            &&& !ledger.contains_key(seq)
            &&& forall|k: i64| ledger.contains_key(k) ==> k < seq
            &&& after.1.dom() == ledger.dom().insert(seq)
            &&& after.1[seq] == TradeHistoryView {
                timestamp: now,
                transaction_type: kind,
                target_user,
            }
            &&& forall|k: i64| ledger.contains_key(k) ==> after.1[k] == ledger[k]
            &&& after.0.transaction matches Some(index)
            &&& index.contains_key(now)
            &&& index[now] == seq
        }),
{
    law_next_sequence_is_fresh(ledger.dom());
}

/// A transaction that fails was refused for its amount, for want of funds,
/// or because a number left its range; and a debit above the balance always
/// fails.
pub proof fn law_debit_above_balance_is_refused(
    account: CardInfoView,
    ledger: Map<i64, TradeHistoryView>,
    amount: (int, nat),
    target_user: Seq<char>,
    now: i64,
)
    requires
        !decimal_le(amount, account.balance),
    ensures
        transact_spec(
            account,
            ledger,
            TransactionTypeView::Debit { amount },
            target_user,
            now,
        ) is Err,
        amount.0 > 0 ==> transact_spec(
            account,
            ledger,
            TransactionTypeView::Debit { amount },
            target_user,
            now,
        ) == Err::<(CardInfoView, Map<i64, TradeHistoryView>), LedgerError>(
            LedgerError::InsufficientFunds,
        ),
{
}

/// Connecting a platform twice gives the same token both times, and the
/// second time changes nothing: the account has one connection for the
/// platform, whatever fresh token was at hand.
pub proof fn law_connect_is_idempotent(
    account: CardInfoView,
    platform: Seq<char>,
    first_fresh: Seq<char>,
    second_fresh: Seq<char>,
)
    ensures
        ({
            let first = connected(account, platform, first_fresh);
            let second = connected(first.0, platform, second_fresh);
            &&& second.0 == first.0
            &&& second.1 == first.1
            &&& second.2
            &&& connections_of(second.0).len() == connections_of(first.0).len()
        }),
{
    let list = connections_of(account);
    let first = connected(account, platform, first_fresh);
    let after = connections_of(first.0);
    if has_platform(list, platform) {
        assert(after == list);
    } else {
        let added = TargetInfoView { target: platform, token: first_fresh };
        assert(after == list.push(added));
        let last = list.len() as int;
        assert(after[last].target == platform);
        assert forall|j: int| 0 <= j < last implies (#[trigger] after[j]).target != platform by {
            assert(after[j] == list[j]);
        }
        assert(is_first_for(after, platform, last));
        lemma_stored_token_is_first(after, platform, last);
    }
}

/// The token that a connected platform keeps is the token of one of its
/// connections.
pub proof fn law_stored_token_is_stored(list: Seq<TargetInfoView>, platform: Seq<char>)
    requires
        has_platform(list, platform),
    ensures
        has_connection(list, platform, stored_token(list, platform)),
{
    let i = choose|i: int| 0 <= i < list.len() && (#[trigger] list[i]).target == platform;
    lemma_first_before(list, platform, i);
    let first = choose|i: int| is_first_for(list, platform, i);
    assert(list[first].target == platform && list[first].token == stored_token(list, platform));
}

/// The token that connecting gives is accepted for the platform afterwards.
pub proof fn law_connected_token_verifies(
    account: CardInfoView,
    platform: Seq<char>,
    fresh: Seq<char>,
)
    ensures
        ({
            let after = connected(account, platform, fresh);
            verified(after.0, platform, after.1) == Ok::<(), AuthError>(())
        }),
{
    let list = connections_of(account);
    let after = connected(account, platform, fresh);
    if has_platform(list, platform) {
        law_stored_token_is_stored(list, platform);
    } else {
        let added = list.push(TargetInfoView { target: platform, token: fresh });
        assert(added[list.len() as int].target == platform && added[list.len() as int].token
            == fresh);
    }
}

/// A list with a connection for the platform at `upto` has a first one.
proof fn lemma_first_before(list: Seq<TargetInfoView>, platform: Seq<char>, upto: int)
    requires
        0 <= upto < list.len(),
        list[upto].target == platform,
    ensures
        exists|i: int| is_first_for(list, platform, i),
    decreases upto,
{
    if exists|j: int| 0 <= j < upto && (#[trigger] list[j]).target == platform {
        let j = choose|j: int| 0 <= j < upto && (#[trigger] list[j]).target == platform;
        lemma_first_before(list, platform, j);
    } else {
        assert(is_first_for(list, platform, upto));
    }
}

/// Connecting a platform twice through the store gives the same token both
/// times, and the second time changes nothing, whenever it is asked again
/// and with whatever secret.
pub proof fn law_connect_twice_same_token(
    accounts: Map<u64, CardInfoView>,
    holder: Seq<char>,
    platform: Seq<char>,
    secret: Seq<char>,
    now: u64,
    later_secret: Seq<char>,
    later: u64,
)
    ensures
        connect_spec(accounts, holder, platform, secret, now) matches Ok(first) ==> ({
            &&& connect_spec(first.0, holder, platform, later_secret, later) matches Ok(second)
            &&& second.0 == first.0
            &&& second.1 == first.1
            &&& second.2
        }),
{
    if let Some(id) = account_id(accounts, holder) {
        let account = accounts[id];
        let first = connected(account, platform, fresh_token(account, secret, now));
        let stored = accounts.insert(id, first.0);
        assert(account_id(stored, holder) == Some(id));
        law_connect_is_idempotent(
            account,
            platform,
            fresh_token(account, secret, now),
            fresh_token(first.0, later_secret, later),
        );
        assert(stored.insert(id, first.0) =~= stored);
    }
}

/// An order whose leverage has a whole part of zero is never opened.
pub proof fn law_zero_leverage_is_rejected(
    account: CardInfoView,
    ledger: Map<i64, TradeHistoryView>,
    holds: Seq<StockHoldView>,
    order: StockView,
    now: i64,
)
    requires
        integer_part(order.leverage.0, order.leverage.1) == 0,
    ensures
        opened(account, ledger, holds, order, now) is Err,
        opened(account, ledger, holds, order, now) matches Err(e) ==> e
            == StockError::InvalidDirection || e == StockError::InvalidLeverage,
{
}

/// A request to buy with a leverage whose whole part is zero is never
/// served.
pub proof fn law_zero_leverage_is_not_bought(
    accounts: Map<u64, CardInfoView>,
    ledger: Map<i64, TradeHistoryView>,
    positions: Map<u64, Seq<StockHoldView>>,
    request: BuyStock,
    quote: Result<(int, nat), QuoteError>,
    now: i64,
)
    requires
        integer_part(request.leverage@.0, request.leverage@.1) == 0,
    ensures
        bought(accounts, ledger, positions, request, quote, now) is Err,
{
}

/// A position that opens costs what is debited, and what is debited is
/// recorded: the account pays a positive cost that its balance covered, and
/// the position joins the end of the account's open positions.
pub proof fn law_open_debits_cost(
    account: CardInfoView,
    ledger: Map<i64, TradeHistoryView>,
    holds: Seq<StockHoldView>,
    order: StockView,
    now: i64,
)
    ensures
        opened(account, ledger, holds, order, now) matches Ok(after) ==> ({
            &&& after.3.0 > 0
            &&& decimal_le(after.3, account.balance)
            &&& after.0.balance.0 >= 0
            &&& after.2 == holds.push(StockHoldView { timestamp: now, stock: order })
            &&& transact_spec(
                account,
                ledger,
                TransactionTypeView::Debit { amount: after.3 },
                stock_bot(),
                now,
            ) == Ok::<(CardInfoView, Map<i64, TradeHistoryView>), LedgerError>((after.0, after.1))
        }),
{
}

/// A list with a position for the symbol and the time has a first one.
proof fn lemma_first_position_before(
    list: Seq<StockHoldView>,
    symbol: Seq<char>,
    timestamp: i64,
    upto: int,
)
    requires
        0 <= upto < list.len(),
        is_position(list[upto], symbol, timestamp),
    ensures
        exists|i: int| is_first_position(list, symbol, timestamp, i),
    decreases upto,
{
    if exists|j: int| 0 <= j < upto && is_position(#[trigger] list[j], symbol, timestamp) {
        let j = choose|j: int| 0 <= j < upto && is_position(#[trigger] list[j], symbol, timestamp);
        lemma_first_position_before(list, symbol, timestamp, j);
    } else {
        assert(is_first_position(list, symbol, timestamp, upto));
    }
}

/// The place that closing takes a position from is the place of the first
/// position for the symbol and the time.
pub proof fn law_position_index_is_first(list: Seq<StockHoldView>, symbol: Seq<char>, timestamp: i64)
    requires
        has_position(list, symbol, timestamp),
    ensures
        is_first_position(list, symbol, timestamp, position_index(list, symbol, timestamp)),
{
    let i = choose|i: int| 0 <= i < list.len() && is_position(#[trigger] list[i], symbol, timestamp);
    lemma_first_position_before(list, symbol, timestamp, i);
}

/// A position is closed at most once: after it was closed, a second attempt
/// finds no position, whatever the price, provided the account held one
/// position for the symbol and the time.
pub proof fn law_close_at_most_once(
    account: CardInfoView,
    ledger: Map<i64, TradeHistoryView>,
    holds: Seq<StockHoldView>,
    symbol: Seq<char>,
    timestamp: i64,
    sell: (int, nat),
    now: i64,
    later_sell: (int, nat),
    later: i64,
)
    requires
        forall|i: int, j: int|
            0 <= i < holds.len() && 0 <= j < holds.len() && is_position(
                #[trigger] holds[i],
                symbol,
                timestamp,
            ) && is_position(#[trigger] holds[j], symbol, timestamp) ==> i == j,
    ensures
        closed(account, ledger, holds, symbol, timestamp, sell, now) matches Ok(after) ==> ({
            &&& after.2.len() == holds.len() - 1
            &&& !has_position(after.2, symbol, timestamp)
            &&& closed(after.0, after.1, after.2, symbol, timestamp, later_sell, later)
                == Err::<
                (CardInfoView, Map<i64, TradeHistoryView>, Seq<StockHoldView>, SettlementView),
                StockError,
            >(StockError::PositionNotFound)
        }),
{
    if closed(account, ledger, holds, symbol, timestamp, sell, now) is Ok {
        law_position_index_is_first(holds, symbol, timestamp);
        let i = position_index(holds, symbol, timestamp);
        let rest = holds.remove(i);
        assert forall|j: int| 0 <= j < rest.len() implies !is_position(
            #[trigger] rest[j],
            symbol,
            timestamp,
        ) by {
            if j < i {
                assert(rest[j] == holds[j]);
            } else {
                assert(rest[j] == holds[j + 1]);
            }
        }
    }
}

/// A position that closes is credited what it is worth: the payout is
/// positive, the balance afterwards is not negative, and the position that
/// leaves the account's open positions is the first for the symbol and the
/// time.
pub proof fn law_close_credits_payout(
    account: CardInfoView,
    ledger: Map<i64, TradeHistoryView>,
    holds: Seq<StockHoldView>,
    symbol: Seq<char>,
    timestamp: i64,
    sell: (int, nat),
    now: i64,
)
    ensures
        closed(account, ledger, holds, symbol, timestamp, sell, now) matches Ok(after) ==> ({
            let i = position_index(holds, symbol, timestamp);
            &&& is_first_position(holds, symbol, timestamp, i)
            &&& after.2 == holds.remove(i)
            &&& after.3.payout.0 > 0
            &&& after.0.balance.0 >= 0
            &&& transact_spec(
                account,
                ledger,
                TransactionTypeView::Credit { amount: after.3.payout },
                stock_bot(),
                now,
            ) == Ok::<(CardInfoView, Map<i64, TradeHistoryView>), LedgerError>((after.0, after.1))
        }),
{
    if has_position(holds, symbol, timestamp) {
        law_position_index_is_first(holds, symbol, timestamp);
    }
}

/// A history query for the seven days that end at `day_end` leaves out an
/// entry that the index reaches only from times at or before the start of
/// the window, and holds every entry of the ledger that the index reaches
/// from a time after it.
pub proof fn law_history_window(
    index: Map<i64, i64>,
    ledger: Map<i64, TradeHistoryView>,
    day_end: i64,
    seq: i64,
)
    ensures
        (forall|t: i64| #[trigger]
            index.contains_key(t) && index[t] == seq ==> t <= day_end - HISTORY_WINDOW)
            ==> !history_spec(index, ledger, day_end).contains_key(seq),
        (exists|t: i64| #[trigger]
            index.contains_key(t) && index[t] == seq && t > day_end - HISTORY_WINDOW)
            && ledger.contains_key(seq) ==> history_spec(index, ledger, day_end).contains_key(seq)
            && history_spec(index, ledger, day_end)[seq] == ledger[seq],
{
    if exists|t: i64| #[trigger]
        index.contains_key(t) && index[t] == seq && t > day_end - HISTORY_WINDOW {
        let t = choose|t: i64| #[trigger]
            index.contains_key(t) && index[t] == seq && t > day_end - HISTORY_WINDOW;
        assert(index.contains_key(t) && t > day_end - HISTORY_WINDOW && index[t] == seq);
    }
}

/// The three collections of a store, each by its view.
pub struct StoreState {
    pub accounts: Map<u64, CardInfoView>,
    pub ledger: Map<i64, TradeHistoryView>,
    pub positions: Map<u64, Seq<StockHoldView>>,
}

/// A request that may change the store, with what the world outside the
/// engine supplies for it: the time, the secret, the quote.
pub enum Request {
    Register { info: RegisterInfo, now: u64 },
    Transact { trade: DiscordTrade, now: i64 },
    Connect { target: TargetVerify, secret: Seq<char>, now: u64 },
    Buy { order: BuyStock, quote: Result<(int, nat), QuoteError>, now: i64 },
    Sell { order: SellStock, quote: Result<(int, nat), QuoteError>, now: i64 },
}

/// The store after a request was served. A request that is refused leaves
/// the store as it was.
pub open spec fn served(store: StoreState, request: Request) -> StoreState {
    match request {
        Request::Register { info, now } => match registered(
            store.accounts,
            info.discord_id@,
            info.scheme@,
            info.card_type@,
            now,
        ) {
            Ok(after) => StoreState { accounts: after.0, ..store },
            Err(_) => store,
        },
        Request::Transact { trade, now } => match handled_transaction(
            store.accounts,
            store.ledger,
            trade.card_holder@,
            trade.target_user@,
            trade.transaction_type@,
            now,
        ) {
            Ok(after) => StoreState { accounts: after.0, ledger: after.1, ..store },
            Err(_) => store,
        },
        Request::Connect { target, secret, now } => match connect_spec(
            store.accounts,
            target.card_holder@,
            target.target@,
            secret,
            now,
        ) {
            Ok(after) => StoreState { accounts: after.0, ..store },
            Err(_) => store,
        },
        Request::Buy { order, quote, now } => match bought(
            store.accounts,
            store.ledger,
            store.positions,
            order,
            quote,
            now,
        ) {
            Ok(after) => StoreState { accounts: after.0, ledger: after.1, positions: after.2 },
            Err(_) => store,
        },
        Request::Sell { order, quote, now } => match sold(
            store.accounts,
            store.ledger,
            store.positions,
            order,
            quote,
            now,
        ) {
            Ok(after) => StoreState { accounts: after.0, ledger: after.1, positions: after.2 },
            Err(_) => store,
        },
    }
}

/// The store after the requests were served one after the other.
pub open spec fn served_all(store: StoreState, requests: Seq<Request>) -> StoreState
    decreases requests.len(),
{
    if requests.len() == 0 {
        store
    } else {
        served(served_all(store, requests.drop_last()), requests.last())
    }
}

/// No account has a negative balance, and every account's index points at
/// entries that the ledger holds.
pub open spec fn sound(store: StoreState) -> bool {
    &&& forall|id: u64| #[trigger]
        store.accounts.contains_key(id) ==> store.accounts[id].balance.0 >= 0
    &&& forall|id: u64, t: i64|
        store.accounts.contains_key(id) && store.accounts[id].transaction is Some && (
        #[trigger] store.accounts[id].transaction->0.contains_key(t)) ==> store.ledger.contains_key(
            store.accounts[id].transaction->0[t],
        )
}

/// Every entry of `before` is in `after`, unchanged, and every entry that
/// `after` holds besides has a number above all of `before`.
pub open spec fn extends(before: Map<i64, TradeHistoryView>, after: Map<i64, TradeHistoryView>) -> bool {
    &&& forall|k: i64| #[trigger]
        before.contains_key(k) ==> after.contains_key(k) && after[k] == before[k]
    &&& forall|k: i64, j: i64|
        #[trigger] before.contains_key(j) && #[trigger] after.contains_key(k)
            && !before.contains_key(k) ==> j < k
}

/// A transaction that succeeds keeps what a sound store promises for the
/// account, and extends the ledger by one entry.
proof fn lemma_transaction_extends(
    account: CardInfoView,
    ledger: Map<i64, TradeHistoryView>,
    kind: TransactionTypeView,
    target_user: Seq<char>,
    now: i64,
)
    ensures
        transact_spec(account, ledger, kind, target_user, now) matches Ok(after) ==> ({
            &&& extends(ledger, after.1)
            &&& after.0.balance.0 >= 0
            &&& after.0.transaction is Some
            &&& forall|t: i64| #[trigger]
                after.0.transaction->0.contains_key(t) ==> (t == now && after.1.contains_key(
                    after.0.transaction->0[t],
                )) || (account.transaction is Some && account.transaction->0.contains_key(t)
                    && after.0.transaction->0[t] == account.transaction->0[t])
        }),
{
    law_next_sequence_is_fresh(ledger.dom());
}

/// A sound store stays sound where one account is replaced by one whose
/// balance is not negative and whose index points into the ledger, and the
/// ledger is extended.
proof fn lemma_replaced_account_keeps_store_sound(
    store: StoreState,
    id: u64,
    account: CardInfoView,
    ledger: Map<i64, TradeHistoryView>,
    positions: Map<u64, Seq<StockHoldView>>,
)
    requires
        sound(store),
        extends(store.ledger, ledger),
        account.balance.0 >= 0,
        forall|t: i64|
            account.transaction is Some && #[trigger] account.transaction->0.contains_key(t)
                ==> ledger.contains_key(account.transaction->0[t]),
    ensures
        sound(StoreState { accounts: store.accounts.insert(id, account), ledger, positions }),
{
    let after = StoreState { accounts: store.accounts.insert(id, account), ledger, positions };
    assert forall|k: u64| #[trigger] after.accounts.contains_key(k) implies after.accounts[k].balance.0
        >= 0 by {
        if k != id {
            assert(store.accounts.contains_key(k));
        }
    }
    assert forall|k: u64, t: i64|
        after.accounts.contains_key(k) && after.accounts[k].transaction is Some && (
        #[trigger] after.accounts[k].transaction->0.contains_key(t)) implies after.ledger.contains_key(
        after.accounts[k].transaction->0[t],
    ) by {
        if k != id {
            assert(store.accounts.contains_key(k));
            assert(store.accounts[k].transaction->0.contains_key(t));
            assert(store.ledger.contains_key(store.accounts[k].transaction->0[t]));
        }
    }
}

/// What a transaction that succeeds leaves is what a sound store asks of an
/// account.
proof fn lemma_transaction_keeps_store_sound(
    store: StoreState,
    id: u64,
    kind: TransactionTypeView,
    target_user: Seq<char>,
    now: i64,
    positions: Map<u64, Seq<StockHoldView>>,
)
    requires
        sound(store),
        store.accounts.contains_key(id),
    ensures
        transact_spec(store.accounts[id], store.ledger, kind, target_user, now) matches Ok(done)
            ==> sound(
            StoreState { accounts: store.accounts.insert(id, done.0), ledger: done.1, positions },
        ) && extends(store.ledger, done.1),
{
    if let Ok(done) = transact_spec(store.accounts[id], store.ledger, kind, target_user, now) {
        let account = store.accounts[id];
        lemma_transaction_extends(account, store.ledger, kind, target_user, now);
        assert forall|t: i64|
            done.0.transaction is Some && #[trigger] done.0.transaction->0.contains_key(
                t,
            ) implies done.1.contains_key(done.0.transaction->0[t]) by {
            if !(t == now && done.1.contains_key(done.0.transaction->0[t])) {
                assert(account.transaction->0.contains_key(t));
                assert(store.ledger.contains_key(account.transaction->0[t]));
            }
        }
        lemma_replaced_account_keeps_store_sound(store, id, done.0, done.1, positions);
    }
}

/// Serving a request keeps a sound store sound, and only ever extends the
/// ledger.
pub proof fn law_request_keeps_store_sound(store: StoreState, request: Request)
    requires
        sound(store),
    ensures
        sound(served(store, request)),
        extends(store.ledger, served(store, request).ledger),
{
    let after = served(store, request);
    if accepted(store, request) {
        match request {
            Request::Register { info, now } => {
                let done = registered(
                    store.accounts,
                    info.discord_id@,
                    info.scheme@,
                    info.card_type@,
                    now,
                )->Ok_0;
                lemma_replaced_account_keeps_store_sound(
                    store,
                    str_hash(info.discord_id@),
                    done.1,
                    store.ledger,
                    store.positions,
                );
            },
            Request::Transact { trade, now } => {
                let id = account_id(store.accounts, trade.card_holder@)->0;
                lemma_transaction_keeps_store_sound(
                    store,
                    id,
                    trade.transaction_type@,
                    trade.target_user@,
                    now,
                    store.positions,
                );
            },
            Request::Connect { target, secret, now } => {
                let id = account_id(store.accounts, target.card_holder@)->0;
                let account = store.accounts[id];
                let done = connected(account, target.target@, fresh_token(account, secret, now));
                assert(done.0.balance == account.balance);
                assert(done.0.transaction == account.transaction);
                assert forall|t: i64|
                    done.0.transaction is Some && #[trigger] done.0.transaction->0.contains_key(
                        t,
                    ) implies store.ledger.contains_key(done.0.transaction->0[t]) by {
                    assert(account.transaction->0.contains_key(t));
                }
                lemma_replaced_account_keeps_store_sound(
                    store,
                    id,
                    done.0,
                    store.ledger,
                    store.positions,
                );
            },
            Request::Buy { order, quote, now } => {
                let done = bought(
                    store.accounts,
                    store.ledger,
                    store.positions,
                    order,
                    quote,
                    now,
                )->Ok_0;
                let id = account_id(store.accounts, order.card_holder@)->0;
                lemma_transaction_keeps_store_sound(
                    store,
                    id,
                    TransactionTypeView::Debit { amount: done.3 },
                    stock_bot(),
                    now,
                    done.2,
                );
            },
            Request::Sell { order, quote, now } => {
                let done = sold(
                    store.accounts,
                    store.ledger,
                    store.positions,
                    order,
                    quote,
                    now,
                )->Ok_0;
                let id = account_id(store.accounts, order.card_holder@)->0;
                lemma_transaction_keeps_store_sound(
                    store,
                    id,
                    TransactionTypeView::Credit { amount: done.3.payout },
                    stock_bot(),
                    now,
                    done.2,
                );
            },
        }
    } else {
        assert(after == store);
    }
}

/// A holder registers once: after a registration, a second one for the same
/// holder is refused, whenever it comes and whatever card is asked for.
pub proof fn law_register_once(
    accounts: Map<u64, CardInfoView>,
    id: Seq<char>,
    scheme: Seq<char>,
    card_type: Seq<char>,
    now: u64,
    later_scheme: Seq<char>,
    later_card_type: Seq<char>,
    later: u64,
)
    ensures
        registered(accounts, id, scheme, card_type, now) matches Ok(after) ==> ({
            &&& account_id(after.0, id) == Some(str_hash(id))
            &&& after.0[str_hash(id)].balance == (0int, 0nat)
            &&& registered(after.0, id, later_scheme, later_card_type, later) == Err::<
                (Map<u64, CardInfoView>, CardInfoView),
                RegisterError,
            >(RegisterError::AlreadyRegistered)
        }),
{
}

/// Every account lies under the hash of its holder's name.
pub open spec fn keyed(accounts: Map<u64, CardInfoView>) -> bool {
    forall|id: u64| #[trigger]
        accounts.contains_key(id) ==> id == str_hash(accounts[id].card_holder)
}

/// Where every account lies under the hash of its holder's name, a holder
/// has an account exactly if some account bears the holder's name.
pub proof fn law_account_found_by_name(accounts: Map<u64, CardInfoView>, holder: Seq<char>)
    requires
        keyed(accounts),
    ensures
        account_id(accounts, holder) is Some <==> exists|id: u64| #[trigger]
            accounts.contains_key(id) && accounts[id].card_holder == holder,
{
    if exists|id: u64| #[trigger] accounts.contains_key(id) && accounts[id].card_holder == holder {
        let id = choose|id: u64| #[trigger]
            accounts.contains_key(id) && accounts[id].card_holder == holder;
        assert(id == str_hash(holder));
    }
}

/// Serving a request keeps every account under the hash of its holder's
/// name, and never takes an account away.
pub proof fn law_request_keeps_accounts_keyed(store: StoreState, request: Request)
    requires
        keyed(store.accounts),
    ensures
        keyed(served(store, request).accounts),
        forall|id: u64| #[trigger]
            store.accounts.contains_key(id) ==> served(store, request).accounts.contains_key(id)
                && served(store, request).accounts[id].card_holder
                == store.accounts[id].card_holder,
{
    let after = served(store, request).accounts;
    if accepted(store, request) {
        // Every request that is served puts one account under one key.
        let (key, account) = match request {
            Request::Register { info, now } => (
                str_hash(info.discord_id@),
                registered(
                    store.accounts,
                    info.discord_id@,
                    info.scheme@,
                    info.card_type@,
                    now,
                )->Ok_0.1,
            ),
            Request::Transact { trade, now } => {
                let id = account_id(store.accounts, trade.card_holder@)->0;
                (
                    id,
                    transact_spec(
                        store.accounts[id],
                        store.ledger,
                        trade.transaction_type@,
                        trade.target_user@,
                        now,
                    )->Ok_0.0,
                )
            },
            Request::Connect { target, secret, now } => {
                let id = account_id(store.accounts, target.card_holder@)->0;
                (
                    id,
                    connected(
                        store.accounts[id],
                        target.target@,
                        fresh_token(store.accounts[id], secret, now),
                    ).0,
                )
            },
            Request::Buy { order, quote, now } => {
                let id = account_id(store.accounts, order.card_holder@)->0;
                (
                    id,
                    bought(store.accounts, store.ledger, store.positions, order, quote, now)->Ok_0.0[id],
                )
            },
            Request::Sell { order, quote, now } => {
                let id = account_id(store.accounts, order.card_holder@)->0;
                (
                    id,
                    sold(store.accounts, store.ledger, store.positions, order, quote, now)->Ok_0.0[id],
                )
            },
        };
        assert(after == store.accounts.insert(key, account));
        assert(key == str_hash(account.card_holder));
        assert(store.accounts.contains_key(key) ==> account.card_holder
            == store.accounts[key].card_holder);
        assert forall|id: u64| #[trigger] after.contains_key(id) implies id == str_hash(
            after[id].card_holder,
        ) by {
            if id != key {
                assert(store.accounts.contains_key(id));
            }
        }
    } else {
        assert(served(store, request) == store);
    }
}

/// Whether the request is served rather than refused.
pub open spec fn accepted(store: StoreState, request: Request) -> bool {
    match request {
        Request::Register { info, now } => registered(
            store.accounts,
            info.discord_id@,
            info.scheme@,
            info.card_type@,
            now,
        ) is Ok,
        Request::Transact { trade, now } => handled_transaction(
            store.accounts,
            store.ledger,
            trade.card_holder@,
            trade.target_user@,
            trade.transaction_type@,
            now,
        ) is Ok,
        Request::Connect { target, secret, now } => connect_spec(
            store.accounts,
            target.card_holder@,
            target.target@,
            secret,
            now,
        ) is Ok,
        Request::Buy { order, quote, now } => bought(
            store.accounts,
            store.ledger,
            store.positions,
            order,
            quote,
            now,
        ) is Ok,
        Request::Sell { order, quote, now } => sold(
            store.accounts,
            store.ledger,
            store.positions,
            order,
            quote,
            now,
        ) is Ok,
    }
}

/// Whether the request is one that moves money: a transaction, a purchase
/// or a sale.
pub open spec fn moves_money(request: Request) -> bool {
    request is Transact || request is Buy || request is Sell
}

/// A request that moves money and is served adds exactly one entry to the
/// ledger, under the number after the largest that the ledger held, and
/// changes no other entry. Every other request leaves the ledger as it was.
pub proof fn law_one_entry_per_served_request(store: StoreState, request: Request)
    ensures
        accepted(store, request) && moves_money(request) ==> ({
            let after = served(store, request).ledger;
            let seq = next_sequence_spec(store.ledger.dom()) as i64;
            &&& seq == next_sequence_spec(store.ledger.dom())
            &&& !store.ledger.contains_key(seq)
            &&& forall|k: i64| store.ledger.contains_key(k) ==> k < seq
            &&& after.dom() == store.ledger.dom().insert(seq)
            &&& forall|k: i64| store.ledger.contains_key(k) ==> after[k] == store.ledger[k]
        }),
        !(accepted(store, request) && moves_money(request)) ==> served(store, request).ledger
            == store.ledger,
{
    if accepted(store, request) {
        match request {
            Request::Transact { trade, now } => {
                let id = account_id(store.accounts, trade.card_holder@)->0;
                law_one_entry_per_transaction(
                    store.accounts[id],
                    store.ledger,
                    trade.transaction_type@,
                    trade.target_user@,
                    now,
                );
            },
            Request::Buy { order, quote, now } => {
                let done = bought(
                    store.accounts,
                    store.ledger,
                    store.positions,
                    order,
                    quote,
                    now,
                )->Ok_0;
                let id = account_id(store.accounts, order.card_holder@)->0;
                law_one_entry_per_transaction(
                    store.accounts[id],
                    store.ledger,
                    TransactionTypeView::Debit { amount: done.3 },
                    stock_bot(),
                    now,
                );
            },
            Request::Sell { order, quote, now } => {
                let done = sold(
                    store.accounts,
                    store.ledger,
                    store.positions,
                    order,
                    quote,
                    now,
                )->Ok_0;
                let id = account_id(store.accounts, order.card_holder@)->0;
                law_one_entry_per_transaction(
                    store.accounts[id],
                    store.ledger,
                    TransactionTypeView::Credit { amount: done.3.payout },
                    stock_bot(),
                    now,
                );
            },
            _ => {},
        }
    } else {
        assert(served(store, request) == store);
    }
}

/// A request that is refused changes nothing: neither a balance nor the
/// ledger nor a position.
pub proof fn law_refused_request_changes_nothing(store: StoreState, request: Request)
    ensures
        !accepted(store, request) ==> served(store, request) == store,
{
}

/// A request to buy with a leverage whose whole part is zero is refused,
/// whoever asks and whatever the quote: no balance, no entry and no position
/// changes.
pub proof fn law_zero_leverage_changes_nothing(
    store: StoreState,
    order: BuyStock,
    quote: Result<(int, nat), QuoteError>,
    now: i64,
)
    requires
        integer_part(order.leverage@.0, order.leverage@.1) == 0,
    ensures
        !accepted(store, (Request::Buy { order, quote, now })),
        served(store, (Request::Buy { order, quote, now })) == store,
{
}

/// A debit above the balance of the holder's account is refused: no balance
/// and no entry changes.
pub proof fn law_debit_above_balance_changes_nothing(
    store: StoreState,
    trade: DiscordTrade,
    amount: (int, nat),
    now: i64,
)
    requires
        trade.transaction_type@ == (TransactionTypeView::Debit { amount }),
        account_id(store.accounts, trade.card_holder@) is Some,
        !decimal_le(amount, store.accounts[account_id(store.accounts, trade.card_holder@)->0].balance),
    ensures
        !accepted(store, (Request::Transact { trade, now })),
        served(store, (Request::Transact { trade, now })) == store,
{
}

/// A sale is served at most once: after it was served, the same request
/// finds no position, whatever the quote, provided the holder had one
/// position for the symbol and the time.
pub proof fn law_sell_at_most_once(
    store: StoreState,
    order: SellStock,
    quote: Result<(int, nat), QuoteError>,
    now: i64,
    later_quote: Result<(int, nat), QuoteError>,
    later: i64,
)
    requires
        authorized(store.accounts, order.card_holder@, order.target@, order.token@) matches Ok(id)
            && forall|i: int, j: int|
            0 <= i < holds_of(store.positions, id).len() && 0 <= j < holds_of(
                store.positions,
                id,
            ).len() && is_position(
                #[trigger] holds_of(store.positions, id)[i],
                order.symbol@,
                order.timestamp,
            ) && is_position(
                #[trigger] holds_of(store.positions, id)[j],
                order.symbol@,
                order.timestamp,
            ) ==> i == j,
    ensures
        sold(store.accounts, store.ledger, store.positions, order, quote, now) matches Ok(after)
            ==> sold(after.0, after.1, after.2, order, later_quote, later) == Err::<
            (
                Map<u64, CardInfoView>,
                Map<i64, TradeHistoryView>,
                Map<u64, Seq<StockHoldView>>,
                SettlementView,
            ),
            StockError,
        >(StockError::PositionNotFound),
{
    if let Ok(after) = sold(store.accounts, store.ledger, store.positions, order, quote, now) {
        let id = authorized(store.accounts, order.card_holder@, order.target@, order.token@)->Ok_0;
        let holds = holds_of(store.positions, id);
        let price = quote->Ok_0;
        law_close_at_most_once(
            store.accounts[id],
            store.ledger,
            holds,
            order.symbol@,
            order.timestamp,
            price,
            now,
            price,
            later,
        );
        assert(account_id(after.0, order.card_holder@) == Some(id));
        assert(after.0[id].connection == store.accounts[id].connection);
        assert(holds_of(after.2, id) == holds.remove(
            position_index(holds, order.symbol@, order.timestamp),
        ));
    }
}

/// Every open position has a direction and a leverage that closing accepts.
pub open spec fn positions_valid(positions: Map<u64, Seq<StockHoldView>>) -> bool {
    forall|id: u64, i: int|
        positions.contains_key(id) && 0 <= i < positions[id].len() ==> direction_spec(
            (#[trigger] positions[id][i]).stock.buy_type,
        ) is Some && leverage_factor(positions[id][i].stock.leverage) is Some
}

/// Serving a request keeps every open position closable: what is opened was
/// validated, and closing takes one position away and touches no other.
pub proof fn law_request_keeps_positions_valid(store: StoreState, request: Request)
    requires
        positions_valid(store.positions),
    ensures
        positions_valid(served(store, request).positions),
{
    let after = served(store, request).positions;
    match request {
        Request::Buy { order, quote, now } => {
            if let Ok(done) = bought(
                store.accounts,
                store.ledger,
                store.positions,
                order,
                quote,
                now,
            ) {
                let key = account_id(store.accounts, order.card_holder@)->0;
                let before = holds_of(store.positions, key);
                assert forall|id: u64, i: int|
                    after.contains_key(id) && 0 <= i < after[id].len() implies direction_spec(
                    (#[trigger] after[id][i]).stock.buy_type,
                ) is Some && leverage_factor(after[id][i].stock.leverage) is Some by {
                    if id == key {
                        if i < before.len() {
                            assert(after[id][i] == store.positions[id][i]);
                        }
                    } else {
                        assert(after[id][i] == store.positions[id][i]);
                    }
                }
            }
        },
        Request::Sell { order, quote, now } => {
            if let Ok(done) = sold(
                store.accounts,
                store.ledger,
                store.positions,
                order,
                quote,
                now,
            ) {
                let key = account_id(store.accounts, order.card_holder@)->0;
                let before = holds_of(store.positions, key);
                let at = position_index(before, order.symbol@, order.timestamp);
                law_position_index_is_first(before, order.symbol@, order.timestamp);
                assert forall|id: u64, i: int|
                    after.contains_key(id) && 0 <= i < after[id].len() implies direction_spec(
                    (#[trigger] after[id][i]).stock.buy_type,
                ) is Some && leverage_factor(after[id][i].stock.leverage) is Some by {
                    if id == key {
                        if i < at {
                            assert(after[id][i] == store.positions[id][i]);
                        } else {
                            assert(after[id][i] == store.positions[id][i + 1]);
                        }
                    } else {
                        assert(after[id][i] == store.positions[id][i]);
                    }
                }
            }
        },
        _ => {},
    }
}

/// After any sequence of requests, served or refused, no balance is
/// negative, every account's index points into the ledger, and the ledger
/// holds every entry that it held, unchanged, with the new ones numbered
/// above them. Accounts that lay under the hashes of their holders' names
/// still do, and open positions that were closable still are.
pub proof fn law_store_stays_sound(store: StoreState, requests: Seq<Request>)
    requires
        sound(store),
    ensures
        sound(served_all(store, requests)),
        extends(store.ledger, served_all(store, requests).ledger),
        keyed(store.accounts) ==> keyed(served_all(store, requests).accounts),
        positions_valid(store.positions) ==> positions_valid(
            served_all(store, requests).positions,
        ),
    decreases requests.len(),
{
    if requests.len() > 0 {
        let middle = served_all(store, requests.drop_last());
        law_store_stays_sound(store, requests.drop_last());
        law_request_keeps_store_sound(middle, requests.last());
        if keyed(store.accounts) {
            law_request_keeps_accounts_keyed(middle, requests.last());
        }
        if positions_valid(store.positions) {
            law_request_keeps_positions_valid(middle, requests.last());
        }
    }
}

/// The entry that a transaction leaves in the ledger.
pub open spec fn entry_of(kind: TransactionTypeView, target_user: Seq<char>, now: i64) -> TradeHistoryView {
    TradeHistoryView { timestamp: now, transaction_type: kind, target_user }
}

/// A transaction succeeds exactly when its amount is positive, a debit is
/// covered by the balance, the arithmetic gives a balance that is not
/// negative, and the ledger has a sequence number left.
pub proof fn law_transaction_succeeds_exactly_when(
    account: CardInfoView,
    ledger: Map<i64, TradeHistoryView>,
    kind: TransactionTypeView,
    target_user: Seq<char>,
    now: i64,
)
    ensures
        transact_spec(account, ledger, kind, target_user, now) is Ok <==> ({
            &&& amount_of(kind).0 > 0
            &&& kind is Debit ==> decimal_le(amount_of(kind), account.balance)
            &&& (raw_balance(account.balance, kind) matches Some(after) && after.0 >= 0)
            &&& next_sequence_spec(ledger.dom()) <= i64::MAX
        }),
{
}

/// A valid transaction of a holder who has an account adds exactly one entry
/// to the ledger: where the amount is positive, a debit is covered, the
/// arithmetic gives the balance `new_balance`, which is not negative, and
/// the ledger has a number left, the transaction succeeds; the ledger gains
/// the entry under the number after its largest and keeps every other entry;
/// and the account gets the new balance and an index that points from `now`
/// to the entry.
pub proof fn law_valid_transaction_adds_one_entry(
    accounts: Map<u64, CardInfoView>,
    ledger: Map<i64, TradeHistoryView>,
    holder: Seq<char>,
    target_user: Seq<char>,
    kind: TransactionTypeView,
    now: i64,
    new_balance: (int, nat),
)
    requires
        account_id(accounts, holder) is Some,
        amount_of(kind).0 > 0,
        kind is Debit ==> decimal_le(amount_of(kind), accounts[account_id(accounts, holder)->0].balance),
        raw_balance(accounts[account_id(accounts, holder)->0].balance, kind) == Some(new_balance),
        new_balance.0 >= 0,
        next_sequence_spec(ledger.dom()) <= i64::MAX,
    ensures
        ({
            let id = account_id(accounts, holder)->0;
            let seq = next_sequence_spec(ledger.dom()) as i64;
            &&& handled_transaction(accounts, ledger, holder, target_user, kind, now) == Ok::<
                (Map<u64, CardInfoView>, Map<i64, TradeHistoryView>),
                LedgerError,
            >(
                (
                    accounts.insert(id, recorded_account(accounts[id], new_balance, now, seq)),
                    ledger.insert(seq, entry_of(kind, target_user, now)),
                ),
            )
            &&& !ledger.contains_key(seq)
            &&& forall|k: i64| ledger.contains_key(k) ==> k < seq
            &&& ledger.dom().finite() ==> ledger.insert(
                seq,
                entry_of(kind, target_user, now),
            ).dom().len() == ledger.dom().len() + 1
            &&& recorded_account(accounts[id], new_balance, now, seq).transaction->0[now] == seq
        }),
{
    law_next_sequence_is_fresh(ledger.dom());
}

/// A valid purchase adds exactly one entry to the ledger: where the platform
/// is authorized, the quote has arrived, the direction and the leverage are
/// valid, the arithmetic gives the cost `cost`, which is positive and
/// covered, and the balance `new_balance`, which is not negative, and the
/// ledger has a number left, the purchase succeeds; the ledger gains the
/// debit of the cost under the number after its largest and keeps every
/// other entry; the account's index points from `now` to it; and the
/// position joins the holder's open positions.
pub proof fn law_valid_purchase_adds_one_entry(
    accounts: Map<u64, CardInfoView>,
    ledger: Map<i64, TradeHistoryView>,
    positions: Map<u64, Seq<StockHoldView>>,
    order: BuyStock,
    price: (int, nat),
    now: i64,
    cost: (int, nat),
    new_balance: (int, nat),
)
    requires
        authorized(accounts, order.card_holder@, order.target@, order.token@) is Ok,
        direction_spec(order.buy_type@) is Some,
        leverage_factor(order.leverage@) is Some,
        position_cost(price, order.hand@, leverage_factor(order.leverage@)->0) == Some(cost),
        funds_cover(accounts[account_id(accounts, order.card_holder@)->0].balance, cost),
        raw_balance(
            accounts[account_id(accounts, order.card_holder@)->0].balance,
            (TransactionTypeView::Debit { amount: cost }),
        ) == Some(new_balance),
        new_balance.0 >= 0,
        next_sequence_spec(ledger.dom()) <= i64::MAX,
    ensures
        ({
            let id = account_id(accounts, order.card_holder@)->0;
            let seq = next_sequence_spec(ledger.dom()) as i64;
            let debit = TransactionTypeView::Debit { amount: cost };
            &&& bought(accounts, ledger, positions, order, Ok(price), now) == Ok::<
                (
                    Map<u64, CardInfoView>,
                    Map<i64, TradeHistoryView>,
                    Map<u64, Seq<StockHoldView>>,
                    (int, nat),
                ),
                StockError,
            >(
                (
                    accounts.insert(id, recorded_account(accounts[id], new_balance, now, seq)),
                    ledger.insert(seq, entry_of(debit, stock_bot(), now)),
                    positions.insert(
                        id,
                        holds_of(positions, id).push(
                            StockHoldView { timestamp: now, stock: order_of(order, price) },
                        ),
                    ),
                    cost,
                ),
            )
            &&& !ledger.contains_key(seq)
            &&& forall|k: i64| ledger.contains_key(k) ==> k < seq
            &&& recorded_account(accounts[id], new_balance, now, seq).transaction->0[now] == seq
        }),
{
    law_next_sequence_is_fresh(ledger.dom());
    let id = account_id(accounts, order.card_holder@)->0;
    let debit = TransactionTypeView::Debit { amount: cost };
    assert(authorized(accounts, order.card_holder@, order.target@, order.token@) == Ok::<
        u64,
        AuthError,
    >(id));
    law_transaction_succeeds_exactly_when(accounts[id], ledger, debit, stock_bot(), now);
}

/// A valid sale adds exactly one entry to the ledger: where the platform is
/// authorized, the position is open, the quote has arrived, the arithmetic
/// gives the earning and the payout `payout`, which is positive, and the
/// balance `new_balance`, which is not negative, and the ledger has a number
/// left, the sale succeeds; the ledger gains the credit of the payout under
/// the number after its largest and keeps every other entry; the account's
/// index points from `now` to it; and the position leaves the holder's open
/// positions.
pub proof fn law_valid_sale_adds_one_entry(
    accounts: Map<u64, CardInfoView>,
    ledger: Map<i64, TradeHistoryView>,
    positions: Map<u64, Seq<StockHoldView>>,
    order: SellStock,
    price: (int, nat),
    now: i64,
    earning: (int, nat),
    payout: (int, nat),
    new_balance: (int, nat),
)
    requires
        authorized(accounts, order.card_holder@, order.target@, order.token@) is Ok,
        has_position(
            holds_of(positions, account_id(accounts, order.card_holder@)->0),
            order.symbol@,
            order.timestamp,
        ),
        valued(
            holds_of(positions, account_id(accounts, order.card_holder@)->0)[position_index(
                holds_of(positions, account_id(accounts, order.card_holder@)->0),
                order.symbol@,
                order.timestamp,
            )].stock,
            price,
        ) == Ok::<((int, nat), (int, nat)), StockError>((earning, payout)),
        payout.0 > 0,
        raw_balance(
            accounts[account_id(accounts, order.card_holder@)->0].balance,
            (TransactionTypeView::Credit { amount: payout }),
        ) == Some(new_balance),
        new_balance.0 >= 0,
        next_sequence_spec(ledger.dom()) <= i64::MAX,
    ensures
        ({
            let id = account_id(accounts, order.card_holder@)->0;
            let seq = next_sequence_spec(ledger.dom()) as i64;
            let credit = TransactionTypeView::Credit { amount: payout };
            let holds = holds_of(positions, id);
            let at = position_index(holds, order.symbol@, order.timestamp);
            &&& sold(accounts, ledger, positions, order, Ok(price), now) == Ok::<
                (
                    Map<u64, CardInfoView>,
                    Map<i64, TradeHistoryView>,
                    Map<u64, Seq<StockHoldView>>,
                    SettlementView,
                ),
                StockError,
            >(
                (
                    accounts.insert(id, recorded_account(accounts[id], new_balance, now, seq)),
                    ledger.insert(seq, entry_of(credit, stock_bot(), now)),
                    positions.insert(id, holds.remove(at)),
                    SettlementView {
                        hand: holds[at].stock.hand,
                        leverage: holds[at].stock.leverage,
                        earning,
                        payout,
                    },
                ),
            )
            &&& !ledger.contains_key(seq)
            &&& forall|k: i64| ledger.contains_key(k) ==> k < seq
            &&& recorded_account(accounts[id], new_balance, now, seq).transaction->0[now] == seq
        }),
{
    law_next_sequence_is_fresh(ledger.dom());
    let id = account_id(accounts, order.card_holder@)->0;
    let credit = TransactionTypeView::Credit { amount: payout };
    assert(authorized(accounts, order.card_holder@, order.target@, order.token@) == Ok::<
        u64,
        AuthError,
    >(id));
    law_transaction_succeeds_exactly_when(accounts[id], ledger, credit, stock_bot(), now);
}

} // verus!
