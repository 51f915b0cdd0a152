//! The operations of the store: each finds the holder's account among the
//! accounts and acts on it.

use vstd::prelude::*;
use vstd::std_specs::hash::*;
use vstd::std_specs::iter::IteratorSpec;
use std::collections::HashMap;
use crate::authorizer::{account_id, find_account};
use crate::balance::{apply_transaction, transact_spec};
use crate::card::{gen_card, hash_str_to_u64, issued_card, str_hash};
use crate::decimal::Decimal;
use crate::error::{HistoryError, LedgerError, RegisterError};
use crate::structure::{
    accounts_view, ledger_view, CardInfo, CardInfoView, DiscordTrade, Identification,
    RegisterInfo, TradeHistory, TradeHistoryView, TransactionTypeView,
};

verus! {

/// The accounts and the ledger after a transaction of the holder, or why it
/// is refused.
pub open spec fn handled_transaction(
    accounts: Map<u64, CardInfoView>,
    ledger: Map<i64, TradeHistoryView>,
    holder: Seq<char>,
    target_user: Seq<char>,
    kind: TransactionTypeView,
    now: i64,
) -> Result<(Map<u64, CardInfoView>, Map<i64, TradeHistoryView>), LedgerError> {
    match account_id(accounts, holder) {
        None => Err(LedgerError::NoSuchAccount),
        Some(id) => match transact_spec(accounts[id], ledger, kind, target_user, now) {
            Ok((account, after)) => Ok((accounts.insert(id, account), after)),
            Err(e) => Err(e),
        },
    }
}

/// Taking an account out of the store and putting one back under the same
/// key replaces the account's view.
pub proof fn lemma_accounts_view_replace(cards: Map<u64, CardInfo>, id: u64, card: CardInfo)
    ensures
        accounts_view(cards.remove(id).insert(id, card)) == accounts_view(cards).insert(id, card@),
        cards.contains_key(id) ==> cards.remove(id).insert(id, cards[id]) == cards,
{
    assert(accounts_view(cards.remove(id).insert(id, card)) =~= accounts_view(cards).insert(
        id,
        card@,
    ));
    if cards.contains_key(id) {
        assert(cards.remove(id).insert(id, cards[id]) =~= cards);
    }
}

/// Applies the holder's credit or debit to the holder's account and records
/// it in the ledger. Returns the new balance. On an error the accounts and
/// the ledger hold what they held.
pub fn handler_transaction(
    id: DiscordTrade,
    card_map: &mut HashMap<u64, CardInfo>,
    trade_map: &mut HashMap<i64, TradeHistory>,
    now: i64,
) -> (r: Result<Decimal, LedgerError>)
    ensures
        (match handled_transaction(
            accounts_view(old(card_map)@),
            ledger_view(old(trade_map)@),
            id.card_holder@,
            id.target_user@,
            id.transaction_type@,
            now,
        ) {
            Ok((accounts, ledger)) => {
                &&& r matches Ok(balance)
                &&& account_id(accounts_view(old(card_map)@), id.card_holder@) matches Some(key)
                &&& balance@ == accounts[key].balance
                &&& balance@.0 >= 0
                &&& accounts_view(final(card_map)@) == accounts
                &&& ledger_view(final(trade_map)@) == ledger
            },
            Err(e) => {
                &&& r matches Err(x)
                &&& x == e
                &&& final(card_map)@ == old(card_map)@
                &&& final(trade_map)@ == old(trade_map)@
            },
        }),
{
    let key = match find_account(card_map, id.card_holder.as_str()) {
        Some(key) => key,
        None => {
            return Err(LedgerError::NoSuchAccount);
        },
    };
    let mut card = match card_map.remove(&key) {
        Some(card) => card,
        None => {
            return Err(LedgerError::NoSuchAccount);
        },
    };
    let result = apply_transaction(&mut card, trade_map, id.transaction_type, id.target_user, now);
    proof {
        lemma_accounts_view_replace(old(card_map)@, key, card);
    }
    card_map.insert(key, card);
    result
}

/// Whether the holder has an account.
pub fn check_target_exist(id: &Identification, card_map: &HashMap<u64, CardInfo>) -> (r: bool)
    ensures
        r == account_id(accounts_view(card_map@), id.card_holder@).is_some(),
{
    find_account(card_map, id.card_holder.as_str()).is_some()
}

/// The balance of the holder's account, or `None` where the holder has no
/// account.
pub fn get_balance(id: &Identification, card_map: &HashMap<u64, CardInfo>) -> (r: Option<Decimal>)
    ensures
        (match account_id(accounts_view(card_map@), id.card_holder@) {
            Some(key) => r matches Some(balance) && balance@ == accounts_view(
                card_map@,
            )[key].balance,
            None => r is None,
        }),
{
    match find_account(card_map, id.card_holder.as_str()) {
        Some(key) => match card_map.get(&key) {
            Some(card) => Some(card.balance),
            None => None,
        },
        None => None,
    }
}

/// The numbers on the face of a card.
#[derive(Clone, Copy, Debug, PartialEq, Eq, Structural)]
pub struct IssuedCard {
    pub card_number: u64,
    pub good_thru: u16,
    pub verify_number: u16,
}

/// The seed of a holder's card: the holder's hash and the time of
/// registration, added modulo 2^64.
pub open spec fn card_seed(id: Seq<char>, now: u64) -> u64 {
    now.wrapping_add(str_hash(id))
}

/// The accounts after `card` was put under `key`; a key that is taken is
/// refused.
pub open spec fn stored_card(accounts: Map<u64, CardInfoView>, key: u64, card: CardInfoView) -> Result<
    Map<u64, CardInfoView>,
    RegisterError,
> {
    if accounts.contains_key(key) {
        Err(RegisterError::AlreadyRegistered)
    } else {
        Ok(accounts.insert(key, card))
    }
}

/// The accounts after `id` registered at time `now`, with the card that was
/// issued; or why none was issued. A holder registers once.
pub open spec fn registered(
    accounts: Map<u64, CardInfoView>,
    id: Seq<char>,
    scheme: Seq<char>,
    card_type: Seq<char>,
    now: u64,
) -> Result<(Map<u64, CardInfoView>, CardInfoView), RegisterError> {
    let card = issued_card(scheme, card_type, card_seed(id, now), id);
    match stored_card(accounts, str_hash(id), card) {
        Ok(after) => Ok((after, card)),
        Err(e) => Err(e),
    }
}

/// Stores a card under a key that is free, and returns the numbers on it. A
/// key that is taken is refused, and the store stays as it is.
pub fn store_card(all_data: &mut HashMap<u64, CardInfo>, key: u64, card: CardInfo) -> (r: Result<
    IssuedCard,
    RegisterError,
>)
    ensures
        (match stored_card(accounts_view(old(all_data)@), key, card@) {
            Ok(accounts) => {
                &&& r matches Ok(face)
                &&& face.card_number == card.card_number
                &&& face.good_thru == card.good_thru
                &&& face.verify_number == card.verify_number
                &&& accounts_view(final(all_data)@) == accounts
            },
            Err(e) => {
                &&& r matches Err(x)
                &&& x == e
                &&& *final(all_data) == *old(all_data)
            },
        }),
{
    if all_data.contains_key(&key) {
        return Err(RegisterError::AlreadyRegistered);
    }
    let face = IssuedCard {
        card_number: card.card_number,
        good_thru: card.good_thru,
        verify_number: card.verify_number,
    };
    proof {
        assert(accounts_view(all_data@.insert(key, card)) =~= accounts_view(all_data@).insert(
            key,
            card@,
        ));
    }
    all_data.insert(key, card);
    Ok(face)
}

/// Registers a holder: issues a card from the holder's hash and the time
/// `now` and stores it under the hash. Returns the numbers on the card. A
/// holder whose hash the store has is refused, and the store stays as it is.
pub fn sign_up_discord(info: RegisterInfo, now: u64, all_data: &mut HashMap<u64, CardInfo>) -> (r:
    Result<IssuedCard, RegisterError>)
    ensures
        (match registered(
            accounts_view(old(all_data)@),
            info.discord_id@,
            info.scheme@,
            info.card_type@,
            now,
        ) {
            Ok((accounts, card)) => {
                &&& r matches Ok(face)
                &&& face.card_number == card.card_number
                &&& face.good_thru == card.good_thru
                &&& face.verify_number == card.verify_number
                &&& accounts_view(final(all_data)@) == accounts
            },
            Err(e) => {
                &&& r matches Err(x)
                &&& x == e
                &&& *final(all_data) == *old(all_data)
            },
        }),
{
    let hash_id = hash_str_to_u64(info.discord_id.as_str());
    let mixture = now.wrapping_add(hash_id);
    let card_account = gen_card(info.scheme, info.card_type, mixture, info.discord_id.as_str());
    store_card(all_data, hash_id, card_account)
}

/// The length of the window of a history query: seven days, in seconds.
pub const HISTORY_WINDOW: i64 = 7 * 86400;

/// Some transaction of the index after the start of the window that ends at
/// `day_end` was recorded under `seq`.
pub open spec fn in_window(index: Map<i64, i64>, day_end: i64, seq: i64) -> bool {
    exists|t: i64| #[trigger]
        index.contains_key(t) && t > day_end - HISTORY_WINDOW && index[t] == seq
}

/// The entries of the ledger that the index points to from within the window
/// that ends at `day_end`.
pub open spec fn history_spec(
    index: Map<i64, i64>,
    ledger: Map<i64, TradeHistoryView>,
    day_end: i64,
) -> Map<i64, TradeHistoryView> {
    Map::new(
        |seq: i64| ledger.contains_key(seq) && in_window(index, day_end, seq),
        |seq: i64| ledger[seq],
    )
}

/// The holder's entries of the last seven days, or why there are none to
/// look for.
pub open spec fn history_of(
    accounts: Map<u64, CardInfoView>,
    ledger: Map<i64, TradeHistoryView>,
    holder: Seq<char>,
    day_end: i64,
) -> Result<Map<i64, TradeHistoryView>, HistoryError> {
    match account_id(accounts, holder) {
        None => Err(HistoryError::NoSuchAccount),
        Some(key) => match accounts[key].transaction {
            None => Err(HistoryError::NoTransactions),
            Some(index) => Ok(history_spec(index, ledger, day_end)),
        },
    }
}

/// A copy of a ledger entry.
pub fn copy_entry(entry: &TradeHistory) -> (r: TradeHistory)
    ensures
        r@ == entry@,
{
    TradeHistory {
        timestamp: entry.timestamp,
        transaction_type: entry.transaction_type,
        target_user: entry.target_user.clone(),
    }
}

/// The entries of the ledger that the index points to from within the seven
/// days that end at `day_end`, each under its sequence number.
pub fn collect_history(
    index: &HashMap<i64, i64>,
    trade_map: &HashMap<i64, TradeHistory>,
    day_end: i64,
) -> (r: HashMap<i64, TradeHistory>)
    ensures
        ledger_view(r@) == history_spec(index@, ledger_view(trade_map@), day_end),
{
    let mut trades: HashMap<i64, TradeHistory> = HashMap::new();
    proof {
        axiom_spec_keys_iter(index);
    }
    for t in it: index.keys()
        invariant
            it.seq() == spec_keys_iter(index).remaining(),
            it.seq().unref().to_set() == index@.dom(),
            forall|s: i64| #[trigger]
                trades@.contains_key(s) <==> trade_map@.contains_key(s) && exists|j: int|
                    0 <= j < it.index() && *it.seq()[j] > day_end - HISTORY_WINDOW && index@[*it.seq()[j]]
                        == s,
            forall|s: i64| #[trigger] trades@.contains_key(s) ==> trades@[s]@ == trade_map@[s]@,
    {
        let ghost at = it.index();
        let ghost walked = it.seq();
        assert(*t == *walked[at]);
        proof {
            assert(walked.unref()[at] == *t);
            assert(walked.unref().to_set().contains(*t));
        }
        let ghost before = trades@;
        if (*t as i128) > (day_end as i128) - (HISTORY_WINDOW as i128) {
            match index.get(t) {
                Some(seq) => {
                    match trade_map.get(seq) {
                        Some(entry) => {
                            trades.insert(*seq, copy_entry(entry));
                        },
                        None => {},
                    }
                },
                None => {},
            }
        }
        proof {
            assert forall|s: i64| #[trigger]
                trades@.contains_key(s) <==> trade_map@.contains_key(s) && exists|j: int|
                    0 <= j < at + 1 && *walked[j] > day_end - HISTORY_WINDOW && index@[*walked[j]]
                        == s by {
                if trades@.contains_key(s) {
                    if before.contains_key(s) {
                        let j = choose|j: int|
                            0 <= j < at && *walked[j] > day_end - HISTORY_WINDOW
                                && index@[*walked[j]] == s;
                        assert(0 <= j < at + 1 && *walked[j] > day_end - HISTORY_WINDOW
                            && index@[*walked[j]] == s);
                    } else {
                        assert(0 <= at < at + 1 && *walked[at] > day_end - HISTORY_WINDOW
                            && index@[*walked[at]] == s);
                    }
                }
                if trade_map@.contains_key(s) && exists|j: int|
                    0 <= j < at + 1 && *walked[j] > day_end - HISTORY_WINDOW && index@[*walked[j]]
                        == s {
                    let j = choose|j: int|
                        0 <= j < at + 1 && *walked[j] > day_end - HISTORY_WINDOW
                            && index@[*walked[j]] == s;
                    if j < at {
                        assert(before.contains_key(s));
                    }
                }
            }
        }
    }
    proof {
        let walked = spec_keys_iter(index).remaining();
        let wanted = history_spec(index@, ledger_view(trade_map@), day_end);
        assert forall|s: i64| ledger_view(trades@).contains_key(s) <==> wanted.contains_key(
            s,
        ) by {
            if trades@.contains_key(s) {
                let j = choose|j: int|
                    0 <= j < walked.len() && *walked[j] > day_end - HISTORY_WINDOW
                        && index@[*walked[j]] == s;
                assert(walked.unref()[j] == *walked[j]);
                assert(walked.unref().to_set().contains(*walked[j]));
                assert(index@.contains_key(*walked[j]));
            }
            if wanted.contains_key(s) {
                let t = choose|t: i64| #[trigger]
                    index@.contains_key(t) && t > day_end - HISTORY_WINDOW && index@[t] == s;
                assert(walked.unref().to_set().contains(t));
                let j = choose|j: int| 0 <= j < walked.unref().len() && walked.unref()[j] == t;
                assert(*walked[j] == t);
                assert(trades@.contains_key(s));
            }
        }
        assert(ledger_view(trades@) =~= wanted);
    }
    trades
}

/// The holder's entries of the seven days that end at `day_end`: those that
/// the account's index points to from within the window. A holder without an
/// account, or without a transaction yet, has none to look for.
pub fn check_trade_history(
    id: &Identification,
    day_end: i64,
    card_map: &HashMap<u64, CardInfo>,
    trade_map: &HashMap<i64, TradeHistory>,
) -> (r: Result<HashMap<i64, TradeHistory>, HistoryError>)
    ensures
        (match history_of(
            accounts_view(card_map@),
            ledger_view(trade_map@),
            id.card_holder@,
            day_end,
        ) {
            Ok(entries) => r matches Ok(found) && ledger_view(found@) == entries,
            Err(e) => r matches Err(x) && x == e,
        }),
{
    let key = match find_account(card_map, id.card_holder.as_str()) {
        Some(key) => key,
        None => {
            return Err(HistoryError::NoSuchAccount);
        },
    };
    let card = match card_map.get(&key) {
        Some(card) => card,
        None => {
            return Err(HistoryError::NoSuchAccount);
        },
    };
    match &card.transaction {
        Some(index) => Ok(collect_history(index, trade_map, day_end)),
        None => Err(HistoryError::NoTransactions),
    }
}

} // verus!
