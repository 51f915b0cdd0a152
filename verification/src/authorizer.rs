//! The connection authorizer: which platforms may act on an account, and with
//! which token.

use vstd::prelude::*;
use std::collections::HashMap;
use crate::card::{hash_str_to_u64, str_hash};
use crate::error::AuthError;
use crate::structure::{
    accounts_view, connections_view, CardInfo, CardInfoView, TargetInfo, TargetInfoView,
    TargetVerify,
};
use crate::token::{decimal_string, decimal_text, generate_token, payload_text, token_text};

verus! {

/// The store has an account under `key`, and it bears the holder's name.
pub open spec fn holds_account(accounts: Map<u64, CardInfoView>, key: u64, holder: Seq<char>) -> bool {
    accounts.contains_key(key) && accounts[key].card_holder == holder
}

/// The key of the holder's account in the store, if the store has it: the
/// hash of the holder's name, where the account under it bears that name.
pub open spec fn account_id(accounts: Map<u64, CardInfoView>, holder: Seq<char>) -> Option<u64> {
    let id = str_hash(holder);
    if holds_account(accounts, id, holder) {
        Some(id)
    } else {
        None
    }
}

/// Some connection of the list is for `platform`.
pub open spec fn has_platform(list: Seq<TargetInfoView>, platform: Seq<char>) -> bool {
    exists|i: int| 0 <= i < list.len() && (#[trigger] list[i]).target == platform
}

/// The connection at `i` is the first of the list for `platform`.
pub open spec fn is_first_for(list: Seq<TargetInfoView>, platform: Seq<char>, i: int) -> bool {
    &&& 0 <= i < list.len()
    &&& list[i].target == platform
    &&& forall|j: int| 0 <= j < i ==> (#[trigger] list[j]).target != platform
}

/// The token of the first connection for `platform`.
pub open spec fn stored_token(list: Seq<TargetInfoView>, platform: Seq<char>) -> Seq<char>
    recommends
        has_platform(list, platform),
{
    list[choose|i: int| is_first_for(list, platform, i)].token
}

/// Some connection of the list is for `platform` with `token`.
pub open spec fn has_connection(
    list: Seq<TargetInfoView>,
    platform: Seq<char>,
    token: Seq<char>,
) -> bool {
    exists|i: int|
        0 <= i < list.len() && (#[trigger] list[i]).target == platform && list[i].token == token
}

/// The connections of an account; none before the first platform connects.
pub open spec fn connections_of(account: CardInfoView) -> Seq<TargetInfoView> {
    match account.connection {
        Some(list) => list,
        None => Seq::empty(),
    }
}

/// What connecting `platform` gives: the account afterwards, the token that
/// the platform holds, and whether it held one before. A platform that is
/// connected keeps its token; another gets the fresh one.
pub open spec fn connected(account: CardInfoView, platform: Seq<char>, fresh: Seq<char>) -> (
    CardInfoView,
    Seq<char>,
    bool,
) {
    let list = connections_of(account);
    if has_platform(list, platform) {
        (account, stored_token(list, platform), true)
    } else {
        (
            CardInfoView {
                connection: Some(list.push(TargetInfoView { target: platform, token: fresh })),
                ..account
            },
            fresh,
            false,
        )
    }
}

/// Whether `platform` may act on the account with `token`, and if not, why.
pub open spec fn verified(account: CardInfoView, platform: Seq<char>, token: Seq<char>) -> Result<
    (),
    AuthError,
> {
    match account.connection {
        None => Err(AuthError::NotConnected),
        Some(list) => if !has_platform(list, platform) {
            Err(AuthError::UnknownPlatform)
        } else if !has_connection(list, platform, token) {
            Err(AuthError::TokenMismatch)
        } else {
            Ok(())
        },
    }
}

/// The account that `platform` may act on with `token`, and if none, why.
pub open spec fn authorized(
    accounts: Map<u64, CardInfoView>,
    holder: Seq<char>,
    platform: Seq<char>,
    token: Seq<char>,
) -> Result<u64, AuthError> {
    match account_id(accounts, holder) {
        None => Err(AuthError::NoSuchAccount),
        Some(id) => match verified(accounts[id], platform, token) {
            Ok(_) => Ok(id),
            Err(e) => Err(e),
        },
    }
}

/// The first connection for a platform is the only first one.
pub proof fn lemma_first_for_unique(list: Seq<TargetInfoView>, platform: Seq<char>, a: int, b: int)
    requires
        is_first_for(list, platform, a),
        is_first_for(list, platform, b),
    ensures
        a == b,
{
    if a < b {
        assert(list[a].target != platform);
    } else if b < a {
        assert(list[b].target != platform);
    }
}

/// The stored token of a platform is the token of its first connection.
pub proof fn lemma_stored_token_is_first(list: Seq<TargetInfoView>, platform: Seq<char>, i: int)
    requires
        is_first_for(list, platform, i),
    ensures
        has_platform(list, platform),
        stored_token(list, platform) == list[i].token,
{
    lemma_first_for_unique(list, platform, choose|k: int| is_first_for(list, platform, k), i);
}

/// The outcome of connecting a platform.
#[derive(Clone, Debug, PartialEq, Eq)]
pub struct Connected {
    /// Whether the platform held a token before.
    pub existed: bool,
    /// The token that the platform holds.
    pub token: String,
}

/// Whether the store has an account under `key` that bears the holder's name.
pub fn account_under(card_map: &HashMap<u64, CardInfo>, key: u64, card_holder: &str) -> (r: bool)
    ensures
        r == holds_account(accounts_view(card_map@), key, card_holder@),
{
    match card_map.get(&key) {
        Some(card) => {
            let holder = card_holder.to_owned();
            card.card_holder == holder
        },
        None => false,
    }
}

/// Looks the holder's account up in the store, under the hash of the holder's
/// name.
pub fn find_account(card_map: &HashMap<u64, CardInfo>, card_holder: &str) -> (r: Option<u64>)
    ensures
        r == account_id(accounts_view(card_map@), card_holder@),
        r matches Some(id) ==> card_map@.contains_key(id),
{
    let id = hash_str_to_u64(card_holder);
    if account_under(card_map, id, card_holder) {
        Some(id)
    } else {
        None
    }
}

/// The place of the first connection for `target` in the list.
pub fn find_connection(list: &Vec<TargetInfo>, target: &String) -> (r: Option<usize>)
    ensures
        (match r {
            Some(i) => is_first_for(connections_view(list@), target@, i as int),
            None => !has_platform(connections_view(list@), target@),
        }),
{
    let mut i: usize = 0;
    while i < list.len()
        invariant
            i <= list.len(),
            forall|j: int| 0 <= j < i ==> (#[trigger] connections_view(list@)[j]).target != target@,
        decreases list.len() - i,
    {
        if list[i].target == *target {
            return Some(i);
        }
        i = i + 1;
    }
    None
}

/// Connects a platform to the account. A platform that is connected keeps
/// its token, which is returned, and the account stays as it is; another is
/// added to the account with the token `token`.
pub fn connect_account(card: &mut CardInfo, target: String, token: String) -> (r: Connected)
    ensures
        final(card)@ == connected(old(card)@, target@, token@).0,
        r.token@ == connected(old(card)@, target@, token@).1,
        r.existed == connected(old(card)@, target@, token@).2,
        r.existed ==> *final(card) == *old(card),
{
    match &card.connection {
        Some(list) => {
            match find_connection(list, &target) {
                Some(i) => {
                    proof {
                        lemma_stored_token_is_first(connections_view(list@), target@, i as int);
                    }
                    return Connected { existed: true, token: list[i].token.clone() };
                },
                None => {},
            }
        },
        None => {
            assert(!has_platform(Seq::<TargetInfoView>::empty(), target@));
        },
    }
    let mut list = match card.connection.take() {
        Some(list) => list,
        None => Vec::new(),
    };
    let ghost before = connections_view(list@);
    let kept = token.clone();
    list.push(TargetInfo { target, token });
    assert(connections_view(list@) =~= before.push(
        TargetInfoView { target: target@, token: token@ },
    ));
    assert(before =~= connections_of(old(card)@));
    card.connection = Some(list);
    Connected { existed: false, token: kept }
}

/// Checks that the platform may act on the account with the token.
pub fn verify_connection(card: &CardInfo, target: &str, token: &str) -> (r: Result<(), AuthError>)
    ensures
        r == verified(card@, target@, token@),
{
    let list = match &card.connection {
        Some(list) => list,
        None => {
            return Err(AuthError::NotConnected);
        },
    };
    let platform = target.to_owned();
    let presented = token.to_owned();
    let mut seen_platform = false;
    let mut i: usize = 0;
    while i < list.len()
        invariant
            i <= list.len(),
            card@.connection == Some(connections_view(list@)),
            platform@ == target@,
            presented@ == token@,
            seen_platform <==> exists|j: int|
                0 <= j < i && (#[trigger] connections_view(list@)[j]).target == target@,
            forall|j: int|
                0 <= j < i ==> !((#[trigger] connections_view(list@)[j]).target == target@
                    && connections_view(list@)[j].token == token@),
        decreases list.len() - i,
    {
        if list[i].target == platform {
            assert(connections_view(list@)[i as int].target == target@);
            if list[i].token == presented {
                assert(connections_view(list@)[i as int].token == token@);
                return Ok(());
            }
            seen_platform = true;
        }
        i = i + 1;
    }
    if seen_platform {
        Err(AuthError::TokenMismatch)
    } else {
        Err(AuthError::UnknownPlatform)
    }
}

/// Finds the holder's account and checks that the platform may act on it with
/// the token. Returns the account's key in the store.
pub fn get_verified_card(
    card_map: &HashMap<u64, CardInfo>,
    card_holder: &str,
    target: &str,
    token: &str,
) -> (r: Result<u64, AuthError>)
    ensures
        r == authorized(accounts_view(card_map@), card_holder@, target@, token@),
        r matches Ok(id) ==> card_map@.contains_key(id),
{
    let id = match find_account(card_map, card_holder) {
        Some(id) => id,
        None => {
            return Err(AuthError::NoSuchAccount);
        },
    };
    let card = match card_map.get(&id) {
        Some(card) => card,
        None => {
            return Err(AuthError::NoSuchAccount);
        },
    };
    match verify_connection(card, target, token) {
        Ok(_) => Ok(id),
        Err(e) => Err(e),
    }
}

/// The token that the account would get at time `now`.
pub open spec fn fresh_token(account: CardInfoView, secret: Seq<char>, now: u64) -> Seq<char> {
    token_text(
        secret,
        payload_text(
            decimal_text(account.card_number as nat),
            decimal_text(account.good_thru as nat),
            decimal_text(account.verify_number as nat),
            now,
        ),
    )
}

/// The store, the token and whether the platform was connected before, after
/// the platform asked to be connected to the holder's account.
pub open spec fn connect_spec(
    accounts: Map<u64, CardInfoView>,
    holder: Seq<char>,
    platform: Seq<char>,
    secret: Seq<char>,
    now: u64,
) -> Result<(Map<u64, CardInfoView>, Seq<char>, bool), AuthError> {
    match account_id(accounts, holder) {
        None => Err(AuthError::NoSuchAccount),
        Some(id) => {
            let outcome = connected(accounts[id], platform, fresh_token(accounts[id], secret, now));
            Ok((accounts.insert(id, outcome.0), outcome.1, outcome.2))
        },
    }
}

/// Connects a platform to the holder's account and returns the platform's
/// token: the one it held, or a new one signed with `secret` at time `now`.
pub fn connect_verify(
    target: TargetVerify,
    secret: &str,
    now: u64,
    card_map: &mut HashMap<u64, CardInfo>,
) -> (r: Result<Connected, AuthError>)
    ensures
        (match connect_spec(
            accounts_view(old(card_map)@),
            target.card_holder@,
            target.target@,
            secret@,
            now,
        ) {
            Ok((accounts, token, existed)) => {
                &&& r matches Ok(c)
                &&& c.token@ == token
                &&& c.existed == existed
                &&& accounts_view(final(card_map)@) == accounts
                &&& existed ==> accounts_view(final(card_map)@) == accounts_view(old(card_map)@)
            },
            Err(e) => {
                &&& r matches Err(x)
                &&& x == e
                &&& *final(card_map) == *old(card_map)
            },
        }),
{
    let id = match find_account(card_map, target.card_holder.as_str()) {
        Some(id) => id,
        None => {
            return Err(AuthError::NoSuchAccount);
        },
    };
    let mut card = match card_map.remove(&id) {
        Some(card) => card,
        None => {
            return Err(AuthError::NoSuchAccount);
        },
    };
    let card_number = decimal_string(card.card_number);
    let good_thru = decimal_string(card.good_thru as u64);
    let verify_number = decimal_string(card.verify_number as u64);
    let token = generate_token(
        secret,
        card_number.as_str(),
        good_thru.as_str(),
        verify_number.as_str(),
        now,
    );
    let ghost before = card@;
    let outcome = connect_account(&mut card, target.target, token);
    card_map.insert(id, card);
    proof {
        let accounts = accounts_view(old(card_map)@);
        assert(before == accounts[id]);
        assert(accounts_view(card_map@) =~= accounts.insert(id, card@));
        if outcome.existed {
            assert(accounts.insert(id, card@) =~= accounts);
        }
    }
    Ok(outcome)
}

} // verus!
