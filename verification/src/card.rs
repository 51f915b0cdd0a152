//! Card numbers, expiry dates and verification codes, each drawn from a
//! generator that the seed alone determines, and the identity of a holder.

use vstd::prelude::*;
use vstd::std_specs::hash::DefaultHasherAdditionalSpecFns;
use std::hash::{DefaultHasher, Hash, Hasher};
use rand::{Rng, SeedableRng};
use rand_chacha::ChaCha8Rng;
use crate::decimal::{pow10, Decimal};
use crate::structure::{CardInfo, CardInfoView};

verus! {

/// Issuer prefix: the first four digits of every card number.
pub const CARD_ISSUER: u64 = 4878;

/// What follows the issuer prefix has this many digits.
pub const CARD_TAIL_DIGITS: u32 = 12;

/// `10^12`: one more than the largest tail of a card number.
pub const CARD_TAIL_LIMIT: u64 = 1_000_000_000_000;

/// What hashing a string writes into a hasher, write by write.
pub uninterp spec fn str_writes(s: Seq<char>) -> Seq<Seq<u8>>;

/// The hash that identifies a holder: what a `DefaultHasher` made by `new`
/// gives for the holder's name.
pub open spec fn str_hash(s: Seq<char>) -> u64 {
    DefaultHasher::spec_finish(str_writes(s))
}

/// The first number that a ChaCha8 generator seeded with `seed` yields when
/// asked for one in `lower..upper`.
pub uninterp spec fn seeded_draw(seed: u64, lower: u64, upper: u64) -> u64;

/// The first two numbers that a ChaCha8 generator seeded with `seed` yields
/// when asked for one in `first_lower..first_upper` and then for one in
/// `second_lower..second_upper`.
pub uninterp spec fn seeded_draw_pair(
    seed: u64,
    first_lower: u16,
    first_upper: u16,
    second_lower: i32,
    second_upper: i32,
) -> (u16, i32);

/// Calls `hash` of `std`'s `impl Hash for str`, which feeds the hasher what
/// the string alone determines: the writes that [`str_writes`] names.
#[verifier::external_body]
fn feed_str(hasher: &mut DefaultHasher, s: &str)
    ensures
        final(hasher)@ == old(hasher)@ + str_writes(s@),
{
    s.hash(hasher);
}

/// The hash of a string under `DefaultHasher::new()`, whose keys are fixed: the
/// same string gives the same number in every process.
pub fn hash_str_to_u64(s: &str) -> (h: u64)
    ensures
        h == str_hash(s@),
{
    let mut hasher = DefaultHasher::new();
    feed_str(&mut hasher, s);
    assert(hasher@ =~= str_writes(s@));
    hasher.finish()
}

/// Seeds `rand_chacha::ChaCha8Rng` with the seed's little-endian bytes followed
/// by zeros and calls `random_range` once. The number lies in the range and is
/// the one that [`seeded_draw`] names.
#[verifier::external_body]
fn draw_in_range(seed: u64, lower: u64, upper: u64) -> (r: u64)
    requires
        lower < upper,
    ensures
        lower <= r < upper,
        r == seeded_draw(seed, lower, upper),
{
    let mut seed_bytes = [0u8; 32];
    seed_bytes[..8].copy_from_slice(&seed.to_le_bytes());
    let mut rng = ChaCha8Rng::from_seed(seed_bytes);
    rng.random_range(lower..upper)
}

/// Seeds `rand_chacha::ChaCha8Rng` as [`draw_in_range`] does and calls
/// `random_range` twice, first for a `u16`, then for an `i32`. Each number lies
/// in its range; the pair is the one that [`seeded_draw_pair`] names.
#[verifier::external_body]
fn draw_pair_in_ranges(
    seed: u64,
    first_lower: u16,
    first_upper: u16,
    second_lower: i32,
    second_upper: i32,
) -> (r: (u16, i32))
    requires
        first_lower < first_upper,
        second_lower < second_upper,
    ensures
        first_lower <= r.0 < first_upper,
        second_lower <= r.1 < second_upper,
        r == seeded_draw_pair(seed, first_lower, first_upper, second_lower, second_upper),
{
    let mut seed_bytes = [0u8; 32];
    seed_bytes[..8].copy_from_slice(&seed.to_le_bytes());
    let mut rng = ChaCha8Rng::from_seed(seed_bytes);
    let first: u16 = rng.random_range(first_lower..first_upper);
    let second: i32 = rng.random_range(second_lower..second_upper);
    (first, second)
}

/// The powers of ten that fit in 64 bits.
pub proof fn lemma_pow10_values()
    ensures
        pow10(0) == 1,
        pow10(1) == 10,
        pow10(2) == 100,
        pow10(3) == 1_000,
        pow10(4) == 10_000,
        pow10(5) == 100_000,
        pow10(6) == 1_000_000,
        pow10(7) == 10_000_000,
        pow10(8) == 100_000_000,
        pow10(9) == 1_000_000_000,
        pow10(10) == 10_000_000_000,
        pow10(11) == 100_000_000_000,
        pow10(12) == 1_000_000_000_000,
        pow10(13) == 10_000_000_000_000,
        pow10(14) == 100_000_000_000_000,
        pow10(15) == 1_000_000_000_000_000,
        pow10(16) == 10_000_000_000_000_000,
        pow10(17) == 100_000_000_000_000_000,
        pow10(18) == 1_000_000_000_000_000_000,
        pow10(19) == 10_000_000_000_000_000_000,
{
    reveal_with_fuel(pow10, 21);
}

/// `10^e`, for the exponents whose power fits in 64 bits.
pub fn power_of_ten(e: u32) -> (p: u64)
    requires
        e <= 19,
    ensures
        p == pow10(e as nat),
{
    let mut p: u64 = 1;
    let mut i: u32 = 0;
    while i < e
        invariant
            i <= e <= 19,
            p == pow10(i as nat),
        decreases e - i,
    {
        proof {
            lemma_pow10_values();
        }
        p = p * 10;
        i = i + 1;
    }
    p
}

/// A number of exactly `digits` decimal digits, determined by the seed.
pub fn generate_n_digit(seed: u64, digits: u32) -> (r: u64)
    requires
        1 <= digits <= 19,
    ensures
        pow10((digits - 1) as nat) <= r < pow10(digits as nat),
        r == seeded_draw(seed, pow10((digits - 1) as nat) as u64, pow10(digits as nat) as u64),
{
    let lower = power_of_ten(digits - 1);
    let upper = power_of_ten(digits);
    proof {
        lemma_pow10_values();
    }
    draw_in_range(seed, lower, upper)
}

/// The expiry `yymm` for a year and a month.
pub open spec fn yymm_of(year: u16, month: i32) -> int {
    year * 100 + month
}

/// Packs a two-digit year and a month into `yymm`.
pub fn pack_yymm(year: u16, month: i32) -> (r: u16)
    requires
        year < 100,
        1 <= month <= 12,
    ensures
        r == yymm_of(year, month),
        r / 100 == year,
        r % 100 == month,
{
    year * 100 + month as u16
}

/// An expiry `yymm`, determined by the seed: a year from 20 to 99 and a month
/// from 1 to 12.
pub fn generate_yymm(seed: u64) -> (r: u16)
    ensures
        r == yymm_of(
            seeded_draw_pair(seed, 20, 100, 1, 13).0,
            seeded_draw_pair(seed, 20, 100, 1, 13).1,
        ),
        20 <= r / 100 < 100,
        1 <= r % 100 <= 12,
{
    let (year, month) = draw_pair_in_ranges(seed, 20, 100, 1, 13);
    pack_yymm(year, month)
}

/// The card number with the tail `tail` behind the issuer prefix.
pub open spec fn card_number_of(tail: u64) -> int {
    CARD_ISSUER * CARD_TAIL_LIMIT + tail
}

/// Puts the issuer prefix in front of a twelve-digit tail.
pub fn with_issuer(tail: u64) -> (r: u64)
    requires
        tail < CARD_TAIL_LIMIT,
    ensures
        r == card_number_of(tail),
        r / CARD_TAIL_LIMIT == CARD_ISSUER,
        r % CARD_TAIL_LIMIT == tail,
{
    CARD_ISSUER * CARD_TAIL_LIMIT + tail
}

/// The tail that the seed gives a card number.
pub open spec fn card_tail(mixture: u64) -> u64 {
    seeded_draw(mixture, 100_000_000_000, 1_000_000_000_000)
}

/// A sixteen-digit card number: the issuer prefix, then twelve digits that
/// the seed determines.
pub fn gen_card_num(mixture: u64) -> (r: u64)
    ensures
        r == card_number_of(card_tail(mixture)),
        r / CARD_TAIL_LIMIT == CARD_ISSUER,
        100_000_000_000 <= r % CARD_TAIL_LIMIT,
{
    proof {
        lemma_pow10_values();
    }
    let card_last12 = generate_n_digit(mixture, CARD_TAIL_DIGITS);
    with_issuer(card_last12)
}

/// A card with the given numbers and nothing on it yet: the balance is zero,
/// no platform is connected and no transaction is recorded.
pub open spec fn blank_card(
    scheme: Seq<char>,
    card_type: Seq<char>,
    id: Seq<char>,
    card_number: u64,
    good_thru: u16,
    verify_number: u16,
) -> CardInfoView {
    CardInfoView {
        card_holder: id,
        card_number,
        good_thru,
        verify_number,
        scheme,
        card_type,
        balance: (0, 0),
        connection: None,
        transaction: None,
    }
}

/// The card that the seed `mixture` gives the holder `id`.
pub open spec fn issued_card(
    scheme: Seq<char>,
    card_type: Seq<char>,
    mixture: u64,
    id: Seq<char>,
) -> CardInfoView {
    blank_card(
        scheme,
        card_type,
        id,
        card_number_of(card_tail(mixture)) as u64,
        yymm_of(
            seeded_draw_pair(mixture, 20, 100, 1, 13).0,
            seeded_draw_pair(mixture, 20, 100, 1, 13).1,
        ) as u16,
        seeded_draw(mixture, 100, 1000) as u16,
    )
}

/// Makes the card of the holder `id` from its numbers.
pub fn issue_card(
    scheme: String,
    card_type: String,
    id: &str,
    card_number: u64,
    good_thru: u16,
    verify_number: u16,
) -> (card: CardInfo)
    ensures
        card@ == blank_card(scheme@, card_type@, id@, card_number, good_thru, verify_number),
{
    CardInfo {
        card_holder: id.to_owned(),
        card_number,
        good_thru,
        verify_number,
        scheme,
        card_type,
        balance: Decimal::zero(),
        connection: None,
        transaction: None,
    }
}

/// Issues a card to the holder `id`: number, verification code and expiry
/// come from the seed, the balance is zero, and nothing is connected or
/// recorded yet.
pub fn gen_card(scheme: String, card_type: String, mixture: u64, id: &str) -> (card: CardInfo)
    ensures
        card@ == issued_card(scheme@, card_type@, mixture, id@),
        card.card_number / CARD_TAIL_LIMIT == CARD_ISSUER,
        100 <= card.verify_number < 1000,
        1 <= card.good_thru % 100 <= 12,
{
    proof {
        lemma_pow10_values();
    }
    let card_number = gen_card_num(mixture);
    let verify_number = generate_n_digit(mixture, 3);
    let good_thru = generate_yymm(mixture);
    issue_card(scheme, card_type, id, card_number, good_thru, verify_number as u16)
}

} // verus!
