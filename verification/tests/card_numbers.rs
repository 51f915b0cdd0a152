use card_ledger::card::{
    gen_card, gen_card_num, generate_n_digit, generate_yymm, hash_str_to_u64, pack_yymm,
    power_of_ten, with_issuer, CARD_ISSUER, CARD_TAIL_LIMIT,
};
use std::hash::{DefaultHasher, Hash, Hasher};

#[test]
fn power_of_ten_gives_each_power_that_fits() {
    assert_eq!(power_of_ten(0), 1);
    assert_eq!(power_of_ten(1), 10);
    assert_eq!(power_of_ten(12), 1_000_000_000_000);
    assert_eq!(power_of_ten(19), 10_000_000_000_000_000_000);
}

#[test]
fn generate_n_digit_has_exactly_that_many_digits() {
    for seed in [0u64, 1, 2, 42, 1_700_000_000, u64::MAX] {
        for digits in [1u32, 2, 3, 12, 18, 19] {
            let n = generate_n_digit(seed, digits);
            assert_eq!(n.to_string().len(), digits as usize, "seed {seed} digits {digits}");
        }
    }
}

#[test]
fn generate_n_digit_is_determined_by_the_seed() {
    assert_eq!(generate_n_digit(7, 12), generate_n_digit(7, 12));
    assert_eq!(generate_n_digit(u64::MAX, 3), generate_n_digit(u64::MAX, 3));
    let distinct = (0u64..16).map(|seed| generate_n_digit(seed, 12)).collect::<std::collections::HashSet<u64>>();
    assert!(distinct.len() > 1);
}

#[test]
fn generate_yymm_is_a_year_and_a_month() {
    for seed in [0u64, 1, 2, 3, 99, 1_700_000_000, u64::MAX] {
        let yymm = generate_yymm(seed);
        assert!((20..100).contains(&(yymm / 100)), "seed {seed} gave {yymm}");
        assert!((1..=12).contains(&(yymm % 100)), "seed {seed} gave {yymm}");
        assert_eq!(generate_yymm(seed), yymm);
    }
}

#[test]
fn pack_yymm_puts_the_year_first() {
    assert_eq!(pack_yymm(25, 12), 2512);
    assert_eq!(pack_yymm(20, 1), 2001);
    assert_eq!(pack_yymm(99, 9), 9909);
}

#[test]
fn with_issuer_prefixes_4878() {
    assert_eq!(CARD_ISSUER, 4878);
    assert_eq!(with_issuer(123_456_789_012), 4878_123_456_789_012);
    assert_eq!(with_issuer(0), 4878_000_000_000_000);
    assert_eq!(with_issuer(CARD_TAIL_LIMIT - 1), 4878_999_999_999_999);
}

#[test]
fn gen_card_num_has_sixteen_digits_behind_the_issuer() {
    for mixture in [0u64, 5, 1_700_000_123, u64::MAX] {
        let number = gen_card_num(mixture);
        assert_eq!(number / CARD_TAIL_LIMIT, 4878);
        assert!(number % CARD_TAIL_LIMIT >= 100_000_000_000);
        assert_eq!(number.to_string().len(), 16);
        assert_eq!(number, 4878 * CARD_TAIL_LIMIT + generate_n_digit(mixture, 12));
    }
}

#[test]
fn gen_card_issues_an_empty_account() {
    let card = gen_card("Visa".to_string(), "Gold".to_string(), 99, "alice#1");
    assert_eq!(card.card_holder, "alice#1");
    assert_eq!(card.scheme, "Visa");
    assert_eq!(card.card_type, "Gold");
    assert_eq!(card.card_number, gen_card_num(99));
    assert_eq!(card.verify_number as u64, generate_n_digit(99, 3));
    assert!((100..1000).contains(&card.verify_number));
    assert_eq!(card.good_thru, generate_yymm(99));
    assert_eq!(card.balance.mantissa(), 0);
    assert!(card.connection.is_none());
    assert!(card.transaction.is_none());
}

#[test]
fn gen_card_is_reproducible_from_the_seed() {
    let one = gen_card("Visa".to_string(), "Gold".to_string(), 1234, "bob");
    let two = gen_card("Visa".to_string(), "Gold".to_string(), 1234, "bob");
    assert_eq!(one, two);
}

#[test]
fn hash_str_to_u64_is_the_default_hasher() {
    let mut hasher = DefaultHasher::new();
    "alice#1".hash(&mut hasher);
    assert_eq!(hash_str_to_u64("alice#1"), hasher.finish());
    assert_eq!(hash_str_to_u64("alice#1"), hash_str_to_u64("alice#1"));
    assert_ne!(hash_str_to_u64("alice#1"), hash_str_to_u64("alice#2"));
    assert_ne!(hash_str_to_u64(""), hash_str_to_u64("a"));
}
