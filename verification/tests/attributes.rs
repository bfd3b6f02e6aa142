use soroban_sdk::testutils::{Address as _, ContractFunctionSet, EnvTestConfig};
use soroban_sdk::{Address, Env, String, Val};
use space_stellar::attributes::{get_number, get_text, set_number, set_text};
use space_stellar::tokens::issue_token;
use space_stellar::AttributeKey;
use stellar_tokens::non_fungible::{sequential, Base};

/// A contract without entry points: a place to run the library in.
struct Bare;

impl ContractFunctionSet for Bare {
    fn call(&self, _func: &str, _env: Env, _args: &[Val]) -> Option<Val> {
        None
    }
}

fn new_env() -> Env {
    Env::new_with_config(EnvTestConfig { capture_snapshot_at_drop: false })
}

#[test]
fn attribute_symbols() {
    assert_eq!(AttributeKey::Class.symbol(), "CLASS");
    assert_eq!(AttributeKey::Rarity.symbol(), "RARITY");
    assert_eq!(AttributeKey::Tier.symbol(), "TIER");
    assert_eq!(AttributeKey::Attack.symbol(), "ATTACK");
    assert_eq!(AttributeKey::Speed.symbol(), "SPEED");
    assert_eq!(AttributeKey::Shield.symbol(), "SHIELD");
    assert_eq!(AttributeKey::IpfsCid.symbol(), "IPFS_CID");
    assert_eq!(AttributeKey::MetadataUri.symbol(), "METADATA_URI");
}

#[test]
fn a_free_slot_reads_as_none() {
    let env = new_env();
    let contract = env.register(Bare, ());
    env.as_contract(&contract, || {
        assert_eq!(get_text(&env, AttributeKey::Class, 7), None);
        assert_eq!(get_number(&env, AttributeKey::Attack, 7), None);
    });
}

#[test]
fn a_record_reads_back() {
    let env = new_env();
    let contract = env.register(Bare, ());
    env.as_contract(&contract, || {
        let mut e = env.clone();
        set_text(&mut e, AttributeKey::Class, 7, &String::from_str(&env, "Fighter"));
        set_number(&mut e, AttributeKey::Attack, 7, 10);
        assert_eq!(get_text(&env, AttributeKey::Class, 7), Some(String::from_str(&env, "Fighter")));
        assert_eq!(get_number(&env, AttributeKey::Attack, 7), Some(10));
    });
}

#[test]
fn the_last_write_wins() {
    let env = new_env();
    let contract = env.register(Bare, ());
    env.as_contract(&contract, || {
        let mut e = env.clone();
        set_text(&mut e, AttributeKey::Tier, 1, &String::from_str(&env, "Elite"));
        set_text(&mut e, AttributeKey::Tier, 1, &String::from_str(&env, "Master"));
        set_number(&mut e, AttributeKey::Speed, 1, 8);
        set_number(&mut e, AttributeKey::Speed, 1, 9);
        assert_eq!(get_text(&env, AttributeKey::Tier, 1), Some(String::from_str(&env, "Master")));
        assert_eq!(get_number(&env, AttributeKey::Speed, 1), Some(9));
    });
}

#[test]
fn slots_are_told_apart_by_attribute_and_token() {
    let env = new_env();
    let contract = env.register(Bare, ());
    env.as_contract(&contract, || {
        let mut e = env.clone();
        set_text(&mut e, AttributeKey::Class, 1, &String::from_str(&env, "Fighter"));
        set_text(&mut e, AttributeKey::Rarity, 1, &String::from_str(&env, "Common"));
        set_text(&mut e, AttributeKey::Class, 2, &String::from_str(&env, "Bomber"));
        set_number(&mut e, AttributeKey::Attack, 1, 10);
        set_number(&mut e, AttributeKey::Shield, 1, 12);
        assert_eq!(get_text(&env, AttributeKey::Class, 1), Some(String::from_str(&env, "Fighter")));
        assert_eq!(get_text(&env, AttributeKey::Rarity, 1), Some(String::from_str(&env, "Common")));
        assert_eq!(get_text(&env, AttributeKey::Class, 2), Some(String::from_str(&env, "Bomber")));
        assert_eq!(get_text(&env, AttributeKey::Rarity, 2), None);
        assert_eq!(get_text(&env, AttributeKey::Tier, 1), None);
        assert_eq!(get_number(&env, AttributeKey::Attack, 1), Some(10));
        assert_eq!(get_number(&env, AttributeKey::Shield, 1), Some(12));
        assert_eq!(get_number(&env, AttributeKey::Speed, 1), None);
        assert_eq!(get_number(&env, AttributeKey::Attack, 2), None);
        assert_eq!(get_text(&env, AttributeKey::Class, u128::MAX), None);
    });
}

#[test]
fn records_of_one_contract_are_not_seen_by_another() {
    let env = new_env();
    let first = env.register(Bare, ());
    let second = env.register(Bare, ());
    env.as_contract(&first, || {
        set_text(&mut env.clone(), AttributeKey::Class, 1, &String::from_str(&env, "Fighter"));
    });
    env.as_contract(&second, || {
        assert_eq!(get_text(&env, AttributeKey::Class, 1), None);
    });
    env.as_contract(&first, || {
        assert_eq!(get_text(&env, AttributeKey::Class, 1), Some(String::from_str(&env, "Fighter")));
    });
}

#[test]
fn the_first_token_is_number_one() {
    let env = new_env();
    let contract = env.register(Bare, ());
    let a = Address::generate(&env);
    let b = Address::generate(&env);
    env.as_contract(&contract, || {
        let mut e = env.clone();
        assert_eq!(sequential::next_token_id(&env), 0);
        assert_eq!(issue_token(&mut e, &a), 1);
        assert_eq!(sequential::next_token_id(&env), 2);
        assert_eq!(issue_token(&mut e, &b), 2);
        assert_eq!(issue_token(&mut e, &a), 3);
        assert_eq!(sequential::next_token_id(&env), 4);
        assert_eq!(Base::balance(&env, &a), 2);
        assert_eq!(Base::balance(&env, &b), 1);
        assert_eq!(Base::owner_of(&env, 1), a);
        assert_eq!(Base::owner_of(&env, 2), b);
        assert_eq!(Base::owner_of(&env, 3), a);
    });
}

#[test]
fn issuing_goes_on_from_where_the_counter_stands() {
    let env = new_env();
    let contract = env.register(Bare, ());
    let a = Address::generate(&env);
    env.as_contract(&contract, || {
        let mut e = env.clone();
        assert_eq!(sequential::increment_token_id(&env, 41), 0);
        assert_eq!(issue_token(&mut e, &a), 41);
        assert_eq!(issue_token(&mut e, &a), 42);
        assert_eq!(sequential::next_token_id(&env), 43);
    });
}
