use staker::address::Address;
use staker::authority::DerivedAuthority;
use staker::config::{
    VaultConfig, ESCROW_ACCOUNT_SPACE, MYSPL_MINT_ADDRESS, PROGRAM_ID, REWARD_MINT_ADDRESS,
};
use staker::error::VaultError;

const PROGRAM: [u8; 32] = [
    28, 169, 220, 134, 252, 67, 148, 171, 207, 59, 49, 7, 125, 255, 254, 171, 89, 105, 219, 241,
    16, 190, 39, 218, 1, 20, 33, 15, 4, 42, 15, 67,
];

const REWARD: [u8; 32] = [
    73, 212, 133, 74, 157, 59, 74, 200, 254, 166, 14, 125, 9, 3, 199, 145, 128, 97, 160, 79, 100,
    117, 103, 124, 182, 96, 116, 65, 216, 24, 95, 112,
];

const PRINCIPAL: [u8; 32] = [
    86, 58, 65, 23, 153, 11, 215, 132, 109, 117, 104, 78, 141, 255, 67, 203, 147, 120, 143, 161,
    253, 15, 175, 202, 146, 106, 233, 43, 235, 135, 192, 38,
];

const MINT_AUTHORITY: [u8; 32] = [
    51, 145, 52, 13, 2, 198, 253, 54, 90, 95, 44, 216, 92, 129, 95, 217, 22, 65, 41, 120, 111, 171,
    6, 210, 253, 28, 233, 139, 227, 124, 40, 81,
];

const MINT_AUTHORITY_AT_250: [u8; 32] = [
    159, 165, 18, 220, 54, 15, 237, 4, 55, 62, 111, 7, 18, 107, 108, 153, 92, 57, 214, 225, 152,
    175, 149, 96, 102, 0, 141, 22, 65, 87, 101, 25,
];

const ESCROW: [u8; 32] = [
    148, 29, 61, 216, 98, 15, 49, 187, 23, 127, 39, 123, 199, 60, 94, 8, 183, 247, 63, 61, 93, 72,
    91, 62, 253, 132, 116, 33, 55, 36, 171, 51,
];

const ESCROW_AT_254: [u8; 32] = [
    99, 175, 143, 159, 23, 154, 141, 29, 203, 67, 127, 169, 203, 21, 147, 46, 203, 87, 246, 19,
    244, 63, 252, 117, 99, 81, 183, 144, 138, 65, 18, 185,
];

#[test]
fn address_keeps_its_bytes() {
    let address = Address::new(REWARD);
    assert_eq!(address.to_bytes(), REWARD);
    assert_eq!(address.bytes, REWARD);
}

#[test]
fn same_compares_every_byte() {
    let a = Address::new(REWARD);
    let mut other = REWARD;
    other[31] ^= 1;
    assert!(a.same(&Address::new(REWARD)));
    assert!(!a.same(&Address::new(other)));
    let mut first = REWARD;
    first[0] ^= 0x80;
    assert!(!a.same(&Address::new(first)));
    assert!(!a.same(&Address::new(PRINCIPAL)));
}

#[test]
fn from_base58_decodes_32_bytes() {
    assert_eq!(Address::from_base58(REWARD_MINT_ADDRESS), Some(Address::new(REWARD)));
    assert_eq!(Address::from_base58(MYSPL_MINT_ADDRESS), Some(Address::new(PRINCIPAL)));
    assert_eq!(Address::from_base58(PROGRAM_ID), Some(Address::new(PROGRAM)));
    assert_eq!(
        Address::from_base58("11111111111111111111111111111111"),
        Some(Address::new([0u8; 32]))
    );
    let mut last = [0u8; 32];
    last[31] = 1;
    assert_eq!(
        Address::from_base58("11111111111111111111111111111112"),
        Some(Address::new(last))
    );
}

#[test]
fn from_base58_rejects_what_is_no_address() {
    assert_eq!(Address::from_base58(""), None);
    assert_eq!(Address::from_base58("1"), None);
    assert_eq!(Address::from_base58("abc"), None);
    // 31 bytes, 33 bytes
    assert_eq!(Address::from_base58("5yCiYccC6xiv7s4yPHo4ESgHjBsXh1ySuwZr9Z1oL5"), None);
    assert_eq!(Address::from_base58("5yCiYccC6xiv7s4yPHo4ESgHjBsXh1ySuwZr9Z1oL5v77"), None);
    assert_eq!(Address::from_base58("zzzzzzzzzzzzzzzzzzzzzzzzzzzzzzzzzzzzzzzzzzzz"), None);
    // `0`, `O`, `I` and `l` are no base58 digits
    assert_eq!(Address::from_base58("0yCiYccC6xiv7s4yPHo4ESgHjBsXh1ySuwZr9Z1oL5v7"), None);
    assert_eq!(Address::from_base58("5yCiYccC6xiv7s4yPHo4ESgHjBsXh1ySuwZr9Z1oL5vl"), None);
}

#[test]
fn deployed_config_decodes_the_three_constants() {
    let config = VaultConfig::deployed().expect("the constants are addresses");
    assert_eq!(config.program_id, Address::new(PROGRAM));
    assert_eq!(config.principal_token_id, Address::new(PRINCIPAL));
    assert_eq!(config.reward_token_id, Address::new(REWARD));
}

#[test]
fn resolve_decodes_base58() {
    let ones = "11111111111111111111111111111111";
    let config = VaultConfig::resolve(ones, MYSPL_MINT_ADDRESS, REWARD_MINT_ADDRESS)
        .expect("three addresses");
    assert_eq!(config.program_id, Address::new([0u8; 32]));
    assert_eq!(config.principal_token_id.to_bytes(), PRINCIPAL);
    assert_eq!(config.reward_token_id.to_bytes(), REWARD);
}

#[test]
fn resolve_rejects_what_is_no_address() {
    // a character outside the base58 alphabet
    assert_eq!(VaultConfig::resolve("0OIl", MYSPL_MINT_ADDRESS, REWARD_MINT_ADDRESS), None);
    // base58, but not of 32 bytes
    assert_eq!(VaultConfig::resolve(PROGRAM_ID, "abc", REWARD_MINT_ADDRESS), None);
    assert_eq!(VaultConfig::resolve(PROGRAM_ID, MYSPL_MINT_ADDRESS, ""), None);
    // longer than any encoded address
    let long = "5yCiYccC6xiv7s4yPHo4ESgHjBsXh1ySuwZr9Z1oL5v75yCiYccC6xiv7s4yPHo4ESgHjBsXh1ySuwZr9Z1oL5v7";
    assert_eq!(VaultConfig::resolve(PROGRAM_ID, MYSPL_MINT_ADDRESS, long), None);
}

#[test]
fn resolve_rejects_one_token_in_both_roles() {
    assert_eq!(VaultConfig::resolve(PROGRAM_ID, MYSPL_MINT_ADDRESS, MYSPL_MINT_ADDRESS), None);
    assert_eq!(
        VaultConfig::new(Address::new(PROGRAM), Address::new(REWARD), Address::new(REWARD)),
        None
    );
}

#[test]
fn new_keeps_the_identities() {
    let config =
        VaultConfig::new(Address::new(PROGRAM), Address::new(PRINCIPAL), Address::new(REWARD))
            .expect("two tokens");
    assert_eq!(config.program_id.to_bytes(), PROGRAM);
    assert_eq!(config.principal_token_id.to_bytes(), PRINCIPAL);
    assert_eq!(config.reward_token_id.to_bytes(), REWARD);
    assert_eq!(Some(config), VaultConfig::deployed());
}

#[test]
fn escrow_account_space_is_one_ledger_record() {
    assert_eq!(ESCROW_ACCOUNT_SPACE, 165);
}

#[test]
fn derive_matches_a_known_address() {
    // seed "SeedPubey1111111111111111111111111111111111", bump 1, under
    // "BPFLoaderUpgradeab1e11111111111111111111111":
    // "976ymqVnfE32QFe6NfGDctSvVa36LWnvYxhU6G2232YL"
    let config = VaultConfig::resolve(
        "BPFLoaderUpgradeab1e11111111111111111111111",
        "SeedPubey1111111111111111111111111111111111",
        REWARD_MINT_ADDRESS,
    )
    .expect("three addresses");
    let expected = VaultConfig::resolve(
        PROGRAM_ID,
        "976ymqVnfE32QFe6NfGDctSvVa36LWnvYxhU6G2232YL",
        REWARD_MINT_ADDRESS,
    )
    .expect("three addresses")
    .principal_token_id;
    let derived = DerivedAuthority::derive(&config.principal_token_id, 1, &config.program_id)
        .expect("bump 1 derives an address");
    assert_eq!(derived.seed, config.principal_token_id);
    assert_eq!(derived.bump, 1);
    assert_eq!(derived.address, expected);
}

#[test]
fn derive_is_not_the_identity() {
    let seed = Address::new(REWARD);
    let program = Address::new(PROGRAM);
    let derived = DerivedAuthority::derive(&seed, 253, &program).expect("bump 253 derives");
    assert_eq!(derived.address.to_bytes(), MINT_AUTHORITY);
    assert_ne!(derived.address, seed);
    assert_ne!(derived.address, program);
}

#[test]
fn derive_gives_nothing_where_the_hash_is_on_the_curve() {
    let seed = Address::new(REWARD);
    let program = Address::new(PROGRAM);
    assert_eq!(DerivedAuthority::derive(&seed, 255, &program), None);
    assert_eq!(DerivedAuthority::derive(&seed, 254, &program), None);
    assert_eq!(DerivedAuthority::derive(&Address::new(PRINCIPAL), 252, &program), None);
}

#[test]
fn derive_depends_on_the_bump() {
    let seed = Address::new(REWARD);
    let program = Address::new(PROGRAM);
    let at_250 = DerivedAuthority::derive(&seed, 250, &program).expect("bump 250 derives");
    assert_eq!(at_250.address.to_bytes(), MINT_AUTHORITY_AT_250);
    let escrow_254 =
        DerivedAuthority::derive(&Address::new(PRINCIPAL), 254, &program).expect("bump 254");
    assert_eq!(escrow_254.address.to_bytes(), ESCROW_AT_254);
}

#[test]
fn find_takes_the_highest_bump_that_derives() {
    let program = Address::new(PROGRAM);
    let mint = DerivedAuthority::find(&Address::new(REWARD), &program).expect("a bump exists");
    assert_eq!(
        mint,
        DerivedAuthority {
            seed: Address::new(REWARD),
            bump: 253,
            address: Address::new(MINT_AUTHORITY),
        }
    );
    let escrow = DerivedAuthority::find(&Address::new(PRINCIPAL), &program).expect("a bump exists");
    assert_eq!(
        escrow,
        DerivedAuthority {
            seed: Address::new(PRINCIPAL),
            bump: 255,
            address: Address::new(ESCROW),
        }
    );
}

#[test]
fn find_agrees_with_derive_on_every_bump() {
    let program = Address::new(PROGRAM);
    let seeds = [Address::new(REWARD), Address::new(PRINCIPAL), Address::new([0u8; 32])];
    for seed in seeds.iter() {
        let found = DerivedAuthority::find(seed, &program).expect("a bump exists");
        assert!(found.bump >= 1);
        assert_eq!(DerivedAuthority::derive(seed, found.bump, &program), Some(found));
        let mut higher = found.bump;
        while higher < 255 {
            higher += 1;
            assert_eq!(DerivedAuthority::derive(seed, higher, &program), None);
        }
    }
}

#[test]
fn config_finds_both_authorities() {
    let config = VaultConfig::deployed().expect("the constants are addresses");
    let mint = config.mint_authority().expect("a bump exists");
    assert_eq!(mint.seed, config.reward_token_id);
    assert_eq!(mint.bump, 253);
    assert_eq!(mint.address.to_bytes(), MINT_AUTHORITY);
    let escrow = config.escrow_authority().expect("a bump exists");
    assert_eq!(escrow.seed, config.principal_token_id);
    assert_eq!(escrow.bump, 255);
    assert_eq!(escrow.address.to_bytes(), ESCROW);
}

#[test]
fn rederiving_a_registered_pair_gives_the_same_address() {
    let program = Address::new(PROGRAM);
    let seed = Address::new(REWARD);
    let registered = DerivedAuthority::find(&seed, &program).expect("a bump exists");
    for _ in 0..3 {
        assert_eq!(DerivedAuthority::derive(&seed, registered.bump, &program), Some(registered));
        assert_eq!(
            DerivedAuthority::verify(&seed, registered.bump, &program, &registered.address),
            Ok(registered)
        );
    }
}

#[test]
fn every_other_bump_is_rejected_with_authority_mismatch() {
    let program = Address::new(PROGRAM);
    for seed in [Address::new(REWARD), Address::new(PRINCIPAL)].iter() {
        let registered = DerivedAuthority::find(seed, &program).expect("a bump exists");
        let mut bump: u8 = 0;
        loop {
            let checked = DerivedAuthority::verify(seed, bump, &program, &registered.address);
            if bump == registered.bump {
                assert_eq!(checked, Ok(registered));
            } else {
                assert_eq!(checked, Err(VaultError::AuthorityMismatch));
            }
            if bump == 255 {
                break;
            }
            bump += 1;
        }
    }
}

#[test]
fn verify_rejects_an_address_that_the_bump_does_not_derive() {
    let program = Address::new(PROGRAM);
    let seed = Address::new(REWARD);
    // bump 250 derives an address, but not the one named
    assert_eq!(
        DerivedAuthority::verify(&seed, 250, &program, &Address::new(MINT_AUTHORITY)),
        Err(VaultError::AuthorityMismatch)
    );
    // named with its own address, bump 250 is accepted as what it is
    assert_eq!(
        DerivedAuthority::verify(&seed, 250, &program, &Address::new(MINT_AUTHORITY_AT_250)),
        Ok(DerivedAuthority { seed, bump: 250, address: Address::new(MINT_AUTHORITY_AT_250) })
    );
    // a bump that derives nothing fits no address
    assert_eq!(
        DerivedAuthority::verify(&seed, 255, &program, &Address::new(MINT_AUTHORITY)),
        Err(VaultError::AuthorityMismatch)
    );
    // the right bump under another program
    assert_eq!(
        DerivedAuthority::verify(&seed, 253, &Address::new(PRINCIPAL), &Address::new(MINT_AUTHORITY)),
        Err(VaultError::AuthorityMismatch)
    );
}
