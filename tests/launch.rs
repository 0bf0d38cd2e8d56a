use launchpad::address::Address;
use launchpad::derivation::{derive_launch_address, derive_launch_signer, signing_proof};
use launchpad::errors::{LaunchError, LaunchpadError};
use launchpad::initialize_launch::{
    initialize_launch, InitializeLaunch, InitializeLaunchArgs, Launch, Mint, TokenVault,
    AVAILABLE_TOKENS,
};

fn program_id() -> Address {
    Address::new([7u8; 32])
}

fn fresh_mint(seed: u8) -> Mint {
    Mint {
        address: Address::new([seed; 32]),
        supply: 0,
        decimals: 6,
        mint_authority: Some(Address::new([9u8; 32])),
        freeze_authority: None,
    }
}

/// Accounts for a first attempt on `mint`, with the offered signer given.
fn accounts_with_signer(mint: Mint, signer: Address) -> InitializeLaunch {
    let (launch, _) = derive_launch_address(&mint.address, &program_id()).unwrap();
    InitializeLaunch {
        launch,
        launch_record: None,
        launch_signer: signer,
        creator: Address::new([3u8; 32]),
        token_vault: None,
        token_mint: mint,
    }
}

/// Accounts for a first attempt on `mint`, offering the derived signer.
fn honest_accounts(mint: Mint) -> InitializeLaunch {
    let (launch, _) = derive_launch_address(&mint.address, &program_id()).unwrap();
    let (signer, _) = derive_launch_signer(&launch, &program_id()).unwrap();
    accounts_with_signer(mint, signer)
}

#[test]
fn derivation_is_deterministic() {
    let launch = Address::new([42u8; 32]);
    let a = derive_launch_signer(&launch, &program_id()).unwrap();
    let b = derive_launch_signer(&launch, &program_id()).unwrap();
    assert_eq!(a, b);
    let m1 = derive_launch_address(&launch, &program_id()).unwrap();
    let m2 = derive_launch_address(&launch, &program_id()).unwrap();
    assert_eq!(m1, m2);
}

#[test]
fn derivation_depends_on_seeds_and_program() {
    let launch = Address::new([42u8; 32]);
    let (signer, _) = derive_launch_signer(&launch, &program_id()).unwrap();
    assert_ne!(signer, launch);
    assert_ne!(signer, program_id());
    let (other_launch, _) = derive_launch_signer(&Address::new([43u8; 32]), &program_id()).unwrap();
    assert_ne!(signer, other_launch);
    let (other_program, _) = derive_launch_signer(&launch, &Address::new([8u8; 32])).unwrap();
    assert_ne!(signer, other_program);
    let (record, _) = derive_launch_address(&launch, &program_id()).unwrap();
    assert_ne!(signer, record);
}

#[test]
fn validate_accepts_fresh_mint() {
    let accounts = honest_accounts(fresh_mint(1));
    assert_eq!(accounts.validate(&InitializeLaunchArgs {}), Ok(()));
}

#[test]
fn validate_rejects_supply() {
    let mut mint = fresh_mint(1);
    mint.supply = 1;
    let accounts = honest_accounts(mint);
    assert_eq!(
        accounts.validate(&InitializeLaunchArgs {}),
        Err(LaunchpadError::SupplyNonZero)
    );
}

#[test]
fn validate_rejects_freeze_authority() {
    let mut mint = fresh_mint(1);
    mint.freeze_authority = Some(Address::new([5u8; 32]));
    let accounts = honest_accounts(mint);
    assert_eq!(
        accounts.validate(&InitializeLaunchArgs {}),
        Err(LaunchpadError::FreezeAuthoritySet)
    );
}

#[test]
fn validate_checks_supply_first() {
    let mut mint = fresh_mint(1);
    mint.supply = 10;
    mint.freeze_authority = Some(Address::new([5u8; 32]));
    let accounts = honest_accounts(mint);
    assert_eq!(
        accounts.validate(&InitializeLaunchArgs {}),
        Err(LaunchpadError::SupplyNonZero)
    );
}

#[test]
fn derived_signer_is_accepted() {
    let mint = fresh_mint(2);
    let mut accounts = honest_accounts(mint);
    let before = accounts;
    let (expected, bump) = derive_launch_signer(&accounts.launch, &program_id()).unwrap();
    let proof = initialize_launch(&mut accounts, &program_id(), InitializeLaunchArgs {}).unwrap();
    assert_eq!(AVAILABLE_TOKENS, 1_000_000 * 1_000_000);
    assert_eq!(accounts.token_mint.supply, 1_000_000_000_000);
    assert_eq!(
        accounts.token_vault,
        Some(TokenVault { mint: mint.address, authority: expected, amount: 1_000_000_000_000 })
    );
    assert_eq!(accounts.launch_record, Some(Launch { launch_signer: expected }));
    assert_eq!(accounts.launch, before.launch);
    assert_eq!(proof.seeds.len(), 3);
    assert_eq!(proof.seeds[0], b"launch_signer".to_vec());
    assert_eq!(proof.seeds[1], before.launch.bytes.to_vec());
    assert_eq!(proof.seeds[2], vec![bump]);
}

#[test]
fn forged_signer_is_rejected() {
    let mint = fresh_mint(3);
    let mut accounts = accounts_with_signer(mint, Address::new([66u8; 32]));
    let before = accounts;
    let r = initialize_launch(&mut accounts, &program_id(), InitializeLaunchArgs {});
    assert_eq!(
        r.err(),
        Some(LaunchError::Launchpad(LaunchpadError::InvalidMintAuthority))
    );
    assert_eq!(accounts, before);
    assert_eq!(accounts.token_mint.supply, 0);
    assert_eq!(accounts.launch_record, None);
    assert_eq!(accounts.token_vault, None);
}

#[test]
fn signer_from_another_launch_is_rejected() {
    let mint = fresh_mint(4);
    let other = honest_accounts(fresh_mint(5));
    let mut accounts = accounts_with_signer(mint, other.launch_signer);
    let before = accounts;
    let r = initialize_launch(&mut accounts, &program_id(), InitializeLaunchArgs {});
    assert_eq!(
        r.err(),
        Some(LaunchError::Launchpad(LaunchpadError::InvalidMintAuthority))
    );
    assert_eq!(accounts, before);
}

#[test]
fn supply_is_checked_before_signer() {
    let mut mint = fresh_mint(6);
    mint.supply = 500;
    let mut accounts = accounts_with_signer(mint, Address::new([66u8; 32]));
    let before = accounts;
    let r = initialize_launch(&mut accounts, &program_id(), InitializeLaunchArgs {});
    assert_eq!(r.err(), Some(LaunchError::Launchpad(LaunchpadError::SupplyNonZero)));
    assert_eq!(accounts, before);
    assert_eq!(accounts.token_mint.supply, 500);
}

#[test]
fn freeze_authority_is_refused() {
    let mut mint = fresh_mint(7);
    mint.freeze_authority = Some(Address::new([5u8; 32]));
    let mut accounts = honest_accounts(mint);
    let before = accounts;
    let r = initialize_launch(&mut accounts, &program_id(), InitializeLaunchArgs {});
    assert_eq!(r.err(), Some(LaunchError::Launchpad(LaunchpadError::FreezeAuthoritySet)));
    assert_eq!(accounts, before);
}

#[test]
fn second_attempt_fails_and_keeps_first_mint() {
    let mut accounts = honest_accounts(fresh_mint(8));
    assert!(initialize_launch(&mut accounts, &program_id(), InitializeLaunchArgs {}).is_ok());
    let after_first = accounts;
    let r = initialize_launch(&mut accounts, &program_id(), InitializeLaunchArgs {});
    assert_eq!(r.err(), Some(LaunchError::AccountAlreadyInitialized));
    assert_eq!(accounts, after_first);
    assert_eq!(accounts.token_mint.supply, 1_000_000_000_000);
    assert_eq!(accounts.token_vault.unwrap().amount, 1_000_000_000_000);
}

#[test]
fn existing_vault_is_refused() {
    let mint = fresh_mint(9);
    let mut accounts = honest_accounts(mint);
    accounts.token_vault = Some(TokenVault {
        mint: mint.address,
        authority: accounts.launch_signer,
        amount: 0,
    });
    let before = accounts;
    let r = initialize_launch(&mut accounts, &program_id(), InitializeLaunchArgs {});
    assert_eq!(r.err(), Some(LaunchError::AccountAlreadyInitialized));
    assert_eq!(accounts, before);
}

#[test]
fn launch_record_of_another_mint_is_refused() {
    let mint = fresh_mint(10);
    let mut accounts = honest_accounts(mint);
    accounts.launch = Address::new([77u8; 32]);
    let before = accounts;
    let r = initialize_launch(&mut accounts, &program_id(), InitializeLaunchArgs {});
    assert_eq!(r.err(), Some(LaunchError::ConstraintSeeds));
    assert_eq!(accounts, before);
}

#[test]
fn handle_refuses_forged_signer() {
    let mut accounts = accounts_with_signer(fresh_mint(11), Address::new([66u8; 32]));
    let before = accounts;
    let r = accounts.handle(&program_id(), InitializeLaunchArgs {});
    assert_eq!(
        r.err(),
        Some(LaunchError::Launchpad(LaunchpadError::InvalidMintAuthority))
    );
    assert_eq!(accounts, before);
}

#[test]
fn handle_mints_for_derived_signer() {
    let mut accounts = honest_accounts(fresh_mint(12));
    let r = accounts.handle(&program_id(), InitializeLaunchArgs {});
    assert!(r.is_ok());
    assert_eq!(accounts.token_mint.supply, AVAILABLE_TOKENS);
    assert_eq!(accounts.launch_record.unwrap().launch_signer, accounts.launch_signer);
}

#[test]
fn signing_proof_layout() {
    let launch = Address::new([1u8; 32]);
    let proof = signing_proof(&launch, 254);
    assert_eq!(
        proof.seeds,
        vec![b"launch_signer".to_vec(), vec![1u8; 32], vec![254u8]]
    );
}

#[test]
fn addresses_compare_bytewise() {
    let a = Address::new([1u8; 32]);
    let mut bytes = [1u8; 32];
    assert!(a.same_as(&Address::new(bytes)));
    bytes[31] = 2;
    assert!(!a.same_as(&Address::new(bytes)));
    assert_eq!(a.to_seed(), vec![1u8; 32]);
}

#[test]
fn error_messages() {
    assert_eq!(LaunchpadError::SupplyNonZero.message(), "Token mint supply must be zero");
    assert_eq!(
        LaunchpadError::FreezeAuthoritySet.message(),
        "Token mint freeze authority must not be set"
    );
    assert_eq!(LaunchpadError::InvalidDecimals.message(), "Token mint must have 6 decimals");
    assert_eq!(
        LaunchpadError::InvalidMintAuthority.message(),
        "Token mint authority must be the launch signer"
    );
}
