use anchor_lang::prelude::Pubkey;
use staking::address::{find_config_address, find_staking_address, Address};
use staking::ledger::LedgerIntent;
use staking::program::{
    claim_shcp_reward, global_init, stake_shcp, unstake_shcp, ClaimSchpReward, GlobalInit,
    StakeShcp, UnstakeShcp,
};
use staking::state::{ConfigAccount, ErrorCode, StakingAccount, TokenAccount, SHCP_LAMPORTS_PER_SECOND};

fn key(n: u8) -> Address {
    Address { bytes: [n; 32] }
}

const PROGRAM: u8 = 1;
const DELEGATE: u8 = 2;
const MASTER: u8 = 3;
const VAULT: u8 = 4;
const OWNER: u8 = 5;
const ASSET_ACCOUNT: u8 = 6;
const MINT: u8 = 7;
const CLAIM_ACCOUNT: u8 = 8;
const REWARD_MINT: u8 = 9;
const STRANGER: u8 = 10;

fn stake_pda() -> (Address, u8) {
    find_staking_address(&key(PROGRAM), &key(DELEGATE), &key(OWNER), &key(MINT)).unwrap()
}

fn config_pda() -> (Address, u8) {
    find_config_address(&key(PROGRAM), &key(DELEGATE)).unwrap()
}

fn bootstrap_accounts() -> GlobalInit {
    GlobalInit {
        shapz_master: key(MASTER),
        shcp_vault_ata: TokenAccount { key: key(VAULT), mint: key(REWARD_MINT), owner: key(MASTER) },
        authority: key(DELEGATE),
        config_account_key: config_pda().0,
        config_account: None,
    }
}

fn stake_accounts() -> StakeShcp {
    StakeShcp {
        player: key(OWNER),
        nft_ata_account: TokenAccount { key: key(ASSET_ACCOUNT), mint: key(MINT), owner: key(OWNER) },
        nft_mint: key(MINT),
        player_shcp_claim_account: key(CLAIM_ACCOUNT),
        shapz_shcp_vault: key(VAULT),
        authority: key(DELEGATE),
        stacking_account_key: stake_pda().0,
        stacking_account: None,
    }
}

fn record_at(t: i64) -> StakingAccount {
    StakingAccount {
        player_key: key(OWNER),
        nft_ata_key: key(ASSET_ACCOUNT),
        player_shcp_claim_account_key: key(CLAIM_ACCOUNT),
        nft_mint_key: key(MINT),
        shcp_amount_seconds: SHCP_LAMPORTS_PER_SECOND,
        created_at: 0,
        claimed_at: t,
    }
}

fn config_record() -> ConfigAccount {
    ConfigAccount { shcp_vault_is_initialized: 1, shfec_vault_is_initialized: 0, authority: key(DELEGATE) }
}

fn claim_accounts(record: Option<StakingAccount>) -> ClaimSchpReward {
    ClaimSchpReward {
        player: key(OWNER),
        player_shcp_ata: key(CLAIM_ACCOUNT),
        shcp_vault_ata: TokenAccount { key: key(VAULT), mint: key(REWARD_MINT), owner: config_pda().0 },
        authority: key(DELEGATE),
        nft_mint: key(MINT),
        stacking_account_key: stake_pda().0,
        stacking_account: record,
        config_account_key: config_pda().0,
        config_account: Some(config_record()),
    }
}

fn unstake_accounts(record: Option<StakingAccount>) -> UnstakeShcp {
    UnstakeShcp {
        player: key(OWNER),
        nft_ata_account: TokenAccount { key: key(ASSET_ACCOUNT), mint: key(MINT), owner: stake_pda().0 },
        nft_mint: key(MINT),
        authority: key(DELEGATE),
        stacking_account_key: stake_pda().0,
        stacking_account: record,
    }
}

fn with_bump(mut seeds: Vec<Vec<u8>>, bump: u8) -> Vec<Vec<u8>> {
    seeds.push(vec![bump]);
    seeds
}

fn paid(ix: &LedgerIntent) -> u64 {
    match ix {
        LedgerIntent::Transfer { amount, .. } => *amount,
        LedgerIntent::SetAuthority { .. } => panic!("expected a transfer"),
    }
}

/// Carries out a custody reassignment on the test's view of a token account.
fn apply(account: &mut TokenAccount, ix: &LedgerIntent) {
    if let LedgerIntent::SetAuthority { account: a, current_authority, new_authority, .. } = ix {
        if *a == account.key && *current_authority == account.owner {
            account.owner = *new_authority;
        }
    }
}

#[test]
fn derived_addresses_match_the_host_derivation() {
    let program = Pubkey::new_from_array([PROGRAM; 32]);
    let (expected, bump) = Pubkey::find_program_address(
        &[b"shcp_staking", &[DELEGATE; 32], &[OWNER; 32], &[MINT; 32]],
        &program,
    );
    let (found, found_bump) = stake_pda();
    assert_eq!(found.bytes, expected.to_bytes());
    assert_eq!(found_bump, bump);
    assert_ne!(found, key(PROGRAM));

    let (expected, bump) = Pubkey::find_program_address(&[b"shapz_config", &[DELEGATE; 32]], &program);
    let (found, found_bump) = config_pda();
    assert_eq!(found.bytes, expected.to_bytes());
    assert_eq!(found_bump, bump);
}

#[test]
fn different_assets_get_different_records() {
    let other = find_staking_address(&key(PROGRAM), &key(DELEGATE), &key(OWNER), &key(STRANGER)).unwrap();
    assert_ne!(other.0, stake_pda().0);
    let other_owner = find_staking_address(&key(PROGRAM), &key(DELEGATE), &key(STRANGER), &key(MINT)).unwrap();
    assert_ne!(other_owner.0, stake_pda().0);
    assert_ne!(config_pda().0, stake_pda().0);
}

#[test]
fn accrual_rate_is_two_hundred_tokens_a_day() {
    assert_eq!(SHCP_LAMPORTS_PER_SECOND, 2_314_815);
    let per_day = SHCP_LAMPORTS_PER_SECOND as i128 * 86_400;
    assert!((per_day - 200_000_000_000).abs() < 86_400);
}

#[test]
fn bootstrap_hands_vault_to_config_identity() {
    let mut ctx = bootstrap_accounts();
    let ix = global_init(&mut ctx, &key(PROGRAM)).unwrap();
    assert_eq!(ctx.config_account, Some(config_record()));
    assert_eq!(
        ix,
        LedgerIntent::SetAuthority {
            account: key(VAULT),
            current_authority: key(MASTER),
            new_authority: config_pda().0,
            signer_seeds: vec![],
        }
    );
}

#[test]
fn bootstrap_twice_is_refused() {
    let mut ctx = bootstrap_accounts();
    global_init(&mut ctx, &key(PROGRAM)).unwrap();
    let before = ctx;
    assert_eq!(global_init(&mut ctx, &key(PROGRAM)), Err(ErrorCode::AlreadyInitialized));
    assert_eq!(ctx, before);
}

#[test]
fn bootstrap_at_wrong_address_is_refused() {
    let mut ctx = bootstrap_accounts();
    ctx.config_account_key = key(STRANGER);
    assert_eq!(global_init(&mut ctx, &key(PROGRAM)), Err(ErrorCode::AddressMismatch));
    assert_eq!(ctx.config_account, None);
}

#[test]
fn bootstrap_of_vault_not_held_by_master_is_refused() {
    let mut ctx = bootstrap_accounts();
    ctx.shcp_vault_ata.owner = key(STRANGER);
    assert_eq!(global_init(&mut ctx, &key(PROGRAM)), Err(ErrorCode::LedgerFailure));
}

#[test]
fn stake_creates_record_and_moves_custody() {
    let mut ctx = stake_accounts();
    let ix = stake_shcp(&mut ctx, &key(PROGRAM), 1_000).unwrap();
    let mut expected = record_at(1_000);
    expected.created_at = 1_000;
    assert_eq!(ctx.stacking_account, Some(expected));
    let mut asset = ctx.nft_ata_account;
    apply(&mut asset, &ix);
    assert_eq!(asset.owner, stake_pda().0);
}

#[test]
fn stake_twice_is_refused() {
    let mut ctx = stake_accounts();
    stake_shcp(&mut ctx, &key(PROGRAM), 0).unwrap();
    assert_eq!(stake_shcp(&mut ctx, &key(PROGRAM), 5), Err(ErrorCode::RecordExists));
    assert_eq!(ctx.stacking_account.unwrap().created_at, 0);
}

#[test]
fn stake_of_wrong_asset_or_custody_is_refused() {
    let mut ctx = stake_accounts();
    ctx.nft_ata_account.mint = key(STRANGER);
    assert_eq!(stake_shcp(&mut ctx, &key(PROGRAM), 0), Err(ErrorCode::WrongNftKey));
    let mut ctx = stake_accounts();
    ctx.nft_ata_account.owner = key(STRANGER);
    assert_eq!(stake_shcp(&mut ctx, &key(PROGRAM), 0), Err(ErrorCode::LedgerFailure));
    let mut ctx = stake_accounts();
    ctx.stacking_account_key = key(STRANGER);
    assert_eq!(stake_shcp(&mut ctx, &key(PROGRAM), 0), Err(ErrorCode::AddressMismatch));
    assert_eq!(ctx.stacking_account, None);
}

#[test]
fn claim_pays_elapsed_time_and_signs_with_config_seeds() {
    let mut ctx = claim_accounts(Some(record_at(10)));
    let ix = claim_shcp_reward(&mut ctx, &key(PROGRAM), 70).unwrap();
    let (config, bump) = config_pda();
    let seeds = with_bump(vec![b"shapz_config".to_vec(), vec![DELEGATE; 32]], bump);
    assert_eq!(
        ix,
        LedgerIntent::Transfer {
            from: key(VAULT),
            to: key(CLAIM_ACCOUNT),
            authority: config,
            amount: 60 * 2_314_815,
            signer_seeds: seeds,
        }
    );
    assert_eq!(ctx.stacking_account.unwrap().claimed_at, 70);
}

#[test]
fn claim_at_same_second_pays_nothing() {
    let mut ctx = claim_accounts(Some(record_at(10)));
    let ix = claim_shcp_reward(&mut ctx, &key(PROGRAM), 10).unwrap();
    assert_eq!(paid(&ix), 0);
}

#[test]
fn claim_by_stranger_is_refused() {
    let mut ctx = claim_accounts(Some(record_at(10)));
    ctx.player = key(STRANGER);
    let before = ctx;
    assert_eq!(claim_shcp_reward(&mut ctx, &key(PROGRAM), 100), Err(ErrorCode::PlayerIsNotOwner));
    assert_eq!(ctx, before);
}

#[test]
fn claim_for_other_asset_is_refused() {
    let mut ctx = claim_accounts(Some(record_at(10)));
    ctx.nft_mint = key(STRANGER);
    assert_eq!(claim_shcp_reward(&mut ctx, &key(PROGRAM), 100), Err(ErrorCode::WrongNftKey));
}

#[test]
fn claim_with_clock_behind_last_claim_is_refused() {
    let mut ctx = claim_accounts(Some(record_at(100)));
    let before = ctx;
    assert_eq!(claim_shcp_reward(&mut ctx, &key(PROGRAM), 99), Err(ErrorCode::InvalidElapsed));
    assert_eq!(ctx, before);
}

#[test]
fn claim_without_records_is_refused() {
    let mut ctx = claim_accounts(None);
    assert_eq!(claim_shcp_reward(&mut ctx, &key(PROGRAM), 100), Err(ErrorCode::RecordNotFound));
    let mut ctx = claim_accounts(Some(record_at(10)));
    ctx.config_account = None;
    assert_eq!(claim_shcp_reward(&mut ctx, &key(PROGRAM), 100), Err(ErrorCode::RecordNotFound));
}

#[test]
fn claim_with_misplaced_records_is_refused() {
    let mut ctx = claim_accounts(Some(record_at(10)));
    ctx.stacking_account_key = key(STRANGER);
    assert_eq!(claim_shcp_reward(&mut ctx, &key(PROGRAM), 100), Err(ErrorCode::AddressMismatch));
    let mut ctx = claim_accounts(Some(record_at(10)));
    ctx.config_account_key = key(STRANGER);
    assert_eq!(claim_shcp_reward(&mut ctx, &key(PROGRAM), 100), Err(ErrorCode::AddressMismatch));
}

#[test]
fn claim_into_other_account_is_refused() {
    let mut ctx = claim_accounts(Some(record_at(10)));
    ctx.player_shcp_ata = key(STRANGER);
    assert_eq!(claim_shcp_reward(&mut ctx, &key(PROGRAM), 100), Err(ErrorCode::WrongClaimAccount));
}

#[test]
fn claim_too_large_for_ledger_is_refused() {
    let mut ctx = claim_accounts(Some(record_at(i64::MIN)));
    assert_eq!(claim_shcp_reward(&mut ctx, &key(PROGRAM), i64::MAX), Err(ErrorCode::RewardOverflow));
    let mut record = record_at(0);
    record.shcp_amount_seconds = -1;
    let mut ctx = claim_accounts(Some(record));
    assert_eq!(claim_shcp_reward(&mut ctx, &key(PROGRAM), 5), Err(ErrorCode::RewardOverflow));
}

#[test]
fn claim_from_vault_not_in_custody_is_refused() {
    let mut ctx = claim_accounts(Some(record_at(10)));
    ctx.shcp_vault_ata.owner = key(MASTER);
    assert_eq!(claim_shcp_reward(&mut ctx, &key(PROGRAM), 100), Err(ErrorCode::LedgerFailure));
}

#[test]
fn successive_claims_pay_only_their_interval() {
    let mut ctx = claim_accounts(Some(record_at(0)));
    let first = claim_shcp_reward(&mut ctx, &key(PROGRAM), 1_000).unwrap();
    let second = claim_shcp_reward(&mut ctx, &key(PROGRAM), 1_003).unwrap();
    assert_eq!(paid(&first), 1_000 * 2_314_815);
    assert_eq!(paid(&second), 3 * 2_314_815);
}

#[test]
fn unstake_returns_custody_and_removes_record() {
    let mut ctx = unstake_accounts(Some(record_at(10)));
    let ix = unstake_shcp(&mut ctx, &key(PROGRAM)).unwrap();
    let (pda, bump) = stake_pda();
    let seeds = with_bump(
        vec![b"shcp_staking".to_vec(), vec![DELEGATE; 32], vec![OWNER; 32], vec![MINT; 32]],
        bump,
    );
    assert_eq!(
        ix,
        LedgerIntent::SetAuthority {
            account: key(ASSET_ACCOUNT),
            current_authority: pda,
            new_authority: key(OWNER),
            signer_seeds: seeds,
        }
    );
    assert_eq!(ctx.stacking_account, None);
    assert_eq!(unstake_shcp(&mut ctx, &key(PROGRAM)), Err(ErrorCode::RecordNotFound));
}

#[test]
fn unstake_refusals() {
    let mut ctx = unstake_accounts(Some(record_at(10)));
    ctx.player = key(STRANGER);
    assert_eq!(unstake_shcp(&mut ctx, &key(PROGRAM)), Err(ErrorCode::PlayerIsNotOwner));
    let mut ctx = unstake_accounts(Some(record_at(10)));
    ctx.nft_mint = key(STRANGER);
    assert_eq!(unstake_shcp(&mut ctx, &key(PROGRAM)), Err(ErrorCode::WrongNftKey));
    let mut ctx = unstake_accounts(Some(record_at(10)));
    ctx.nft_ata_account.key = key(STRANGER);
    assert_eq!(unstake_shcp(&mut ctx, &key(PROGRAM)), Err(ErrorCode::WrongNftKey));
    let mut ctx = unstake_accounts(Some(record_at(10)));
    ctx.nft_ata_account.owner = key(OWNER);
    assert_eq!(unstake_shcp(&mut ctx, &key(PROGRAM)), Err(ErrorCode::LedgerFailure));
    let mut ctx = unstake_accounts(Some(record_at(10)));
    ctx.stacking_account_key = key(STRANGER);
    assert_eq!(unstake_shcp(&mut ctx, &key(PROGRAM)), Err(ErrorCode::AddressMismatch));
    assert_eq!(ctx.stacking_account, Some(record_at(10)));
}

#[test]
fn bootstrap_stake_claim_claim_unstake() {
    let program = key(PROGRAM);
    let r = SHCP_LAMPORTS_PER_SECOND as u64;

    let mut init = bootstrap_accounts();
    let ix = global_init(&mut init, &program).unwrap();
    let mut vault = init.shcp_vault_ata;
    apply(&mut vault, &ix);
    assert_eq!(vault.owner, config_pda().0);

    let mut stake = stake_accounts();
    let ix = stake_shcp(&mut stake, &program, 0).unwrap();
    let mut asset = stake.nft_ata_account;
    apply(&mut asset, &ix);
    assert_eq!(asset.owner, stake_pda().0);

    let mut claim = claim_accounts(stake.stacking_account);
    claim.shcp_vault_ata = vault;
    claim.config_account = init.config_account;
    let ix = claim_shcp_reward(&mut claim, &program, 100).unwrap();
    assert_eq!(paid(&ix), 100 * r);
    assert_eq!(claim.stacking_account.unwrap().claimed_at, 100);
    let ix = claim_shcp_reward(&mut claim, &program, 150).unwrap();
    assert_eq!(paid(&ix), 50 * r);

    let mut unstake = unstake_accounts(claim.stacking_account);
    unstake.nft_ata_account = asset;
    let ix = unstake_shcp(&mut unstake, &program).unwrap();
    apply(&mut asset, &ix);
    assert_eq!(asset.owner, key(OWNER));
    assert_eq!(unstake.stacking_account, None);

    claim.stacking_account = unstake.stacking_account;
    assert_eq!(claim_shcp_reward(&mut claim, &program, 200), Err(ErrorCode::RecordNotFound));
}
