//! The protocol's four instructions. Each takes the accounts it works on, as
//! the host read them, and either refuses with an `ErrorCode`, changing
//! nothing, or updates the records in place and returns the one ledger intent
//! that must be carried out with them.

use vstd::prelude::*;

use crate::address::{
    config_address, config_seeds, find_config_address, find_staking_address, push_bump,
    seeds_view, staking_address, staking_seeds, with_bump, config_seeds_of, staking_seeds_of, Address,
};
use crate::ledger::{IntentView, LedgerIntent};
use crate::state::{ConfigAccount, ErrorCode, StakingAccount, TokenAccount, SHCP_LAMPORTS_PER_SECOND};

verus! {

/// Accounts of the one-time bootstrap of a delegate.
#[derive(Clone, Copy, Debug, PartialEq, Eq)]
pub struct GlobalInit {
    /// The signer that holds custody of the reward vault and pays for the record.
    pub shapz_master: Address,
    /// The reward vault, to be handed to the configuration identity.
    pub shcp_vault_ata: TokenAccount,
    /// The delegate whose namespace is being set up.
    pub authority: Address,
    /// Where the configuration record is to be created.
    pub config_account_key: Address,
    /// What that address holds.
    pub config_account: Option<ConfigAccount>,
}

/// Accounts of a stake.
#[derive(Clone, Copy, Debug, PartialEq, Eq)]
pub struct StakeShcp {
    /// The owner of the asset; a signer.
    pub player: Address,
    /// The token account that holds the asset.
    pub nft_ata_account: TokenAccount,
    /// The asset's identifier.
    pub nft_mint: Address,
    /// The account that will receive the reward.
    pub player_shcp_claim_account: Address,
    /// The reward vault.
    pub shapz_shcp_vault: Address,
    /// The delegate.
    pub authority: Address,
    /// Where the staking record is to be created.
    pub stacking_account_key: Address,
    /// What that address holds.
    pub stacking_account: Option<StakingAccount>,
}

/// Accounts of a reward claim.
#[derive(Clone, Copy, Debug, PartialEq, Eq)]
pub struct ClaimSchpReward {
    /// The owner named by the caller.
    pub player: Address,
    /// The account to pay the reward into.
    pub player_shcp_ata: Address,
    /// The reward vault.
    pub shcp_vault_ata: TokenAccount,
    /// The delegate.
    pub authority: Address,
    /// The asset's identifier.
    pub nft_mint: Address,
    /// Address of the staking record.
    pub stacking_account_key: Address,
    /// What that address holds.
    pub stacking_account: Option<StakingAccount>,
    /// Address of the delegate's configuration record.
    pub config_account_key: Address,
    /// What that address holds.
    pub config_account: Option<ConfigAccount>,
}

/// Accounts of an unstake.
#[derive(Clone, Copy, Debug, PartialEq, Eq)]
pub struct UnstakeShcp {
    /// The owner named by the caller.
    pub player: Address,
    /// The token account that holds the asset.
    pub nft_ata_account: TokenAccount,
    /// The asset's identifier.
    pub nft_mint: Address,
    /// The delegate.
    pub authority: Address,
    /// Address of the staking record.
    pub stacking_account_key: Address,
    /// What that address holds; emptied by the unstake.
    pub stacking_account: Option<StakingAccount>,
}

/// Reward accrued over `elapsed` seconds at `rate` units per second.
pub open spec fn reward_for(elapsed: int, rate: int) -> int {
    elapsed * rate
}

/// Outcome of a bootstrap: the accounts afterwards and the intent, or the refusal.
pub open spec fn global_init_outcome(ctx: GlobalInit, program_id: Seq<u8>) -> Result<
    (GlobalInit, IntentView),
    ErrorCode,
> {
    if ctx.config_account is Some {
        Err(ErrorCode::AlreadyInitialized)
    } else {
        match config_address(program_id, ctx.authority@) {
            None => Err(ErrorCode::AddressMismatch),
            Some((pda, _bump)) => if ctx.config_account_key@ != pda {
                Err(ErrorCode::AddressMismatch)
            } else if ctx.shcp_vault_ata.owner@ != ctx.shapz_master@ {
                Err(ErrorCode::LedgerFailure)
            } else {
                Ok(
                    (
                        GlobalInit {
                            config_account: Some(
                                ConfigAccount {
                                    shcp_vault_is_initialized: 1,
                                    shfec_vault_is_initialized: 0,
                                    authority: ctx.authority,
                                },
                            ),
                            ..ctx
                        },
                        IntentView::SetAuthority {
                            account: ctx.shcp_vault_ata.key@,
                            current_authority: ctx.shapz_master@,
                            new_authority: pda,
                            signer_seeds: seq![],
                        },
                    ),
                )
            },
        }
    }
}

/// Outcome of a stake at time `now`.
pub open spec fn stake_outcome(ctx: StakeShcp, program_id: Seq<u8>, now: i64) -> Result<
    (StakeShcp, IntentView),
    ErrorCode,
> {
    if ctx.stacking_account is Some {
        Err(ErrorCode::RecordExists)
    } else {
        match staking_address(program_id, ctx.authority@, ctx.player@, ctx.nft_mint@) {
            None => Err(ErrorCode::AddressMismatch),
            Some((pda, _bump)) => if ctx.stacking_account_key@ != pda {
                Err(ErrorCode::AddressMismatch)
            } else if ctx.nft_ata_account.mint@ != ctx.nft_mint@ {
                Err(ErrorCode::WrongNftKey)
            } else if ctx.nft_ata_account.owner@ != ctx.player@ {
                Err(ErrorCode::LedgerFailure)
            } else {
                Ok(
                    (
                        StakeShcp {
                            stacking_account: Some(
                                StakingAccount {
                                    player_key: ctx.player,
                                    nft_ata_key: ctx.nft_ata_account.key,
                                    player_shcp_claim_account_key: ctx.player_shcp_claim_account,
                                    nft_mint_key: ctx.nft_mint,
                                    shcp_amount_seconds: SHCP_LAMPORTS_PER_SECOND,
                                    created_at: now,
                                    claimed_at: now,
                                },
                            ),
                            ..ctx
                        },
                        IntentView::SetAuthority {
                            account: ctx.nft_ata_account.key@,
                            current_authority: ctx.player@,
                            new_authority: pda,
                            signer_seeds: seq![],
                        },
                    ),
                )
            },
        }
    }
}

/// Outcome of a claim at time `now`: pays the reward accrued since the last
/// claim out of the vault, on the configuration identity's authority.
pub open spec fn claim_outcome(ctx: ClaimSchpReward, program_id: Seq<u8>, now: i64) -> Result<
    (ClaimSchpReward, IntentView),
    ErrorCode,
> {
    match ctx.stacking_account {
        None => Err(ErrorCode::RecordNotFound),
        Some(rec) => if rec.player_key@ != ctx.player@ {
            Err(ErrorCode::PlayerIsNotOwner)
        } else if rec.nft_mint_key@ != ctx.nft_mint@ {
            Err(ErrorCode::WrongNftKey)
        } else if now < rec.claimed_at {
            Err(ErrorCode::InvalidElapsed)
        } else {
            match staking_address(program_id, ctx.authority@, ctx.player@, ctx.nft_mint@) {
                None => Err(ErrorCode::AddressMismatch),
                Some((stake_pda, _stake_bump)) => if ctx.stacking_account_key@ != stake_pda {
                    Err(ErrorCode::AddressMismatch)
                } else if ctx.config_account is None {
                    Err(ErrorCode::RecordNotFound)
                } else {
                    match config_address(program_id, ctx.authority@) {
                        None => Err(ErrorCode::AddressMismatch),
                        Some((config_pda, config_bump)) => {
                            let reward = reward_for(now - rec.claimed_at, rec.shcp_amount_seconds as int);
                            if ctx.config_account_key@ != config_pda {
                                Err(ErrorCode::AddressMismatch)
                            } else if ctx.player_shcp_ata@ != rec.player_shcp_claim_account_key@ {
                                Err(ErrorCode::WrongClaimAccount)
                            } else if !(0 <= reward <= u64::MAX) {
                                Err(ErrorCode::RewardOverflow)
                            } else if ctx.shcp_vault_ata.owner@ != config_pda {
                                Err(ErrorCode::LedgerFailure)
                            } else {
                                Ok(
                                    (
                                        ClaimSchpReward {
                                            stacking_account: Some(
                                                StakingAccount { claimed_at: now, ..rec },
                                            ),
                                            ..ctx
                                        },
                                        IntentView::Transfer {
                                            from: ctx.shcp_vault_ata.key@,
                                            to: ctx.player_shcp_ata@,
                                            authority: config_pda,
                                            amount: reward as u64,
                                            signer_seeds: with_bump(
                                                config_seeds(ctx.authority@),
                                                config_bump,
                                            ),
                                        },
                                    ),
                                )
                            }
                        },
                    }
                },
            }
        },
    }
}

/// Outcome of an unstake: custody of the asset account goes back to the
/// player and the staking record is removed. Reward accrued since the last
/// claim is not paid.
pub open spec fn unstake_outcome(ctx: UnstakeShcp, program_id: Seq<u8>) -> Result<
    (UnstakeShcp, IntentView),
    ErrorCode,
> {
    match ctx.stacking_account {
        None => Err(ErrorCode::RecordNotFound),
        Some(rec) => if rec.player_key@ != ctx.player@ {
            Err(ErrorCode::PlayerIsNotOwner)
        } else if rec.nft_mint_key@ != ctx.nft_mint@ || rec.nft_ata_key@
            != ctx.nft_ata_account.key@ {
            Err(ErrorCode::WrongNftKey)
        } else {
            match staking_address(program_id, ctx.authority@, ctx.player@, ctx.nft_mint@) {
                None => Err(ErrorCode::AddressMismatch),
                Some((pda, bump)) => if ctx.stacking_account_key@ != pda {
                    Err(ErrorCode::AddressMismatch)
                } else if ctx.nft_ata_account.owner@ != pda {
                    Err(ErrorCode::LedgerFailure)
                } else {
                    Ok(
                        (
                            UnstakeShcp { stacking_account: None, ..ctx },
                            IntentView::SetAuthority {
                                account: ctx.nft_ata_account.key@,
                                current_authority: pda,
                                new_authority: ctx.player@,
                                signer_seeds: with_bump(
                                    staking_seeds(ctx.authority@, ctx.player@, ctx.nft_mint@),
                                    bump,
                                ),
                            },
                        ),
                    )
                },
            }
        },
    }
}

/// The proof of derivation of an authority that signs for itself.
fn no_seeds() -> (r: Vec<Vec<u8>>)
    ensures
        seeds_view(r@) == Seq::<Seq<u8>>::empty(),
{
    let r: Vec<Vec<u8>> = Vec::new();
    assert(seeds_view(r@) =~= Seq::<Seq<u8>>::empty());
    r
}

/// Bootstraps a delegate: creates its configuration record and hands the
/// reward vault to the identity derived from `(config tag, authority)`.
/// Refused with `AlreadyInitialized` once the record exists, so a replay
/// never delegates the vault again.
pub fn global_init(ctx: &mut GlobalInit, program_id: &Address) -> (r: Result<LedgerIntent, ErrorCode>)
    ensures
        match r {
            Ok(ix) => global_init_outcome(*old(ctx), program_id@) == Ok::<
                (GlobalInit, IntentView),
                ErrorCode,
            >((*final(ctx), ix@)),
            Err(e) => global_init_outcome(*old(ctx), program_id@) == Err::<
                (GlobalInit, IntentView),
                ErrorCode,
            >(e) && *final(ctx) == *old(ctx),
        },
{
    if ctx.config_account.is_some() {
        return Err(ErrorCode::AlreadyInitialized);
    }
    let (pda, _bump) = match find_config_address(program_id, &ctx.authority) {
        Some(found) => found,
        None => {
            return Err(ErrorCode::AddressMismatch);
        },
    };
    if !ctx.config_account_key.same_as(&pda) {
        return Err(ErrorCode::AddressMismatch);
    }
    if !ctx.shcp_vault_ata.owner.same_as(&ctx.shapz_master) {
        return Err(ErrorCode::LedgerFailure);
    }
    ctx.config_account = Some(
        ConfigAccount {
            shcp_vault_is_initialized: 1,
            shfec_vault_is_initialized: 0,
            authority: ctx.authority,
        },
    );
    let ix = LedgerIntent::SetAuthority {
        account: ctx.shcp_vault_ata.key,
        current_authority: ctx.shapz_master,
        new_authority: pda,
        signer_seeds: no_seeds(),
    };
    Ok(ix)
}

/// Stakes an asset at time `now`: creates the staking record at the address
/// derived from `(staking tag, authority, player, mint)`, accruing
/// `SHCP_LAMPORTS_PER_SECOND` from `now`, and hands custody of the asset
/// account from the player to that derived identity.
pub fn stake_shcp(ctx: &mut StakeShcp, program_id: &Address, now: i64) -> (r: Result<
    LedgerIntent,
    ErrorCode,
>)
    ensures
        match r {
            Ok(ix) => stake_outcome(*old(ctx), program_id@, now) == Ok::<
                (StakeShcp, IntentView),
                ErrorCode,
            >((*final(ctx), ix@)),
            Err(e) => stake_outcome(*old(ctx), program_id@, now) == Err::<
                (StakeShcp, IntentView),
                ErrorCode,
            >(e) && *final(ctx) == *old(ctx),
        },
{
    if ctx.stacking_account.is_some() {
        return Err(ErrorCode::RecordExists);
    }
    let (pda, _bump) = match find_staking_address(
        program_id,
        &ctx.authority,
        &ctx.player,
        &ctx.nft_mint,
    ) {
        Some(found) => found,
        None => {
            return Err(ErrorCode::AddressMismatch);
        },
    };
    if !ctx.stacking_account_key.same_as(&pda) {
        return Err(ErrorCode::AddressMismatch);
    }
    if !ctx.nft_ata_account.mint.same_as(&ctx.nft_mint) {
        return Err(ErrorCode::WrongNftKey);
    }
    if !ctx.nft_ata_account.owner.same_as(&ctx.player) {
        return Err(ErrorCode::LedgerFailure);
    }
    ctx.stacking_account = Some(
        StakingAccount {
            player_key: ctx.player,
            nft_ata_key: ctx.nft_ata_account.key,
            player_shcp_claim_account_key: ctx.player_shcp_claim_account,
            nft_mint_key: ctx.nft_mint,
            shcp_amount_seconds: SHCP_LAMPORTS_PER_SECOND,
            created_at: now,
            claimed_at: now,
        },
    );
    let ix = LedgerIntent::SetAuthority {
        account: ctx.nft_ata_account.key,
        current_authority: ctx.player,
        new_authority: pda,
        signer_seeds: no_seeds(),
    };
    Ok(ix)
}

/// Claims the reward accrued by a staked asset since its last claim, at
/// time `now`: `(now - claimed_at) * rate` units move from the vault to the
/// player's reward account, and `claimed_at` becomes `now`.
pub fn claim_shcp_reward(ctx: &mut ClaimSchpReward, program_id: &Address, now: i64) -> (r: Result<
    LedgerIntent,
    ErrorCode,
>)
    ensures
        match r {
            Ok(ix) => claim_outcome(*old(ctx), program_id@, now) == Ok::<
                (ClaimSchpReward, IntentView),
                ErrorCode,
            >((*final(ctx), ix@)),
            Err(e) => claim_outcome(*old(ctx), program_id@, now) == Err::<
                (ClaimSchpReward, IntentView),
                ErrorCode,
            >(e) && *final(ctx) == *old(ctx),
        },
{
    let rec = match ctx.stacking_account {
        Some(rec) => rec,
        None => {
            return Err(ErrorCode::RecordNotFound);
        },
    };
    if !rec.player_key.same_as(&ctx.player) {
        return Err(ErrorCode::PlayerIsNotOwner);
    }
    if !rec.nft_mint_key.same_as(&ctx.nft_mint) {
        return Err(ErrorCode::WrongNftKey);
    }
    if now < rec.claimed_at {
        return Err(ErrorCode::InvalidElapsed);
    }
    let (stake_pda, _stake_bump) = match find_staking_address(
        program_id,
        &ctx.authority,
        &ctx.player,
        &ctx.nft_mint,
    ) {
        Some(found) => found,
        None => {
            return Err(ErrorCode::AddressMismatch);
        },
    };
    if !ctx.stacking_account_key.same_as(&stake_pda) {
        return Err(ErrorCode::AddressMismatch);
    }
    if ctx.config_account.is_none() {
        return Err(ErrorCode::RecordNotFound);
    }
    let (config_pda, config_bump) = match find_config_address(program_id, &ctx.authority) {
        Some(found) => found,
        None => {
            return Err(ErrorCode::AddressMismatch);
        },
    };
    if !ctx.config_account_key.same_as(&config_pda) {
        return Err(ErrorCode::AddressMismatch);
    }
    if !ctx.player_shcp_ata.same_as(&rec.player_shcp_claim_account_key) {
        return Err(ErrorCode::WrongClaimAccount);
    }
    let elapsed: i128 = now as i128 - rec.claimed_at as i128;
    let rate: i128 = rec.shcp_amount_seconds as i128;
    assert(i128::MIN <= elapsed * rate <= i128::MAX) by (nonlinear_arith)
        requires
            0 <= elapsed <= 0xffff_ffff_ffff_ffff,
            -0x8000_0000_0000_0000 <= rate <= 0x7fff_ffff_ffff_ffff,
    ;
    let reward: i128 = elapsed * rate;
    if reward < 0 || reward > u64::MAX as i128 {
        return Err(ErrorCode::RewardOverflow);
    }
    if !ctx.shcp_vault_ata.owner.same_as(&config_pda) {
        return Err(ErrorCode::LedgerFailure);
    }
    let mut signer_seeds = config_seeds_of(&ctx.authority);
    push_bump(&mut signer_seeds, config_bump);
    ctx.stacking_account = Some(StakingAccount { claimed_at: now, ..rec });
    Ok(
        LedgerIntent::Transfer {
            from: ctx.shcp_vault_ata.key,
            to: ctx.player_shcp_ata,
            authority: config_pda,
            amount: reward as u64,
            signer_seeds,
        },
    )
}

/// Unstakes an asset: custody of the asset account goes from the derived
/// identity back to the player, on the proof of derivation of that identity,
/// and the staking record is removed. Unclaimed reward is forfeited.
pub fn unstake_shcp(ctx: &mut UnstakeShcp, program_id: &Address) -> (r: Result<
    LedgerIntent,
    ErrorCode,
>)
    ensures
        match r {
            Ok(ix) => unstake_outcome(*old(ctx), program_id@) == Ok::<
                (UnstakeShcp, IntentView),
                ErrorCode,
            >((*final(ctx), ix@)),
            Err(e) => unstake_outcome(*old(ctx), program_id@) == Err::<
                (UnstakeShcp, IntentView),
                ErrorCode,
            >(e) && *final(ctx) == *old(ctx),
        },
{
    let rec = match ctx.stacking_account {
        Some(rec) => rec,
        None => {
            return Err(ErrorCode::RecordNotFound);
        },
    };
    if !rec.player_key.same_as(&ctx.player) {
        return Err(ErrorCode::PlayerIsNotOwner);
    }
    if !rec.nft_mint_key.same_as(&ctx.nft_mint) || !rec.nft_ata_key.same_as(
        &ctx.nft_ata_account.key,
    ) {
        return Err(ErrorCode::WrongNftKey);
    }
    let (pda, bump) = match find_staking_address(
        program_id,
        &ctx.authority,
        &ctx.player,
        &ctx.nft_mint,
    ) {
        Some(found) => found,
        None => {
            return Err(ErrorCode::AddressMismatch);
        },
    };
    if !ctx.stacking_account_key.same_as(&pda) {
        return Err(ErrorCode::AddressMismatch);
    }
    if !ctx.nft_ata_account.owner.same_as(&pda) {
        return Err(ErrorCode::LedgerFailure);
    }
    let mut signer_seeds = staking_seeds_of(&ctx.authority, &ctx.player, &ctx.nft_mint);
    push_bump(&mut signer_seeds, bump);
    ctx.stacking_account = None;
    Ok(
        LedgerIntent::SetAuthority {
            account: ctx.nft_ata_account.key,
            current_authority: pda,
            new_authority: ctx.player,
            signer_seeds,
        },
    )
}

} // verus!
