//! Properties of the protocol that span several instructions, proved over the
//! outcome functions that the instructions' own contracts use.

use vstd::prelude::*;

use crate::address::staking_address;
use crate::ledger::{authority_after, IntentView};
use crate::program::{
    claim_outcome, global_init_outcome, reward_for, stake_outcome, unstake_outcome,
    ClaimSchpReward, GlobalInit, StakeShcp, UnstakeShcp,
};
use crate::state::{ErrorCode, SHCP_LAMPORTS_PER_SECOND};

verus! {

/// A stake on valid inputs (no record yet, the record address is the derived
/// one, the asset account holds the named asset and is in the player's
/// custody) succeeds; afterwards the record sits at the derived address,
/// accrues at the protocol rate from `now` with `created_at == claimed_at == now`,
/// and the asset account's custody is the derived identity.
pub proof fn lemma_stake_creates_record(ctx: StakeShcp, program_id: Seq<u8>, now: i64)
    requires
        ctx.stacking_account is None,
        staking_address(program_id, ctx.authority@, ctx.player@, ctx.nft_mint@) is Some,
        ctx.stacking_account_key@ == staking_address(
            program_id,
            ctx.authority@,
            ctx.player@,
            ctx.nft_mint@,
        )->Some_0.0,
        ctx.nft_ata_account.mint@ == ctx.nft_mint@,
        ctx.nft_ata_account.owner@ == ctx.player@,
    ensures
        stake_outcome(ctx, program_id, now) is Ok,
        ({
            let (post, ix) = stake_outcome(ctx, program_id, now)->Ok_0;
            let pda = staking_address(program_id, ctx.authority@, ctx.player@, ctx.nft_mint@)->Some_0.0;
            &&& post.stacking_account_key@ == pda
            &&& post.stacking_account is Some
            &&& post.stacking_account->Some_0.player_key == ctx.player
            &&& post.stacking_account->Some_0.nft_mint_key == ctx.nft_mint
            &&& post.stacking_account->Some_0.shcp_amount_seconds == SHCP_LAMPORTS_PER_SECOND
            &&& post.stacking_account->Some_0.created_at == now
            &&& post.stacking_account->Some_0.claimed_at == now
            &&& post.stacking_account->Some_0.wf()
            &&& authority_after(ctx.nft_ata_account.key@, ctx.nft_ata_account.owner@, ix) == pda
        }),
{
}

/// Once a delegate is bootstrapped, bootstrapping it again is refused with
/// `AlreadyInitialized`.
pub proof fn lemma_bootstrap_replay_refused(ctx: GlobalInit, program_id: Seq<u8>)
    requires
        global_init_outcome(ctx, program_id) is Ok,
    ensures
        global_init_outcome(global_init_outcome(ctx, program_id)->Ok_0.0, program_id) == Err::<
            (GlobalInit, IntentView),
            ErrorCode,
        >(ErrorCode::AlreadyInitialized),
{
}

/// Once an asset is staked, staking it again for the same owner and delegate
/// is refused with `RecordExists`, whatever the time.
pub proof fn lemma_stake_replay_refused(ctx: StakeShcp, program_id: Seq<u8>, now: i64, later: i64)
    requires
        stake_outcome(ctx, program_id, now) is Ok,
    ensures
        stake_outcome(stake_outcome(ctx, program_id, now)->Ok_0.0, program_id, later) == Err::<
            (StakeShcp, IntentView),
            ErrorCode,
        >(ErrorCode::RecordExists),
{
}

/// After a claim at `t1`, a claim at a later `t2` pays exactly
/// `(t2 - t1) * rate` and moves `claimed_at` to `t2`, whatever came before
/// `t1`; it is refused only when that amount does not fit the ledger's
/// amount type.
pub proof fn lemma_claims_pay_interval(ctx: ClaimSchpReward, program_id: Seq<u8>, t1: i64, t2: i64)
    requires
        claim_outcome(ctx, program_id, t1) is Ok,
        t1 < t2,
    ensures
        ({
            let post1 = claim_outcome(ctx, program_id, t1)->Ok_0.0;
            let rate = ctx.stacking_account->Some_0.shcp_amount_seconds;
            let reward = reward_for(t2 - t1, rate as int);
            let second = claim_outcome(post1, program_id, t2);
            if 0 <= reward <= u64::MAX {
                &&& second is Ok
                &&& second->Ok_0.1 matches IntentView::Transfer { amount, .. } && amount == reward
                &&& second->Ok_0.0.stacking_account->Some_0.claimed_at == t2
            } else {
                second == Err::<(ClaimSchpReward, IntentView), ErrorCode>(ErrorCode::RewardOverflow)
            }
        }),
{
}

/// A claim by anyone but the record's owner is refused with
/// `PlayerIsNotOwner`, so nothing is paid.
pub proof fn lemma_claim_requires_owner(ctx: ClaimSchpReward, program_id: Seq<u8>, now: i64)
    requires
        ctx.stacking_account is Some,
        ctx.stacking_account->Some_0.player_key@ != ctx.player@,
    ensures
        claim_outcome(ctx, program_id, now) == Err::<(ClaimSchpReward, IntentView), ErrorCode>(
            ErrorCode::PlayerIsNotOwner,
        ),
{
}

/// After an unstake the asset account is back in the player's custody and the
/// record is gone: a further unstake, or a claim on the emptied record, is
/// refused with `RecordNotFound`.
pub proof fn lemma_unstake_restores_custody(
    ctx: UnstakeShcp,
    program_id: Seq<u8>,
    claim: ClaimSchpReward,
    now: i64,
)
    requires
        unstake_outcome(ctx, program_id) is Ok,
        claim.stacking_account == unstake_outcome(ctx, program_id)->Ok_0.0.stacking_account,
    ensures
        ({
            let (post, ix) = unstake_outcome(ctx, program_id)->Ok_0;
            &&& authority_after(ctx.nft_ata_account.key@, ctx.nft_ata_account.owner@, ix)
                == ctx.player@
            &&& unstake_outcome(post, program_id) == Err::<(UnstakeShcp, IntentView), ErrorCode>(
                ErrorCode::RecordNotFound,
            )
            &&& claim_outcome(claim, program_id, now) == Err::<
                (ClaimSchpReward, IntentView),
                ErrorCode,
            >(ErrorCode::RecordNotFound)
        }),
{
}

/// A claim whose clock reads earlier than the record's last claim is refused
/// with `InvalidElapsed`, so nothing is paid.
pub proof fn lemma_clock_regression_refused(ctx: ClaimSchpReward, program_id: Seq<u8>, now: i64)
    requires
        ctx.stacking_account is Some,
        ctx.stacking_account->Some_0.player_key@ == ctx.player@,
        ctx.stacking_account->Some_0.nft_mint_key@ == ctx.nft_mint@,
        now < ctx.stacking_account->Some_0.claimed_at,
    ensures
        claim_outcome(ctx, program_id, now) == Err::<(ClaimSchpReward, IntentView), ErrorCode>(
            ErrorCode::InvalidElapsed,
        ),
{
}

/// Records stay well formed: a stake creates one, and a claim keeps it so.
pub proof fn lemma_records_stay_well_formed(
    stake: StakeShcp,
    claim: ClaimSchpReward,
    program_id: Seq<u8>,
    now: i64,
)
    ensures
        stake_outcome(stake, program_id, now) is Ok ==> stake_outcome(
            stake,
            program_id,
            now,
        )->Ok_0.0.stacking_account->Some_0.wf(),
        claim_outcome(claim, program_id, now) is Ok && claim.stacking_account->Some_0.wf()
            ==> claim_outcome(claim, program_id, now)->Ok_0.0.stacking_account->Some_0.wf(),
{
}

} // verus!
