//! Persisted records and the error taxonomy of the protocol.

use vstd::prelude::*;

use crate::address::Address;

verus! {

/// Reward paid per staked second, in the reward token's smallest unit.
///
/// The reward token has 9 decimals and pays 200 tokens per day:
/// 200 * 10^9 / 86400 = 2314814.81..., rounded to the nearest unit.
pub const SHCP_LAMPORTS_PER_SECOND: i64 = 2314815;

/// Accrual state of one staked asset, kept at the address derived from
/// `(staking tag, authority, player, nft mint)`.
#[derive(Clone, Copy, Debug, PartialEq, Eq)]
pub struct StakingAccount {
    /// The owner who staked the asset.
    pub player_key: Address,
    /// The token account that holds the asset.
    pub nft_ata_key: Address,
    /// The token account that receives the reward.
    pub player_shcp_claim_account_key: Address,
    /// The asset's identifier.
    pub nft_mint_key: Address,
    /// Accrual rate, in reward units per second.
    pub shcp_amount_seconds: i64,
    /// Time of the stake.
    pub created_at: i64,
    /// Time of the last claim (the stake time before any claim).
    pub claimed_at: i64,
}

impl StakingAccount {
    /// A record as the protocol keeps it: never claimed before it was created,
    /// and accruing at a non-negative rate.
    pub open spec fn wf(&self) -> bool {
        &&& self.claimed_at >= self.created_at
        &&& self.shcp_amount_seconds >= 0
    }
}

/// Configuration of one delegate: the reward vault it handed over.
#[derive(Clone, Copy, Debug, PartialEq, Eq)]
pub struct ConfigAccount {
    /// 1 once the reward vault is under the program's custody.
    pub shcp_vault_is_initialized: u8,
    /// Reserved for a second vault; always 0.
    pub shfec_vault_is_initialized: u8,
    /// The delegate whose namespace this configuration governs.
    pub authority: Address,
}

/// What the token ledger reports of one of its accounts.
#[derive(Clone, Copy, Debug, PartialEq, Eq)]
pub struct TokenAccount {
    /// The account's own address.
    pub key: Address,
    /// The token the account holds.
    pub mint: Address,
    /// The identity with custody authority over the account.
    pub owner: Address,
}

/// Why an instruction was refused. A refused instruction changes nothing.
#[derive(Clone, Copy, Debug, PartialEq, Eq)]
pub enum ErrorCode {
    /// The caller is not the owner recorded in the staking record.
    PlayerIsNotOwner,
    /// The asset named by the caller is not the one in the staking record.
    WrongNftKey,
    /// The configuration record of this delegate already exists.
    AlreadyInitialized,
    /// A staking record already exists for this owner and asset.
    RecordExists,
    /// The record the instruction works on does not exist.
    RecordNotFound,
    /// The clock reads earlier than the last claim.
    InvalidElapsed,
    /// The token ledger would refuse the custody change or the transfer.
    LedgerFailure,
    /// A record was supplied at an address other than the derived one.
    AddressMismatch,
    /// The reward account supplied is not the one in the staking record.
    WrongClaimAccount,
    /// The reward does not fit in the ledger's amount type.
    RewardOverflow,
}

} // verus!
