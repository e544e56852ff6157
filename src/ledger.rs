//! Intents issued to the token ledger, and what the ledger does with them.

use vstd::prelude::*;

use crate::address::{seeds_view, Address};

verus! {

/// One instruction to the token ledger. An empty `signer_seeds` means that
/// the authority signs for itself; otherwise the authority is a derived
/// identity and the seeds, bump last, are its proof of derivation.
#[derive(Debug, PartialEq, Eq)]
pub enum LedgerIntent {
    /// Give custody of `account` to `new_authority`.
    SetAuthority {
        account: Address,
        current_authority: Address,
        new_authority: Address,
        signer_seeds: Vec<Vec<u8>>,
    },
    /// Move `amount` units from `from` to `to`.
    Transfer {
        from: Address,
        to: Address,
        authority: Address,
        amount: u64,
        signer_seeds: Vec<Vec<u8>>,
    },
}

/// A `LedgerIntent` with its identities and seeds as byte sequences.
pub enum IntentView {
    SetAuthority {
        account: Seq<u8>,
        current_authority: Seq<u8>,
        new_authority: Seq<u8>,
        signer_seeds: Seq<Seq<u8>>,
    },
    Transfer {
        from: Seq<u8>,
        to: Seq<u8>,
        authority: Seq<u8>,
        amount: u64,
        signer_seeds: Seq<Seq<u8>>,
    },
}

impl View for LedgerIntent {
    type V = IntentView;

    open spec fn view(&self) -> IntentView {
        match self {
            LedgerIntent::SetAuthority { account, current_authority, new_authority, signer_seeds } =>
                IntentView::SetAuthority {
                account: account@,
                current_authority: current_authority@,
                new_authority: new_authority@,
                signer_seeds: seeds_view(signer_seeds@),
            },
            LedgerIntent::Transfer { from, to, authority, amount, signer_seeds } =>
                IntentView::Transfer {
                from: from@,
                to: to@,
                authority: authority@,
                amount: *amount,
                signer_seeds: seeds_view(signer_seeds@),
            },
        }
    }
}

/// Custody authority of `account`, held by `authority`, once the ledger has
/// carried out `ix`: a reassignment of that account made by its current
/// authority hands it over; anything else leaves it where it was.
pub open spec fn authority_after(account: Seq<u8>, authority: Seq<u8>, ix: IntentView) -> Seq<u8> {
    match ix {
        IntentView::SetAuthority { account: a, current_authority: c, new_authority: n, .. } =>
            if a == account && c == authority { n } else { authority },
        IntentView::Transfer { .. } => authority,
    }
}

/// Units that `ix` moves out of `account`.
pub open spec fn paid_from(account: Seq<u8>, ix: IntentView) -> int {
    match ix {
        IntentView::Transfer { from, amount, .. } => if from == account { amount as int } else { 0 },
        IntentView::SetAuthority { .. } => 0,
    }
}

} // verus!
