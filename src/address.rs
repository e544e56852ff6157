//! Identities and deterministic record addresses.

use vstd::prelude::*;

verus! {

/// A 32-byte account identity, as the execution host writes it.
#[derive(Clone, Copy, Debug, PartialEq, Eq)]
pub struct Address {
    pub bytes: [u8; 32],
}

impl View for Address {
    type V = Seq<u8>;

    open spec fn view(&self) -> Seq<u8> {
        self.bytes@
    }
}

impl Address {
    /// Byte-wise equality of two identities.
    pub fn same_as(&self, other: &Address) -> (r: bool)
        ensures
            r == (self@ == other@),
    {
        let mut i: usize = 0;
        while i < 32
            invariant
                i <= 32,
                self@.len() == 32,
                other@.len() == 32,
                forall|j: int| 0 <= j < i ==> self@[j] == other@[j],
            decreases 32 - i,
        {
            if self.bytes[i] != other.bytes[i] {
                return false;
            }
            i = i + 1;
        }
        assert(self@ =~= other@);
        true
    }

    /// The identity's bytes, as a derivation seed.
    pub fn to_seed(&self) -> (r: Vec<u8>)
        ensures
            r@ == self@,
    {
        let mut v: Vec<u8> = Vec::new();
        let mut i: usize = 0;
        while i < 32
            invariant
                i <= 32,
                self@.len() == 32,
                v@ == self@.subrange(0, i as int),
            decreases 32 - i,
        {
            v.push(self.bytes[i]);
            i = i + 1;
            assert(v@ =~= self@.subrange(0, i as int));
        }
        assert(self@.subrange(0, 32) =~= self@);
        v
    }
}

/// Namespace tag `shcp_staking` of staking records and of the custody identity that holds staked assets.
pub open spec fn staking_tag() -> Seq<u8> {
    seq![115u8, 104, 99, 112, 95, 115, 116, 97, 107, 105, 110, 103]
}

/// Namespace tag `shapz_config` of the configuration record that holds the reward vault.
pub open spec fn config_tag() -> Seq<u8> {
    seq![115u8, 104, 97, 112, 122, 95, 99, 111, 110, 102, 105, 103]
}

pub fn staking_prefix() -> (r: Vec<u8>)
    ensures
        r@ == staking_tag(),
{
    let r: Vec<u8> = vec![115u8, 104, 99, 112, 95, 115, 116, 97, 107, 105, 110, 103];
    assert(r@ =~= staking_tag());
    r
}

pub fn config_prefix() -> (r: Vec<u8>)
    ensures
        r@ == config_tag(),
{
    let r: Vec<u8> = vec![115u8, 104, 97, 112, 122, 95, 99, 111, 110, 102, 105, 103];
    assert(r@ =~= config_tag());
    r
}

/// What the host derives from a list of seeds under a program: the address
/// and its bump byte, or nothing when no bump gives a valid address.
pub uninterp spec fn program_address(seeds: Seq<Seq<u8>>, program_id: Seq<u8>) -> Option<(Seq<u8>, u8)>;

pub open spec fn seeds_view(seeds: Seq<Vec<u8>>) -> Seq<Seq<u8>> {
    seeds.map_values(|s: Vec<u8>| s@)
}

pub open spec fn derived_view(r: Option<(Address, u8)>) -> Option<(Seq<u8>, u8)> {
    match r {
        Some((a, b)) => Some((a@, b)),
        None => None,
    }
}

/// Relies on solana_pubkey's `Pubkey::try_find_program_address`: the address
/// and bump are a function of the seeds and the program id alone, and
/// `None` comes back (no panic) when the seeds are out of bounds or no bump works.
#[verifier::external_body]
fn try_find_program_address(seeds: &Vec<Vec<u8>>, program_id: &Address) -> (r: Option<(Address, u8)>)
    ensures
        derived_view(r) == program_address(seeds_view(seeds@), program_id@),
{
    let slices: Vec<&[u8]> = seeds.iter().map(|s| s.as_slice()).collect();
    let id = anchor_lang::prelude::Pubkey::new_from_array(program_id.bytes);
    anchor_lang::prelude::Pubkey::try_find_program_address(&slices, &id)
        .map(|(k, b)| (Address { bytes: k.to_bytes() }, b))
}

/// Seeds of the staking record of `(authority, player, mint)`.
pub open spec fn staking_seeds(authority: Seq<u8>, player: Seq<u8>, mint: Seq<u8>) -> Seq<Seq<u8>> {
    seq![staking_tag(), authority, player, mint]
}

/// Seeds of the configuration record of `authority`.
pub open spec fn config_seeds(authority: Seq<u8>) -> Seq<Seq<u8>> {
    seq![config_tag(), authority]
}

/// Seeds followed by the bump byte: the proof of derivation that lets the
/// derived identity act as an authority.
pub open spec fn with_bump(seeds: Seq<Seq<u8>>, bump: u8) -> Seq<Seq<u8>> {
    seeds.push(seq![bump])
}

/// Address and bump of the staking record of `(authority, player, mint)`.
pub open spec fn staking_address(
    program_id: Seq<u8>,
    authority: Seq<u8>,
    player: Seq<u8>,
    mint: Seq<u8>,
) -> Option<(Seq<u8>, u8)> {
    program_address(staking_seeds(authority, player, mint), program_id)
}

/// Address and bump of the configuration record of `authority`.
pub open spec fn config_address(program_id: Seq<u8>, authority: Seq<u8>) -> Option<(Seq<u8>, u8)> {
    program_address(config_seeds(authority), program_id)
}

pub fn staking_seeds_of(authority: &Address, player: &Address, mint: &Address) -> (r: Vec<Vec<u8>>)
    ensures
        seeds_view(r@) == staking_seeds(authority@, player@, mint@),
{
    let mut r: Vec<Vec<u8>> = Vec::new();
    r.push(staking_prefix());
    r.push(authority.to_seed());
    r.push(player.to_seed());
    r.push(mint.to_seed());
    assert(seeds_view(r@) =~= staking_seeds(authority@, player@, mint@));
    r
}

pub fn config_seeds_of(authority: &Address) -> (r: Vec<Vec<u8>>)
    ensures
        seeds_view(r@) == config_seeds(authority@),
{
    let mut r: Vec<Vec<u8>> = Vec::new();
    r.push(config_prefix());
    r.push(authority.to_seed());
    assert(seeds_view(r@) =~= config_seeds(authority@));
    r
}

/// Appends the bump byte to a list of seeds.
pub fn push_bump(seeds: &mut Vec<Vec<u8>>, bump: u8)
    ensures
        seeds_view(final(seeds)@) == with_bump(seeds_view(old(seeds)@), bump),
{
    let b: Vec<u8> = vec![bump];
    assert(b@ =~= seq![bump]);
    seeds.push(b);
    assert(seeds_view(seeds@) =~= with_bump(seeds_view(old(seeds)@), bump));
}

/// The custody identity of the staking record of `(authority, player, mint)`.
pub fn find_staking_address(
    program_id: &Address,
    authority: &Address,
    player: &Address,
    mint: &Address,
) -> (r: Option<(Address, u8)>)
    ensures
        derived_view(r) == staking_address(program_id@, authority@, player@, mint@),
{
    let seeds = staking_seeds_of(authority, player, mint);
    try_find_program_address(&seeds, program_id)
}

/// The custody identity of the configuration record of `authority`.
pub fn find_config_address(program_id: &Address, authority: &Address) -> (r: Option<(Address, u8)>)
    ensures
        derived_view(r) == config_address(program_id@, authority@),
{
    let seeds = config_seeds_of(authority);
    try_find_program_address(&seeds, program_id)
}

} // verus!
