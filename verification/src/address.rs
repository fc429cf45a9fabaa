use crate::identity::Identity;
use solana_program::pubkey::Pubkey;
use vstd::prelude::*;

verus! {

/// The address that a program owns under a list of seeds, with the bump seed
/// that completes the list, or `None` where the seeds yield no such address.
pub uninterp spec fn program_address(seeds: Seq<Seq<u8>>, program: Seq<u8>) -> Option<(Seq<u8>, u8)>;

/// A derived address and its bump seed as plain values.
pub open spec fn derived_view(derived: Option<(Identity, u8)>) -> Option<(Seq<u8>, u8)> {
    match derived {
        Some((address, bump)) => Some((address@, bump)),
        None => None,
    }
}

/// Whether the seeds derive to an address, and that address is `key`.
pub open spec fn points_to(derived: Option<(Seq<u8>, u8)>, key: Identity) -> bool {
    match derived {
        Some((address, _)) => address == key@,
        None => false,
    }
}

/// The bump seed of a derived address.
pub open spec fn bump_of(derived: Option<(Seq<u8>, u8)>) -> u8 {
    match derived {
        Some((_, bump)) => bump,
        None => 0u8,
    }
}

/// A list of seeds as plain values.
pub open spec fn seeds_view(seeds: Seq<Vec<u8>>) -> Seq<Seq<u8>> {
    Seq::new(seeds.len(), |i: int| seeds[i]@)
}

/// The five bytes that open the seeds of every stake record: `stake` in ASCII.
pub open spec fn stake_prefix() -> Seq<u8> {
    seq![115u8, 116u8, 97u8, 107u8, 101u8]
}

/// The seeds of the stake record of an asset under a configuration.
pub open spec fn stake_seeds(config: Seq<u8>, asset: Seq<u8>) -> Seq<Seq<u8>> {
    seq![stake_prefix(), config, asset]
}

/// The four bytes that open the seeds of every user account: `user` in ASCII.
pub open spec fn user_prefix() -> Seq<u8> {
    seq![117u8, 115u8, 101u8, 114u8]
}

/// The seeds of the account of a user.
pub open spec fn user_seeds(owner: Seq<u8>) -> Seq<Seq<u8>> {
    seq![user_prefix(), owner]
}

/// Calls `Pubkey::try_find_program_address` of `solana_program`. Trusted, not
/// proved: what comes back depends on the seeds and on the program's identity
/// alone, so it is the named `program_address` of their bytes. Nothing else is
/// claimed of it.
#[verifier::external_body]
pub(crate) fn find_program_address(seeds: &Vec<Vec<u8>>, program: &Identity) -> (derived: Option<(Identity, u8)>)
    ensures
        derived_view(derived) == program_address(seeds_view(seeds@), program@),
{
    let parts: Vec<&[u8]> = seeds.iter().map(|seed| seed.as_slice()).collect();
    Pubkey::try_find_program_address(&parts, &Pubkey::new_from_array(program.bytes))
        .map(|(address, bump)| (Identity { bytes: address.to_bytes() }, bump))
}

/// The bytes of an identity, in a vector of their own.
fn identity_bytes(id: &Identity) -> (bytes: Vec<u8>)
    ensures
        bytes@ == id@,
{
    let mut bytes: Vec<u8> = Vec::new();
    let mut i: usize = 0;
    while i < 32
        invariant
            i <= 32,
            bytes@.len() == i,
            forall|j: int| 0 <= j < i ==> bytes@[j] == id.bytes[j],
        decreases 32 - i,
    {
        bytes.push(id.bytes[i]);
        i += 1;
    }
    assert(bytes@ =~= id@);
    bytes
}

/// Derives where the stake record of `asset` under the configuration at
/// `config` lies among the accounts of `program`, and the bump seed of that
/// address.
pub fn stake_record_address(program: &Identity, config: &Identity, asset: &Identity) -> (derived: Option<(Identity, u8)>)
    ensures
        derived_view(derived) == program_address(stake_seeds(config@, asset@), program@),
{
    let mut prefix: Vec<u8> = Vec::new();
    prefix.push(115u8);
    prefix.push(116u8);
    prefix.push(97u8);
    prefix.push(107u8);
    prefix.push(101u8);
    assert(prefix@ =~= stake_prefix());
    let mut seeds: Vec<Vec<u8>> = Vec::new();
    seeds.push(prefix);
    seeds.push(identity_bytes(config));
    seeds.push(identity_bytes(asset));
    assert(seeds_view(seeds@) =~= stake_seeds(config@, asset@));
    find_program_address(&seeds, program)
}

/// Derives where the account of the user `owner` lies among the accounts of
/// `program`, and the bump seed of that address.
pub fn user_account_address(program: &Identity, owner: &Identity) -> (derived: Option<(Identity, u8)>)
    ensures
        derived_view(derived) == program_address(user_seeds(owner@), program@),
{
    let mut prefix: Vec<u8> = Vec::new();
    prefix.push(117u8);
    prefix.push(115u8);
    prefix.push(101u8);
    prefix.push(114u8);
    assert(prefix@ =~= user_prefix());
    let mut seeds: Vec<Vec<u8>> = Vec::new();
    seeds.push(prefix);
    seeds.push(identity_bytes(owner));
    assert(seeds_view(seeds@) =~= user_seeds(owner@));
    find_program_address(&seeds, program)
}

} // verus!
