use vstd::prelude::*;

verus! {

/// A 32-byte account address on the host ledger, used both as a storage key
/// and, when derived from seeds, as an authorization proof.
#[derive(Clone, Copy, Debug)]
pub struct Address {
    pub bytes: [u8; 32],
}

impl View for Address {
    type V = Seq<u8>;

    open spec fn view(&self) -> Seq<u8> {
        self.bytes@
    }
}

/// Compare two addresses byte for byte.
pub fn address_eq(a: &Address, b: &Address) -> (r: bool)
    ensures
        r <==> a@ == b@,
{
    let mut i: usize = 0;
    while i < 32
        invariant
            i <= 32,
            forall|j: int| 0 <= j < i ==> a.bytes@[j] == b.bytes@[j],
        decreases 32 - i,
    {
        if a.bytes[i] != b.bytes[i] {
            return false;
        }
        i = i + 1;
    }
    proof {
        assert(a@ =~= b@);
    }
    true
}

/// Copy an address into a growable byte vector.
pub fn address_to_vec(a: &Address) -> (r: Vec<u8>)
    ensures
        r@ == a@,
{
    let mut r: Vec<u8> = Vec::new();
    let mut i: usize = 0;
    while i < 32
        invariant
            i <= 32,
            r@ == a.bytes@.take(i as int),
        decreases 32 - i,
    {
        r.push(a.bytes[i]);
        proof {
            assert(r@ =~= a.bytes@.take(i + 1 as int));
        }
        i = i + 1;
    }
    proof {
        assert(a.bytes@.take(32) =~= a@);
    }
    r
}

/// The address, if any, that the host ledger's seed-based derivation scheme
/// assigns to the given seed list under the given program identity.
pub uninterp spec fn program_derived_address(seeds: Seq<Seq<u8>>, program_id: Seq<u8>) -> Option<
    Seq<u8>,
>;

/// Relies on solana_program's `Pubkey::create_program_address`: the SHA-256
/// based derivation of a program address from a seed list and a program
/// identity. It is deterministic in its arguments, and returns an error when
/// the seed list is too long, a seed exceeds 32 bytes, or the hash lands on
/// the ed25519 curve; it does not panic.
#[verifier::external_body]
fn create_program_address(seeds: &Vec<Vec<u8>>, program_id: &Address) -> (r: Option<Address>)
    ensures
        (r matches Some(a) ==> program_derived_address(seeds.deep_view(), program_id@) == Some(
            a@,
        )),
        r is None ==> program_derived_address(seeds.deep_view(), program_id@) is None,
{
    let seed_refs: Vec<&[u8]> = seeds.iter().map(|s| s.as_slice()).collect();
    let pid = solana_program::pubkey::Pubkey::new_from_array(program_id.bytes);
    match solana_program::pubkey::Pubkey::create_program_address(&seed_refs, &pid) {
        Ok(a) => Some(Address { bytes: a.to_bytes() }),
        Err(_) => None,
    }
}

/// The fixed domain-separation label under which the resolver configuration's
/// storage address is derived: the bytes of `"extra-account-metas"`.
pub open spec fn extra_account_metas_label() -> Seq<u8> {
    seq![
        101u8,
        120u8,
        116u8,
        114u8,
        97u8,
        45u8,
        97u8,
        99u8,
        99u8,
        111u8,
        117u8,
        110u8,
        116u8,
        45u8,
        109u8,
        101u8,
        116u8,
        97u8,
        115u8,
    ]
}

/// The full seed list for the resolver configuration's address: the fixed
/// label, the mint's address, and the caller-supplied bump byte.
pub open spec fn config_seeds(mint: Seq<u8>, bump_seed: u8) -> Seq<Seq<u8>> {
    seq![extra_account_metas_label(), mint, seq![bump_seed]]
}

pub(crate) fn label_bytes() -> (r: Vec<u8>)
    ensures
        r@ == extra_account_metas_label(),
{
    let mut r: Vec<u8> = Vec::new();
    r.push(101u8);
    r.push(120u8);
    r.push(116u8);
    r.push(114u8);
    r.push(97u8);
    r.push(45u8);
    r.push(97u8);
    r.push(99u8);
    r.push(99u8);
    r.push(111u8);
    r.push(117u8);
    r.push(110u8);
    r.push(116u8);
    r.push(45u8);
    r.push(109u8);
    r.push(101u8);
    r.push(116u8);
    r.push(97u8);
    r.push(115u8);
    proof {
        assert(r@ =~= extra_account_metas_label());
    }
    r
}

/// Re-derive the resolver configuration's storage address from the fixed
/// label, the mint and the supplied bump seed.
pub fn expected_config_address(mint: &Address, bump_seed: u8, program_id: &Address) -> (r: Option<
    Address,
>)
    ensures
        (r matches Some(a) ==> program_derived_address(config_seeds(mint@, bump_seed), program_id@)
            == Some(a@)),
        r is None ==> program_derived_address(config_seeds(mint@, bump_seed), program_id@) is None,
{
    let mut seeds: Vec<Vec<u8>> = Vec::new();
    seeds.push(label_bytes());
    seeds.push(address_to_vec(mint));
    let mut bump: Vec<u8> = Vec::new();
    bump.push(bump_seed);
    seeds.push(bump);
    proof {
        assert(seeds@[0].deep_view() =~= extra_account_metas_label());
        assert(seeds@[1].deep_view() =~= mint@);
        assert(seeds@[2].deep_view() =~= seq![bump_seed]);
        assert(seeds.deep_view() =~= config_seeds(mint@, bump_seed));
    }
    create_program_address(&seeds, program_id)
}

} // verus!
