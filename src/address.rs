use anchor_lang::prelude::Pubkey;
use vstd::prelude::*;

verus! {

/// A 32-byte account key (an owner's identity, a program id, or a derived
/// vault address).
#[derive(Clone, Copy, Debug)]
pub struct Address {
    pub bytes: [u8; 32],
}

impl Address {
    pub fn new(bytes: [u8; 32]) -> (r: Address)
        ensures
            r.bytes@ == bytes@,
    {
        Address { bytes }
    }

    /// The key's bytes, in order, as a vector.
    pub fn to_vec(&self) -> (r: Vec<u8>)
        ensures
            r@ == self.bytes@,
    {
        let mut r: Vec<u8> = Vec::new();
        let mut i: usize = 0;
        while i < 32
            invariant
                i <= 32,
                r@ == self.bytes@.subrange(0, i as int),
            decreases 32 - i,
        {
            r.push(self.bytes[i]);
            i = i + 1;
            proof {
                assert(r@ =~= self.bytes@.subrange(0, i as int));
            }
        }
        proof {
            assert(self.bytes@.subrange(0, 32) =~= self.bytes@);
        }
        r
    }
}

impl PartialEq for Address {
    fn eq(&self, o: &Address) -> (r: bool) {
        let mut i: usize = 0;
        while i < 32
            invariant
                i <= 32,
                forall|j: int| 0 <= j < i ==> self.bytes@[j] == o.bytes@[j],
            decreases 32 - i,
        {
            if self.bytes[i] != o.bytes[i] {
                return false;
            }
            i = i + 1;
        }
        proof {
            assert(self.bytes@ =~= o.bytes@);
        }
        true
    }
}

impl vstd::std_specs::cmp::PartialEqSpecImpl for Address {
    open spec fn obeys_eq_spec() -> bool {
        true
    }

    open spec fn eq_spec(&self, o: &Address) -> bool {
        self.bytes@ == o.bytes@
    }
}

/// The domain tag `vault` as bytes.
pub open spec fn vault_seed_spec() -> Seq<u8> {
    seq![118u8, 97u8, 117u8, 108u8, 116u8]
}

/// The seeds of the vault owned by `owner`: the domain tag, then the owner's key.
pub open spec fn vault_seeds_spec(owner: Address) -> Seq<Seq<u8>> {
    seq![vault_seed_spec(), owner.bytes@]
}

/// What a program-address search yields for `seeds` under `program_id`: the
/// derived address and the bump seed that makes it valid, or nothing.
pub uninterp spec fn program_address_of(seeds: Seq<Seq<u8>>, program_id: Seq<u8>) -> Option<(Seq<u8>, u8)>;

/// Relies on `Pubkey::try_find_program_address` (re-exported by anchor_lang from
/// solana-program) to find a derived address and its bump seed: the result
/// depends on the seeds and the program id alone, and the search never panics.
#[verifier::external_body]
fn try_find_program_address(seeds: &Vec<Vec<u8>>, program_id: &Address) -> (r: Option<(Address, u8)>)
    ensures
        r matches Some((a, b)) ==> program_address_of(seeds.deep_view(), program_id.bytes@)
            == Some((a.bytes@, b)),
        r is None ==> program_address_of(seeds.deep_view(), program_id.bytes@) is None,
{
    let refs: Vec<&[u8]> = seeds.iter().map(|s| s.as_slice()).collect();
    let id = Pubkey::new_from_array(program_id.bytes);
    Pubkey::try_find_program_address(&refs, &id).map(|(k, bump)| (Address { bytes: k.to_bytes() }, bump))
}

/// The domain tag `vault` as bytes.
pub fn vault_seed() -> (r: Vec<u8>)
    ensures
        r@ == vault_seed_spec(),
{
    let r: Vec<u8> = vec![118u8, 97u8, 117u8, 108u8, 116u8];
    proof {
        assert(r@ =~= vault_seed_spec());
    }
    r
}

/// The seeds that derive the vault address of `owner`.
pub fn vault_seeds(owner: &Address) -> (r: Vec<Vec<u8>>)
    ensures
        r.deep_view() == vault_seeds_spec(*owner),
{
    let tag = vault_seed();
    let key = owner.to_vec();
    let mut r: Vec<Vec<u8>> = Vec::new();
    r.push(tag);
    r.push(key);
    proof {
        assert(tag.deep_view() =~= vault_seed_spec());
        assert(key.deep_view() =~= owner.bytes@);
        assert(r@[0] == tag && r@[1] == key);
        assert(r.deep_view() =~= vault_seeds_spec(*owner));
    }
    r
}

/// Derives the address of the vault owned by `owner` under `program_id`, with
/// the bump seed that later lets the vault sign for itself. The same inputs
/// always give the same result.
pub fn derive_vault_address(owner: &Address, program_id: &Address) -> (r: Option<(Address, u8)>)
    ensures
        r matches Some((a, b)) ==> program_address_of(vault_seeds_spec(*owner), program_id.bytes@)
            == Some((a.bytes@, b)),
        r is None <==> program_address_of(vault_seeds_spec(*owner), program_id.bytes@) is None,
{
    let seeds = vault_seeds(owner);
    try_find_program_address(&seeds, program_id)
}

} // verus!
