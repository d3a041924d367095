//! Address and authority model: deterministic derivation of custody addresses
//! from a domain-separation tag and input identities, and proof of control by
//! recomputation. No private key is ever held for a derived address; signing
//! authority is established by re-supplying the same seed material.

use vstd::prelude::*;

verus! {

/// A ledger account address: thirty-two raw bytes.
pub type Address = [u8; 32];

/// What the deriving program's address-creation routine returns for a given
/// seed list: the derived address, or nothing when the seeds are rejected
/// (over-long, too many, or the hash lands on the ed25519 curve).
pub uninterp spec fn create_program_address_of(
    seeds: Seq<Seq<u8>>,
    program_id: Seq<u8>,
) -> Option<Seq<u8>>;

/// What the bump search returns for a given seed list: the first derived
/// address found walking the disambiguation byte downward from its maximum,
/// with that byte, or nothing when no byte yields an address.
pub uninterp spec fn find_program_address_of(
    seeds: Seq<Seq<u8>>,
    program_id: Seq<u8>,
) -> Option<(Seq<u8>, u8)>;

/// The byte sequences of a list of seed buffers.
pub open spec fn seeds_view(seeds: Seq<Vec<u8>>) -> Seq<Seq<u8>> {
    seeds.map_values(|v: Vec<u8>| v@)
}

/// Relies on Pubkey::try_find_program_address (anchor_lang's re-exported
/// solana_program::pubkey): walks candidate bump bytes downward from 255 and
/// returns the first off-curve derived address with its bump, or None when no
/// bump yields one. The result depends on the seeds and program id alone, and
/// a returned pair recomputes to the same address through
/// Pubkey::create_program_address with the bump appended as a final seed.
#[verifier::external_body]
fn try_find_program_address(seeds: &Vec<Vec<u8>>, program_id: &Address) -> (r: Option<
    (Address, u8),
>)
    ensures
        r matches Some(p) ==> find_program_address_of(seeds_view(seeds@), program_id@) == Some(
            (p.0@, p.1),
        ) && create_program_address_of(seeds_view(seeds@).push(seq![p.1]), program_id@) == Some(
            p.0@,
        ),
        r is None ==> find_program_address_of(seeds_view(seeds@), program_id@) is None,
{
    let seed_slices: Vec<&[u8]> = seeds.iter().map(|s| s.as_slice()).collect();
    let pid = anchor_lang::solana_program::pubkey::Pubkey::from(*program_id);
    anchor_lang::solana_program::pubkey::Pubkey::try_find_program_address(&seed_slices, &pid)
        .map(|(addr, bump)| (addr.to_bytes(), bump))
}

/// Relies on Pubkey::create_program_address (anchor_lang's re-exported
/// solana_program::pubkey): hashes the seed list with the program id and a
/// fixed marker and returns the derived address, or an error when a seed is
/// over-long, there are too many seeds, or the hash is a valid curve point.
/// The result depends on the seeds and program id alone.
#[verifier::external_body]
fn create_program_address(seeds: &Vec<Vec<u8>>, program_id: &Address) -> (r: Option<Address>)
    ensures
        r matches Some(a) ==> create_program_address_of(seeds_view(seeds@), program_id@) == Some(
            a@,
        ),
        r is None ==> create_program_address_of(seeds_view(seeds@), program_id@) is None,
{
    let seed_slices: Vec<&[u8]> = seeds.iter().map(|s| s.as_slice()).collect();
    let pid = anchor_lang::solana_program::pubkey::Pubkey::from(*program_id);
    match anchor_lang::solana_program::pubkey::Pubkey::create_program_address(&seed_slices, &pid) {
        Ok(addr) => Some(addr.to_bytes()),
        Err(_) => None,
    }
}

/// Domain-separation tags for the addresses the ledger derives.
#[derive(Clone, Copy, Debug, PartialEq, Eq, Structural)]
pub enum DomainTag {
    /// The singleton global configuration record.
    GlobalState,
    /// The stable-asset mint.
    StableMint,
    /// A per-collateral-asset vault record, keyed by the collateral identity.
    TokenVault,
    /// A vault's custody pool account, keyed by the vault address.
    VaultPool,
    /// A per-user position record, keyed by vault address and owner identity.
    UserTrove,
    /// A user's stable-asset token account.
    UserStableToken,
}

/// The seed bytes of a domain-separation tag.
pub open spec fn spec_tag_seed(tag: DomainTag) -> Seq<u8> {
    match tag {
        DomainTag::GlobalState => seq![
            103u8, 108u8, 111u8, 98u8, 97u8, 108u8, 45u8, 115u8, 116u8, 97u8, 116u8, 101u8, 45u8,
            115u8, 101u8, 101u8, 100u8,
        ],
        DomainTag::StableMint => seq![
            117u8, 115u8, 100u8, 45u8, 109u8, 105u8, 110u8, 116u8, 45u8, 115u8, 101u8, 101u8,
            100u8,
        ],
        DomainTag::TokenVault => seq![
            116u8, 111u8, 107u8, 101u8, 110u8, 45u8, 118u8, 97u8, 117u8, 108u8, 116u8, 45u8,
            115u8, 101u8, 101u8, 100u8,
        ],
        DomainTag::VaultPool => seq![
            116u8, 111u8, 107u8, 101u8, 110u8, 45u8, 118u8, 97u8, 117u8, 108u8, 116u8, 45u8,
            112u8, 111u8, 111u8, 108u8, 45u8, 115u8, 101u8, 101u8, 100u8,
        ],
        DomainTag::UserTrove => seq![
            117u8, 115u8, 101u8, 114u8, 45u8, 116u8, 114u8, 111u8, 118u8, 101u8, 45u8, 115u8,
            101u8, 101u8, 100u8,
        ],
        DomainTag::UserStableToken => seq![
            117u8, 115u8, 101u8, 114u8, 45u8, 117u8, 115u8, 100u8, 45u8, 116u8, 111u8, 107u8,
            101u8, 110u8, 45u8, 115u8, 101u8, 101u8, 100u8,
        ],
    }
}

/// The seed bytes of a tag, as a buffer.
pub fn tag_seed(tag: DomainTag) -> (r: Vec<u8>)
    ensures
        r@ == spec_tag_seed(tag),
{
    let r: Vec<u8> = match tag {
        DomainTag::GlobalState => vec![
            103u8, 108u8, 111u8, 98u8, 97u8, 108u8, 45u8, 115u8, 116u8, 97u8, 116u8, 101u8, 45u8,
            115u8, 101u8, 101u8, 100u8,
        ],
        DomainTag::StableMint => vec![
            117u8, 115u8, 100u8, 45u8, 109u8, 105u8, 110u8, 116u8, 45u8, 115u8, 101u8, 101u8,
            100u8,
        ],
        DomainTag::TokenVault => vec![
            116u8, 111u8, 107u8, 101u8, 110u8, 45u8, 118u8, 97u8, 117u8, 108u8, 116u8, 45u8,
            115u8, 101u8, 101u8, 100u8,
        ],
        DomainTag::VaultPool => vec![
            116u8, 111u8, 107u8, 101u8, 110u8, 45u8, 118u8, 97u8, 117u8, 108u8, 116u8, 45u8,
            112u8, 111u8, 111u8, 108u8, 45u8, 115u8, 101u8, 101u8, 100u8,
        ],
        DomainTag::UserTrove => vec![
            117u8, 115u8, 101u8, 114u8, 45u8, 116u8, 114u8, 111u8, 118u8, 101u8, 45u8, 115u8,
            101u8, 101u8, 100u8,
        ],
        DomainTag::UserStableToken => vec![
            117u8, 115u8, 101u8, 114u8, 45u8, 117u8, 115u8, 100u8, 45u8, 116u8, 111u8, 107u8,
            101u8, 110u8, 45u8, 115u8, 101u8, 101u8, 100u8,
        ],
    };
    proof {
        assert(r@ =~= spec_tag_seed(tag));
    }
    r
}

/// The full seed material for a derivation: the tag's bytes followed by the
/// input identities.
pub open spec fn spec_seed_material(tag: DomainTag, inputs: Seq<Seq<u8>>) -> Seq<Seq<u8>> {
    seq![spec_tag_seed(tag)] + inputs
}

/// A fresh copy of a byte buffer.
fn copy_bytes(v: &Vec<u8>) -> (r: Vec<u8>)
    ensures
        r@ == v@,
{
    let mut r: Vec<u8> = Vec::new();
    let mut i: usize = 0;
    while i < v.len()
        invariant
            0 <= i <= v@.len(),
            r@ == v@.take(i as int),
        decreases v@.len() - i,
    {
        r.push(v[i]);
        i = i + 1;
        proof {
            assert(r@ =~= v@.take(i as int));
        }
    }
    proof {
        assert(r@ =~= v@);
    }
    r
}

/// Builds the seed buffers for a tag and its input identities.
fn build_seed_material(tag: DomainTag, inputs: &Vec<Vec<u8>>) -> (r: Vec<Vec<u8>>)
    ensures
        seeds_view(r@) == spec_seed_material(tag, seeds_view(inputs@)),
{
    let mut seeds: Vec<Vec<u8>> = Vec::new();
    seeds.push(tag_seed(tag));
    let mut i: usize = 0;
    while i < inputs.len()
        invariant
            0 <= i <= inputs@.len(),
            seeds@.len() == i + 1,
            seeds@[0]@ == spec_tag_seed(tag),
            forall|j: int| 0 <= j < i ==> seeds@[j + 1]@ == inputs@[j]@,
        decreases inputs@.len() - i,
    {
        seeds.push(copy_bytes(&inputs[i]));
        i = i + 1;
    }
    proof {
        assert(seeds_view(seeds@) =~= spec_seed_material(tag, seeds_view(inputs@)));
    }
    seeds
}

/// Derives the custody address for a tag and input identities: the address
/// and the disambiguation byte ("bump") that makes it avoid collision with a
/// valid externally-held key. Returns nothing only when no bump in the valid
/// range avoids collision, a fatal configuration error. The returned pair
/// always passes `verify_address` for the same tag and inputs.
pub fn derive_address(tag: DomainTag, inputs: &Vec<Vec<u8>>, program_id: &Address) -> (r: Option<
    (Address, u8),
>)
    ensures
        r matches Some(p) ==> find_program_address_of(
            spec_seed_material(tag, seeds_view(inputs@)),
            program_id@,
        ) == Some((p.0@, p.1)) && create_program_address_of(
            spec_seed_material(tag, seeds_view(inputs@)).push(seq![p.1]),
            program_id@,
        ) == Some(p.0@),
        r is None ==> find_program_address_of(
            spec_seed_material(tag, seeds_view(inputs@)),
            program_id@,
        ) is None,
{
    let seeds = build_seed_material(tag, inputs);
    try_find_program_address(&seeds, program_id)
}

/// An address as a seed buffer.
pub fn address_to_vec(a: &Address) -> (r: Vec<u8>)
    ensures
        r@ == a@,
{
    let mut r: Vec<u8> = Vec::new();
    let mut i: usize = 0;
    while i < 32
        invariant
            0 <= i <= 32,
            r@ == a@.take(i as int),
        decreases 32 - i,
    {
        r.push(a[i]);
        i = i + 1;
        proof {
            assert(r@ =~= a@.take(i as int));
        }
    }
    proof {
        assert(r@ =~= a@);
    }
    r
}

/// Compares two addresses byte for byte.
pub fn address_eq(a: &Address, b: &Address) -> (r: bool)
    ensures
        r == (a@ == b@),
{
    let mut i: usize = 0;
    while i < 32
        invariant
            0 <= i <= 32,
            forall|j: int| 0 <= j < i ==> a@[j] == b@[j],
        decreases 32 - i,
    {
        if a[i] != b[i] {
            return false;
        }
        i = i + 1;
    }
    proof {
        assert(a@ =~= b@);
    }
    true
}

/// Address derivation is deterministic: any two derivation results for the
/// same seed material and deriving program agree, both in whether a pair was
/// found and in the address and bump found, because each result is pinned to
/// the one value of the underlying derivation function.
pub proof fn lemma_derive_deterministic(
    r1: Option<(Address, u8)>,
    r2: Option<(Address, u8)>,
    seeds: Seq<Seq<u8>>,
    program_id: Seq<u8>,
)
    requires
        (r1 matches Some(p) ==> find_program_address_of(seeds, program_id) == Some((p.0@, p.1))),
        r1 is None ==> find_program_address_of(seeds, program_id) is None,
        (r2 matches Some(p) ==> find_program_address_of(seeds, program_id) == Some((p.0@, p.1))),
        r2 is None ==> find_program_address_of(seeds, program_id) is None,
    ensures
        r1 is Some <==> r2 is Some,
        r1 is Some && r2 is Some ==> (r1->0).0@ == (r2->0).0@ && (r1->0).1 == (r2->0).1,
{
}

/// Recomputes the derived address for a tag, inputs and a claimed bump, and
/// accepts the claimed address exactly when recomputation reproduces it.
/// Downstream operations call this before trusting any supplied address and
/// bump pair; a caller-supplied bump is never trusted blindly.
pub fn verify_address(
    address: &Address,
    tag: DomainTag,
    inputs: &Vec<Vec<u8>>,
    bump: u8,
    program_id: &Address,
) -> (r: bool)
    ensures
        r == (create_program_address_of(
            spec_seed_material(tag, seeds_view(inputs@)).push(seq![bump]),
            program_id@,
        ) == Some(address@)),
{
    let mut seeds = build_seed_material(tag, inputs);
    let mut bump_seed: Vec<u8> = Vec::new();
    bump_seed.push(bump);
    seeds.push(bump_seed);
    proof {
        assert(seeds_view(seeds@) =~= spec_seed_material(tag, seeds_view(inputs@)).push(
            seq![bump],
        ));
    }
    match create_program_address(&seeds, program_id) {
        Some(recomputed) => address_eq(address, &recomputed),
        None => false,
    }
}

} // verus!
