//! Identities and their deterministic derivation.
//!
//! An identity is a 32-byte name. A derived identity is computed from a purpose
//! tag, a list of parent identities and the identity of the deriving program. It
//! comes with a bump: the highest one-byte seed, searched downwards from 255, for
//! which the hashed seeds give an address that no private key can belong to.

use anchor_lang::prelude::Pubkey;
use anchor_lang::solana_program::pubkey::PubkeyError;
use vstd::prelude::*;

verus! {

/// An opaque 32-byte value that names an account or another entity.
#[derive(Clone, Copy, Debug, Eq)]
pub struct Identity {
    pub bytes: [u8; 32],
}

impl View for Identity {
    type V = Seq<u8>;

    open spec fn view(&self) -> Seq<u8> {
        self.bytes@
    }
}

impl PartialEq for Identity {
    fn eq(&self, other: &Identity) -> (r: bool) {
        let mut i: usize = 0;
        while i < 32
            invariant
                i <= 32,
                forall|j: int| 0 <= j < i ==> self.bytes@[j] == other.bytes@[j],
            decreases 32 - i,
        {
            if self.bytes[i] != other.bytes[i] {
                return false;
            }
            i += 1;
        }
        proof {
            assert(self.bytes@ =~= other.bytes@);
        }
        true
    }
}

impl vstd::std_specs::cmp::PartialEqSpecImpl for Identity {
    open spec fn obeys_eq_spec() -> bool {
        true
    }

    open spec fn eq_spec(&self, other: &Identity) -> bool {
        self@ == other@
    }
}

impl Identity {
    /// The bytes of this identity, as one seed of a derivation.
    pub fn to_seed(&self) -> (r: Vec<u8>)
        ensures
            r@ == self@,
    {
        let mut r: Vec<u8> = Vec::new();
        let mut i: usize = 0;
        while i < 32
            invariant
                i <= 32,
                r@.len() == i,
                forall|j: int| 0 <= j < i ==> r@[j] == self.bytes@[j],
            decreases 32 - i,
        {
            r.push(self.bytes[i]);
            i += 1;
        }
        proof {
            assert(r@ =~= self@);
        }
        r
    }
}

/// The address that `Pubkey::create_program_address` computes from `seeds` for
/// the program `program_id`, or `None` where it reports an error.
pub uninterp spec fn program_address(seeds: Seq<Seq<u8>>, program_id: Seq<u8>) -> Option<Seq<u8>>;

/// The error of `Pubkey::create_program_address`, carried through unread.
#[verifier::external_type_specification]
#[verifier::external_body]
pub struct ExPubkeyError(PubkeyError);

/// The seeds of a derivation as sequences of bytes.
pub open spec fn seeds_view(seeds: Seq<Vec<u8>>) -> Seq<Seq<u8>> {
    Seq::new(seeds.len(), |i: int| seeds[i]@)
}

/// The seed that a bump contributes: the one byte.
pub open spec fn bump_seed(bump: u8) -> Seq<u8> {
    seq![bump]
}

/// The downward search for a bump: the first of `from`, `from - 1`, ..., 1 for
/// which the seeds followed by the bump have an address, with that address.
pub open spec fn bump_search(seeds: Seq<Seq<u8>>, program_id: Seq<u8>, from: u8) -> Option<
    (Seq<u8>, u8),
>
    decreases from,
{
    if from == 0 {
        None
    } else {
        match program_address(seeds.push(bump_seed(from)), program_id) {
            Some(address) => Some((address, from)),
            None => bump_search(seeds, program_id, (from - 1) as u8),
        }
    }
}

/// The canonical address of `seeds` and its bump: the search starts at 255.
pub open spec fn canonical_address(seeds: Seq<Seq<u8>>, program_id: Seq<u8>) -> Option<
    (Seq<u8>, u8),
> {
    bump_search(seeds, program_id, 255)
}

/// The seeds of a derived identity: the purpose tag, then each parent's bytes.
pub open spec fn derivation_seeds(purpose: Seq<u8>, parents: Seq<Identity>) -> Seq<Seq<u8>> {
    seq![purpose] + Seq::new(parents.len(), |i: int| parents[i]@)
}

/// Calls `Pubkey::create_program_address`. The contract names the address it
/// returns, as a function of the seeds and the program, and says nothing else
/// of it: the hash and the curve test behind it are not modelled.
#[verifier::external_body]
fn create_program_address(seeds: &Vec<Vec<u8>>, program_id: &Identity) -> (r: Result<
    Identity,
    PubkeyError,
>)
    ensures
        match r {
            Ok(id) => program_address(seeds_view(seeds@), program_id@) == Some(id@),
            Err(_) => program_address(seeds_view(seeds@), program_id@) is None,
        },
{
    let parts: Vec<&[u8]> = seeds.iter().map(|seed| seed.as_slice()).collect();
    let program = Pubkey::new_from_array(program_id.bytes);
    Pubkey::create_program_address(&parts, &program).map(|key| Identity { bytes: key.to_bytes() })
}

/// Calls `Pubkey::try_find_program_address`. That function tries the bumps 255
/// down to 1, each appended to the seeds as a last seed of one byte, and
/// returns the first address that `Pubkey::create_program_address` accepts,
/// with its bump; the contract says so over the named address. Where there
/// are too many seeds or one is too long, it gives up at the first bump and
/// returns `None`: then no bump has an address, and the search finds none.
#[verifier::external_body]
fn find_program_address(seeds: &Vec<Vec<u8>>, program_id: &Identity) -> (r: Option<(Identity, u8)>)
    ensures
        match r {
            Some((id, bump)) => canonical_address(seeds_view(seeds@), program_id@) == Some(
                (id@, bump),
            ),
            None => canonical_address(seeds_view(seeds@), program_id@) is None,
        },
{
    let parts: Vec<&[u8]> = seeds.iter().map(|seed| seed.as_slice()).collect();
    let program = Pubkey::new_from_array(program_id.bytes);
    Pubkey::try_find_program_address(&parts, &program).map(
        |(key, bump)| (Identity { bytes: key.to_bytes() }, bump),
    )
}

/// Builds the seeds of a derived identity.
fn build_seeds(purpose: &Vec<u8>, parents: &Vec<Identity>) -> (seeds: Vec<Vec<u8>>)
    ensures
        seeds_view(seeds@) == derivation_seeds(purpose@, parents@),
{
    let mut seeds: Vec<Vec<u8>> = Vec::new();
    seeds.push(purpose.clone());
    let mut i: usize = 0;
    while i < parents.len()
        invariant
            i <= parents.len(),
            seeds@.len() == i + 1,
            seeds@[0]@ == purpose@,
            forall|j: int| 0 <= j < i ==> (#[trigger] seeds@[j + 1])@ == parents@[j]@,
        decreases parents.len() - i,
    {
        seeds.push(parents[i].to_seed());
        i += 1;
    }
    proof {
        assert(seeds_view(seeds@) =~= derivation_seeds(purpose@, parents@)) by {
            assert forall|k: int| 0 <= k < seeds@.len() implies seeds_view(seeds@)[k]
                == derivation_seeds(purpose@, parents@)[k] by {
                if k > 0 {
                    assert(seeds@[(k - 1) + 1]@ == parents@[k - 1]@);
                }
            }
        }
    }
    seeds
}

/// The seeds by which a derived identity signs: the purpose tag, each
/// parent's bytes, then the bump as a last seed of one byte.
pub fn signer_seeds(purpose: &Vec<u8>, parents: &Vec<Identity>, bump: u8) -> (seeds: Vec<Vec<u8>>)
    ensures
        seeds_view(seeds@) == derivation_seeds(purpose@, parents@).push(bump_seed(bump)),
{
    let mut seeds = build_seeds(purpose, parents);
    let mut last: Vec<u8> = Vec::new();
    last.push(bump);
    seeds.push(last);
    proof {
        assert(last@ =~= bump_seed(bump));
        assert(seeds_view(seeds@) =~= derivation_seeds(purpose@, parents@).push(bump_seed(bump)));
    }
    seeds
}

/// Derives the identity for `purpose` and `parents` under `program_id`, with
/// its bump. `None` where no bump from 255 down to 1 gives an address.
pub fn derive(purpose: &Vec<u8>, parents: &Vec<Identity>, program_id: &Identity) -> (r: Option<
    (Identity, u8),
>)
    ensures
        match r {
            Some((id, bump)) => canonical_address(
                derivation_seeds(purpose@, parents@),
                program_id@,
            ) == Some((id@, bump)),
            None => canonical_address(derivation_seeds(purpose@, parents@), program_id@) is None,
        },
{
    let seeds = build_seeds(purpose, parents);
    find_program_address(&seeds, program_id)
}

/// Recomputes the identity for `purpose`, `parents` and a stored `bump`,
/// without searching. `None` where these seeds have no address.
pub fn reconstruct(
    purpose: &Vec<u8>,
    parents: &Vec<Identity>,
    bump: u8,
    program_id: &Identity,
) -> (r: Option<Identity>)
    ensures
        match r {
            Some(id) => program_address(
                derivation_seeds(purpose@, parents@).push(bump_seed(bump)),
                program_id@,
            ) == Some(id@),
            None => program_address(
                derivation_seeds(purpose@, parents@).push(bump_seed(bump)),
                program_id@,
            ) is None,
        },
{
    let seeds = signer_seeds(purpose, parents, bump);
    match create_program_address(&seeds, program_id) {
        Ok(id) => Some(id),
        Err(_) => None,
    }
}

/// Whether `claimed` is the identity that `purpose`, `parents` and `bump`
/// reconstruct to. An identity that does not reconstruct is never accepted.
pub fn verify(
    claimed: &Identity,
    purpose: &Vec<u8>,
    parents: &Vec<Identity>,
    bump: u8,
    program_id: &Identity,
) -> (r: bool)
    ensures
        r <==> program_address(
            derivation_seeds(purpose@, parents@).push(bump_seed(bump)),
            program_id@,
        ) == Some(claimed@),
{
    match reconstruct(purpose, parents, bump, program_id) {
        Some(id) => id == *claimed,
        None => false,
    }
}

/// What the search from `from` returns is an address of the seeds with the
/// bump returned; the bump lies in `1..=from`, and no higher bump up to `from`
/// has an address.
pub proof fn lemma_bump_search(seeds: Seq<Seq<u8>>, program_id: Seq<u8>, from: u8)
    ensures
        match bump_search(seeds, program_id, from) {
            Some((address, bump)) => {
                &&& 1 <= bump <= from
                &&& program_address(seeds.push(bump_seed(bump)), program_id) == Some(address)
                &&& forall|b: u8|
                    bump < b <= from ==> program_address(
                        #[trigger] seeds.push(bump_seed(b)),
                        program_id,
                    ) is None
            },
            None => forall|b: u8|
                1 <= b <= from ==> program_address(
                    #[trigger] seeds.push(bump_seed(b)),
                    program_id,
                ) is None,
        },
    decreases from,
{
    if from != 0 {
        if program_address(seeds.push(bump_seed(from)), program_id) is None {
            lemma_bump_search(seeds, program_id, (from - 1) as u8);
        }
    }
}

/// Reconstruction agrees with derivation: where `purpose` and `parents` derive
/// an identity with a bump, the same inputs with that bump reconstruct to that
/// identity, and every higher bump reconstructs to nothing.
pub proof fn lemma_reconstruct_matches_derive(
    purpose: Seq<u8>,
    parents: Seq<Identity>,
    program_id: Seq<u8>,
)
    ensures
        match canonical_address(derivation_seeds(purpose, parents), program_id) {
            Some((address, bump)) => {
                &&& bump >= 1
                &&& program_address(
                    derivation_seeds(purpose, parents).push(bump_seed(bump)),
                    program_id,
                ) == Some(address)
                &&& forall|b: u8|
                    bump < b ==> program_address(
                        #[trigger] derivation_seeds(purpose, parents).push(bump_seed(b)),
                        program_id,
                    ) is None
            },
            None => true,
        },
{
    lemma_bump_search(derivation_seeds(purpose, parents), program_id, 255);
}

} // verus!
