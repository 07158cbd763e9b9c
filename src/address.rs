use vstd::prelude::*;

verus! {

/// A 32-byte account identity.
#[derive(Clone, Copy, Debug)]
pub struct Address {
    pub bytes: [u8; 32],
}

impl Address {
    pub open spec fn view(&self) -> Seq<u8> {
        self.bytes@
    }

    pub fn new(bytes: [u8; 32]) -> (r: Address)
        ensures
            r.bytes == bytes,
    {
        Address { bytes }
    }

    /// The identity's bytes, in order.
    pub fn to_vec(&self) -> (r: Vec<u8>)
        ensures
            r@ == self@,
    {
        let mut r: Vec<u8> = Vec::new();
        let mut i: usize = 0;
        while i < 32
            invariant
                i <= 32,
                r@ =~= self.bytes@.subrange(0, i as int),
            decreases 32 - i,
        {
            r.push(self.bytes[i]);
            i = i + 1;
        }
        proof {
            assert(r@ =~= self@);
        }
        r
    }
}

impl PartialEq for Address {
    fn eq(&self, o: &Address) -> (r: bool) {
        let mut i: usize = 0;
        while i < 32
            invariant
                i <= 32,
                forall|j: int| 0 <= j < i ==> self.bytes@[j] == o.bytes@[j],
            decreases 32 - i,
        {
            if self.bytes[i] != o.bytes[i] {
                return false;
            }
            i = i + 1;
        }
        proof {
            assert(self.bytes@ =~= o.bytes@);
        }
        true
    }
}

impl vstd::std_specs::cmp::PartialEqSpecImpl for Address {
    open spec fn obeys_eq_spec() -> bool {
        true
    }

    open spec fn eq_spec(&self, o: &Address) -> bool {
        self.bytes@ == o.bytes@
    }
}

impl Eq for Address {
}

/// Seed of a lock record's address: `"lock"`.
pub open spec fn lock_seed() -> Seq<u8> {
    seq![108u8, 111, 99, 107]
}

/// Seed of the configuration record's address: `"config"`.
pub open spec fn config_seed() -> Seq<u8> {
    seq![99u8, 111, 110, 102, 105, 103]
}

/// Seed of the escrow authority's address: `"escrow_authority"`.
pub open spec fn escrow_authority_seed() -> Seq<u8> {
    seq![101u8, 115, 99, 114, 111, 119, 95, 97, 117, 116, 104, 111, 114, 105, 116, 121]
}

/// Seed under which the engine derives a position's address: `"position"`.
pub open spec fn position_seed() -> Seq<u8> {
    seq![112u8, 111, 115, 105, 116, 105, 111, 110]
}

/// Seed under which the engine derives its event authority: `"__event_authority"`.
pub open spec fn event_authority_seed() -> Seq<u8> {
    seq![95u8, 95, 101, 118, 101, 110, 116, 95, 97, 117, 116, 104, 111, 114, 105, 116, 121]
}

/// The program address and bump seed that the runtime's derivation finds for
/// `seeds` under the program `program`, or `None` where it finds none.
pub uninterp spec fn program_address_of(seeds: Seq<Seq<u8>>, program: Seq<u8>) -> Option<(Seq<u8>, u8)>;

/// A derived address and its bump seed, as plain values.
pub open spec fn derived_view(r: Option<(Address, u8)>) -> Option<(Seq<u8>, u8)> {
    match r {
        Some((a, b)) => Some((a@, b)),
        None => None,
    }
}

pub open spec fn seeds_view(seeds: Seq<Vec<u8>>) -> Seq<Seq<u8>> {
    seeds.map_values(|s: Vec<u8>| s@)
}

/// Relies on `Pubkey::try_find_program_address` (solana-pubkey, re-exported by
/// anchor-lang): it hashes the seeds, a bump seed and the program id, trying
/// bumps from 255 down until the hash lies off the curve, so that its result
/// is a function of the seeds and the program id alone.
#[verifier::external_body]
fn try_find_program_address(seeds: &Vec<Vec<u8>>, program: &Address) -> (r: Option<(Address, u8)>)
    ensures
        derived_view(r) == program_address_of(seeds_view(seeds@), program@),
{
    let refs: Vec<&[u8]> = seeds.iter().map(|s| s.as_slice()).collect();
    let id = anchor_lang::prelude::Pubkey::new_from_array(program.bytes);
    anchor_lang::prelude::Pubkey::try_find_program_address(&refs, &id)
        .map(|(k, b)| (Address { bytes: k.to_bytes() }, b))
}

/// Address of the lock record of `owner` for the position minted as
/// `position_mint`, under this program.
pub fn lock_record_address(owner: &Address, position_mint: &Address, program_id: &Address) -> (r: Option<(Address, u8)>)
    ensures
        derived_view(r) == program_address_of(seq![lock_seed(), owner@, position_mint@], program_id@),
{
    let seeds = vec![vec![108u8, 111, 99, 107], owner.to_vec(), position_mint.to_vec()];
    proof {
        assert(seeds_view(seeds@) =~= seq![lock_seed(), owner@, position_mint@]);
    }
    try_find_program_address(&seeds, program_id)
}

/// Address of the deployment's single configuration record.
pub fn config_address(program_id: &Address) -> (r: Option<(Address, u8)>)
    ensures
        derived_view(r) == program_address_of(seq![config_seed()], program_id@),
{
    let seeds = vec![vec![99u8, 111, 110, 102, 105, 103]];
    proof {
        assert(seeds_view(seeds@) =~= seq![config_seed()]);
    }
    try_find_program_address(&seeds, program_id)
}

/// Address of the authority that holds custodied position tokens and signs
/// their return.
pub fn escrow_authority_address(program_id: &Address) -> (r: Option<(Address, u8)>)
    ensures
        derived_view(r) == program_address_of(seq![escrow_authority_seed()], program_id@),
{
    let seeds = vec![vec![101u8, 115, 99, 114, 111, 119, 95, 97, 117, 116, 104, 111, 114, 105, 116, 121]];
    proof {
        assert(seeds_view(seeds@) =~= seq![escrow_authority_seed()]);
    }
    try_find_program_address(&seeds, program_id)
}

/// The engine's event authority, derived as the engine derives it.
pub fn event_authority_address(engine_program_id: &Address) -> (r: Option<(Address, u8)>)
    ensures
        derived_view(r) == program_address_of(seq![event_authority_seed()], engine_program_id@),
{
    let seeds = vec![vec![95u8, 95, 101, 118, 101, 110, 116, 95, 97, 117, 116, 104, 111, 114, 105, 116, 121]];
    proof {
        assert(seeds_view(seeds@) =~= seq![event_authority_seed()]);
    }
    try_find_program_address(&seeds, engine_program_id)
}

/// The engine's position account for the position minted as `position_mint`.
pub fn position_address(position_mint: &Address, engine_program_id: &Address) -> (r: Option<(Address, u8)>)
    ensures
        derived_view(r) == program_address_of(seq![position_seed(), position_mint@], engine_program_id@),
{
    let seeds = vec![vec![112u8, 111, 115, 105, 116, 105, 111, 110], position_mint.to_vec()];
    proof {
        assert(seeds_view(seeds@) =~= seq![position_seed(), position_mint@]);
    }
    try_find_program_address(&seeds, engine_program_id)
}

} // verus!
