//! Derivation of a campaign's keyless authority.
//!
//! The authority of a campaign is a program-derived address: a hash of the
//! namespace tag, the organizer, the campaign's seed string and a one-byte
//! bump, bound to this program's id. Nobody holds a private key for it; a
//! transfer is authorized by presenting the inputs that reproduce it.

use crate::address::Address;
use anchor_lang::prelude::Pubkey;
use vstd::prelude::*;
use vstd::utf8::encode_utf8;

verus! {

/// The most seeds one derivation accepts.
pub const MAX_SEEDS: usize = 16;

/// The most bytes one seed may hold.
pub const MAX_SEED_LEN: usize = 32;

/// The address that `Pubkey::create_program_address` derives from `seeds`
/// for `program`, or `None` where the hash falls on the ed25519 curve and so
/// names no program-derived address. Meaningful for seeds within the limits.
pub uninterp spec fn program_address(seeds: Seq<Seq<u8>>, program: Seq<u8>) -> Option<Seq<u8>>;

/// At most sixteen seeds, each of at most thirty-two bytes.
pub open spec fn seeds_within_limits(seeds: Seq<Seq<u8>>) -> bool {
    &&& seeds.len() <= MAX_SEEDS
    &&& forall|i: int| 0 <= i < seeds.len() ==> (#[trigger] seeds[i]).len() <= MAX_SEED_LEN
}

/// The bytes of each seed in a seed list.
pub open spec fn seed_bytes(seeds: &Vec<Vec<u8>>) -> Seq<Seq<u8>> {
    Seq::new(seeds@.len(), |i: int| seeds@[i]@)
}

/// `seeds` followed by the one-byte seed `bump`.
pub open spec fn with_bump(seeds: Seq<Seq<u8>>, bump: u8) -> Seq<Seq<u8>> {
    seeds.push(seq![bump])
}

/// The tag that sets campaign derivations apart: the ASCII bytes of
/// `campaign`.
pub open spec fn namespace_tag() -> Seq<u8> {
    seq![99u8, 97u8, 109u8, 112u8, 97u8, 105u8, 103u8, 110u8]
}

/// The bytes of this program's id.
pub open spec fn program_id_bytes() -> Seq<u8> {
    seq![
        252u8, 172u8, 244u8, 48u8, 102u8, 31u8, 194u8, 196u8,
        243u8, 58u8, 252u8, 159u8, 64u8, 65u8, 132u8, 41u8,
        4u8, 27u8, 86u8, 4u8, 246u8, 132u8, 58u8, 85u8,
        1u8, 78u8, 241u8, 222u8, 9u8, 35u8, 2u8, 135u8,
    ]
}

/// The seeds shared by every derivation for one campaign: the namespace tag,
/// the organizer's bytes and the UTF-8 bytes of the seed string.
pub open spec fn campaign_seeds(organizer: Seq<u8>, seed: Seq<char>) -> Seq<Seq<u8>> {
    seq![namespace_tag(), organizer, encode_utf8(seed)]
}

/// The seeds that reproduce a campaign's authority: the campaign seeds
/// followed by the bump.
pub open spec fn signer_seeds(organizer: Seq<u8>, seed: Seq<char>, bump: u8) -> Seq<Seq<u8>> {
    with_bump(campaign_seeds(organizer, seed), bump)
}

/// The authority derived from `(organizer, seed, bump)`, if there is one.
pub open spec fn authority_of(organizer: Seq<u8>, seed: Seq<char>, bump: u8) -> Option<Seq<u8>> {
    if seeds_within_limits(signer_seeds(organizer, seed, bump)) {
        program_address(signer_seeds(organizer, seed, bump), program_id_bytes())
    } else {
        None
    }
}

/// The highest bump in `1..=from` that yields an authority.
pub open spec fn bump_search(organizer: Seq<u8>, seed: Seq<char>, from: nat) -> Option<u8>
    decreases from,
{
    if from == 0 || from > 255 {
        None
    } else if authority_of(organizer, seed, from as u8) is Some {
        Some(from as u8)
    } else {
        bump_search(organizer, seed, (from - 1) as nat)
    }
}

/// The canonical address of the campaign that `organizer` names `seed`, with
/// the bump that yields it: the highest bump in `1..=255` that yields an
/// authority at all.
pub open spec fn campaign_address(organizer: Seq<u8>, seed: Seq<char>) -> Option<(Seq<u8>, u8)> {
    match bump_search(organizer, seed, 255) {
        Some(bump) => match authority_of(organizer, seed, bump) {
            Some(address) => Some((address, bump)),
            None => None,
        },
        None => None,
    }
}

/// Calls `Pubkey::create_program_address`. That function rejects more than
/// sixteen seeds and any seed of more than thirty-two bytes; otherwise it
/// hashes the seeds with the program id and returns the hash unless it lies
/// on the curve. The contract states the limits and names the hash's outcome
/// `program_address`; both failures come back as `None`.
#[verifier::external_body]
pub(crate) fn create_program_address(seeds: &Vec<Vec<u8>>, program: &Address) -> (address: Option<Address>)
    ensures
        address matches Some(a) ==> seeds_within_limits(seed_bytes(seeds))
            && program_address(seed_bytes(seeds), program@) == Some(a@),
        address is None ==> !seeds_within_limits(seed_bytes(seeds))
            || program_address(seed_bytes(seeds), program@) is None,
{
    let parts: Vec<&[u8]> = seeds.iter().map(|seed| seed.as_slice()).collect();
    let program_id = Pubkey::new_from_array(program.bytes);
    match Pubkey::create_program_address(&parts, &program_id) {
        Ok(key) => Some(Address { bytes: key.to_bytes() }),
        Err(_) => None,
    }
}

/// Calls `Pubkey::try_find_program_address`. That function appends a bump to
/// the seeds, trying 255 down to 1, and returns the first bump for which
/// `Pubkey::create_program_address` succeeds, with the address; it returns
/// `None` where the seeds with a bump exceed the limits or no bump succeeds.
#[verifier::external_body]
pub(crate) fn try_find_program_address(seeds: &Vec<Vec<u8>>, program: &Address) -> (found: Option<(Address, u8)>)
    ensures
        found matches Some((a, bump)) ==> {
            &&& bump >= 1
            &&& seeds_within_limits(with_bump(seed_bytes(seeds), bump))
            &&& program_address(with_bump(seed_bytes(seeds), bump), program@) == Some(a@)
            &&& forall|b: u8| bump < b ==> #[trigger] program_address(
                with_bump(seed_bytes(seeds), b),
                program@,
            ) is None
        },
        found is None ==> !seeds_within_limits(with_bump(seed_bytes(seeds), 0u8))
            || forall|b: u8| b >= 1 ==> #[trigger] program_address(
                with_bump(seed_bytes(seeds), b),
                program@,
            ) is None,
{
    let parts: Vec<&[u8]> = seeds.iter().map(|seed| seed.as_slice()).collect();
    let program_id = Pubkey::new_from_array(program.bytes);
    match Pubkey::try_find_program_address(&parts, &program_id) {
        Some((key, bump)) => Some((Address { bytes: key.to_bytes() }, bump)),
        None => None,
    }
}

/// This program's id.
pub fn program_id() -> (id: Address)
    ensures
        id@ == program_id_bytes(),
{
    let id = Address {
        bytes: [
            252u8, 172u8, 244u8, 48u8, 102u8, 31u8, 194u8, 196u8,
            243u8, 58u8, 252u8, 159u8, 64u8, 65u8, 132u8, 41u8,
            4u8, 27u8, 86u8, 4u8, 246u8, 132u8, 58u8, 85u8,
            1u8, 78u8, 241u8, 222u8, 9u8, 35u8, 2u8, 135u8,
        ],
    };
    assert(id@ =~= program_id_bytes());
    id
}

/// The namespace tag as bytes.
pub fn namespace() -> (tag: Vec<u8>)
    ensures
        tag@ == namespace_tag(),
{
    let tag: Vec<u8> = vec![99u8, 97u8, 109u8, 112u8, 97u8, 105u8, 103u8, 110u8];
    assert(tag@ =~= namespace_tag());
    tag
}

/// The UTF-8 bytes of `text` as a freshly allocated vector.
pub fn utf8_bytes(text: &str) -> (bytes: Vec<u8>)
    ensures
        bytes@ == encode_utf8(text@),
{
    let source: &[u8] = text.as_bytes();
    let mut out: Vec<u8> = Vec::new();
    let mut i: usize = 0;
    while i < source.len()
        invariant
            i <= source@.len(),
            out@.len() == i,
            forall|j: int| 0 <= j < i ==> out@[j] == source@[j],
        decreases source@.len() - i,
    {
        out.push(source[i]);
        i += 1;
    }
    assert(out@ =~= source@);
    out
}

/// The seeds shared by every derivation for the campaign that `organizer`
/// names `seed`.
pub fn campaign_seed_list(organizer: &Address, seed: &str) -> (seeds: Vec<Vec<u8>>)
    ensures
        seed_bytes(&seeds) == campaign_seeds(organizer@, seed@),
{
    let mut seeds: Vec<Vec<u8>> = Vec::new();
    seeds.push(namespace());
    seeds.push(organizer.to_vec());
    seeds.push(utf8_bytes(seed));
    assert(seed_bytes(&seeds) =~= campaign_seeds(organizer@, seed@));
    seeds
}

/// The seeds that reproduce the authority of `(organizer, seed, bump)`, in
/// the order a signature by that authority presents them.
pub fn signer_seed_list(organizer: &Address, seed: &str, bump: u8) -> (seeds: Vec<Vec<u8>>)
    ensures
        seed_bytes(&seeds) == signer_seeds(organizer@, seed@, bump),
{
    let mut seeds = campaign_seed_list(organizer, seed);
    let ghost before = seed_bytes(&seeds);
    let mut last: Vec<u8> = Vec::new();
    last.push(bump);
    assert(last@ =~= seq![bump]);
    seeds.push(last);
    assert(seed_bytes(&seeds) =~= before.push(seq![bump]));
    seeds
}

/// Re-derives the authority of `(organizer, seed, bump)`.
///
/// Returns the authority where the seed string has at most thirty-two bytes
/// and the hash names a program-derived address, and `None` otherwise.
pub fn campaign_authority(organizer: &Address, seed: &str, bump: u8) -> (authority: Option<Address>)
    ensures
        match authority {
            Some(a) => authority_of(organizer@, seed@, bump) == Some(a@),
            None => authority_of(organizer@, seed@, bump) is None,
        },
{
    let seeds = signer_seed_list(organizer, seed, bump);
    let program = program_id();
    create_program_address(&seeds, &program)
}

/// Whether the limits hold of a campaign's signer seeds depends on the seed
/// string alone: it must encode to at most thirty-two bytes.
pub proof fn lemma_signer_seeds_limits(organizer: Seq<u8>, seed: Seq<char>, bump: u8)
    requires
        organizer.len() == 32,
    ensures
        seeds_within_limits(signer_seeds(organizer, seed, bump)) <==> encode_utf8(seed).len() <= 32,
{
    let seeds = signer_seeds(organizer, seed, bump);
    assert(seeds.len() == 4);
    assert(seeds[0] == namespace_tag());
    assert(seeds[1] == organizer);
    assert(seeds[2] == encode_utf8(seed));
    assert(seeds[3] == seq![bump]);
    assert(namespace_tag().len() == 8);
    assert(seq![bump].len() == 1);
}

/// What `bump_search` finds is a bump that yields an authority, and no
/// higher bump up to `from` does; where it finds none, no bump in
/// `1..=from` does.
pub proof fn lemma_bump_search(organizer: Seq<u8>, seed: Seq<char>, from: nat)
    requires
        from <= 255,
    ensures
        match bump_search(organizer, seed, from) {
            Some(bump) => {
                &&& 1 <= bump <= from
                &&& authority_of(organizer, seed, bump) is Some
                &&& forall|b: u8| bump < b <= from ==> authority_of(organizer, seed, b) is None
            },
            None => forall|b: u8| 1 <= b <= from ==> authority_of(organizer, seed, b) is None,
        },
    decreases from,
{
    if from > 0 && !(authority_of(organizer, seed, from as u8) is Some) {
        lemma_bump_search(organizer, seed, (from - 1) as nat);
    }
}

/// Derives the canonical address and bump of the campaign that `organizer`
/// names `seed`.
///
/// Returns `None` where the seed string has more than thirty-two bytes or no
/// bump yields an authority.
pub fn derive_campaign_address(organizer: &Address, seed: &str) -> (derived: Option<(Address, u8)>)
    ensures
        match derived {
            Some((a, bump)) => campaign_address(organizer@, seed@) == Some((a@, bump)),
            None => campaign_address(organizer@, seed@) is None,
        },
{
    let seeds = campaign_seed_list(organizer, seed);
    let program = program_id();
    let found = try_find_program_address(&seeds, &program);
    proof {
        let o = organizer@;
        let s = seed@;
        lemma_bump_search(o, s, 255);
        assert(o.len() == 32);
        match found {
            Some((a, bump)) => {
                assert(with_bump(seed_bytes(&seeds), bump) == signer_seeds(o, s, bump));
                assert(authority_of(o, s, bump) == Some(a@));
                match bump_search(o, s, 255) {
                    Some(best) => {
                        if best > bump {
                            assert(with_bump(seed_bytes(&seeds), best) == signer_seeds(o, s, best));
                            assert(program_address(with_bump(seed_bytes(&seeds), best), program@) is None);
                            assert(false);
                        }
                        if best < bump {
                            assert(authority_of(o, s, bump) is None);
                            assert(false);
                        }
                    },
                    None => {
                        assert(authority_of(o, s, bump) is None);
                    },
                }
            },
            None => {
                match bump_search(o, s, 255) {
                    Some(best) => {
                        lemma_signer_seeds_limits(o, s, best);
                        lemma_signer_seeds_limits(o, s, 0u8);
                        assert(with_bump(seed_bytes(&seeds), best) == signer_seeds(o, s, best));
                        assert(with_bump(seed_bytes(&seeds), 0u8) == signer_seeds(o, s, 0u8));
                        assert(program_address(with_bump(seed_bytes(&seeds), best), program@) is Some);
                        assert(false);
                    },
                    None => {},
                }
            },
        }
    }
    found
}

/// Re-deriving an authority from equal inputs yields the same authority.
pub proof fn lemma_authority_is_deterministic(
    organizer: Seq<u8>,
    seed: Seq<char>,
    bump: u8,
    organizer_again: Seq<u8>,
    seed_again: Seq<char>,
    bump_again: u8,
)
    requires
        organizer == organizer_again,
        seed == seed_again,
        bump == bump_again,
    ensures
        authority_of(organizer, seed, bump) == authority_of(organizer_again, seed_again, bump_again),
{
}

/// Different inputs never present the same seeds to the derivation: where
/// the signer seeds of two derivations agree, so do their organizers, their
/// seed strings and their bumps. Which addresses the hash then gives to
/// different seeds is beyond what can be proved here.
pub proof fn lemma_signer_seeds_are_injective(
    organizer: Seq<u8>,
    seed: Seq<char>,
    bump: u8,
    other_organizer: Seq<u8>,
    other_seed: Seq<char>,
    other_bump: u8,
)
    requires
        signer_seeds(organizer, seed, bump) == signer_seeds(other_organizer, other_seed, other_bump),
    ensures
        organizer == other_organizer,
        seed == other_seed,
        bump == other_bump,
{
    let seeds = signer_seeds(organizer, seed, bump);
    let other = signer_seeds(other_organizer, other_seed, other_bump);
    assert(seeds[1] == organizer && other[1] == other_organizer);
    assert(seeds[2] == encode_utf8(seed) && other[2] == encode_utf8(other_seed));
    assert(seeds[3] == seq![bump] && other[3] == seq![other_bump]);
    assert(seq![bump][0] == seq![other_bump][0]);
    vstd::utf8::encode_utf8_decode_utf8(seed);
    vstd::utf8::encode_utf8_decode_utf8(other_seed);
}

/// The bump recorded with a campaign's address reproduces that address: the
/// authority re-derived from `(organizer, seed, bump)` is the address.
pub proof fn lemma_campaign_address_rederives(organizer: Seq<u8>, seed: Seq<char>)
    ensures
        campaign_address(organizer, seed) matches Some((address, bump)) ==> authority_of(
            organizer,
            seed,
            bump,
        ) == Some(address),
{
}

} // verus!
