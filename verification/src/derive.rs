use crate::address::Address;
use anchor_lang::prelude::Pubkey;
use vstd::prelude::*;
use vstd::slice::slice_to_vec;
use vstd::string::StrSliceExecFns;
use vstd::utf8::encode_utf8;

verus! {

/// The address and bump seed that the search for a program-derived address
/// yields for a list of seeds under a program, or `None` where the search
/// finds none.
pub uninterp spec fn found_program_address(seeds: Seq<Seq<u8>>, program_id: Seq<u8>) -> Option<
    (Seq<u8>, u8),
>;

/// The program-derived address that a list of seeds yields under a program
/// without any search, or `None` where the seeds yield none.
pub uninterp spec fn created_program_address(seeds: Seq<Seq<u8>>, program_id: Seq<u8>) -> Option<
    Seq<u8>,
>;

/// Calls `Pubkey::try_find_program_address`. Trusted: the result is a
/// function of the seeds and the program id alone, and an address found
/// with a bump seed is the address that the same seeds followed by that
/// one-byte bump seed create directly.
#[verifier::external_body]
fn try_find_program_address(seeds: &Vec<Vec<u8>>, program_id: &Address) -> (r: Option<
    (Address, u8),
>)
    ensures
        match r {
            Some((address, bump)) => {
                &&& found_program_address(seeds.deep_view(), program_id@) == Some((address@, bump))
                &&& created_program_address(seeds.deep_view().push(seq![bump]), program_id@)
                    == Some(address@)
            },
            None => found_program_address(seeds.deep_view(), program_id@) is None,
        },
{
    let slices: Vec<&[u8]> = seeds.iter().map(|seed| seed.as_slice()).collect();
    let program = Pubkey::new_from_array(program_id.bytes);
    match Pubkey::try_find_program_address(&slices, &program) {
        Some((address, bump)) => Some((Address { bytes: address.to_bytes() }, bump)),
        None => None,
    }
}

/// Calls `Pubkey::create_program_address`. Trusted: the result is a
/// function of the seeds and the program id alone; every refusal of the
/// seeds is reported as `None`.
#[verifier::external_body]
fn create_program_address(seeds: &Vec<Vec<u8>>, program_id: &Address) -> (r: Option<Address>)
    ensures
        match r {
            Some(address) => created_program_address(seeds.deep_view(), program_id@) == Some(
                address@,
            ),
            None => created_program_address(seeds.deep_view(), program_id@) is None,
        },
{
    let slices: Vec<&[u8]> = seeds.iter().map(|seed| seed.as_slice()).collect();
    let program = Pubkey::new_from_array(program_id.bytes);
    match Pubkey::create_program_address(&slices, &program) {
        Ok(address) => Some(Address { bytes: address.to_bytes() }),
        Err(_) => None,
    }
}

/// The fixed first seed of every campaign address: the ASCII bytes of
/// the word "campaign".
pub open spec fn campaign_tag() -> Seq<u8> {
    seq![99u8, 97u8, 109u8, 112u8, 97u8, 105u8, 103u8, 110u8]
}

/// The seeds of a campaign's address: the tag, the owner's bytes and the
/// UTF-8 bytes of the campaign id, in this order.
pub open spec fn campaign_seeds(owner: Seq<u8>, campaign_id: Seq<char>) -> Seq<Seq<u8>> {
    seq![campaign_tag(), owner, encode_utf8(campaign_id)]
}

/// The address of the campaign that `owner` opens under `campaign_id`, with
/// the bump seed that the search settled on.
pub open spec fn derived_campaign_address(
    program_id: Seq<u8>,
    owner: Seq<u8>,
    campaign_id: Seq<char>,
) -> Option<(Seq<u8>, u8)> {
    found_program_address(campaign_seeds(owner, campaign_id), program_id)
}

/// The address that the campaign seeds yield with a bump seed already
/// known.
pub open spec fn campaign_address_at(
    program_id: Seq<u8>,
    owner: Seq<u8>,
    campaign_id: Seq<char>,
    bump: u8,
) -> Option<Seq<u8>> {
    created_program_address(campaign_seeds(owner, campaign_id).push(seq![bump]), program_id)
}

proof fn lemma_seed_deep_view(seed: Vec<u8>)
    ensures
        seed.deep_view() == seed@,
{
    assert(seed.deep_view() =~= seed@);
}

fn seeds_of(owner: &Address, campaign_id: &str) -> (seeds: Vec<Vec<u8>>)
    ensures
        seeds.deep_view() == campaign_seeds(owner@, campaign_id@),
{
    let mut tag: Vec<u8> = Vec::new();
    tag.push(99);
    tag.push(97);
    tag.push(109);
    tag.push(112);
    tag.push(97);
    tag.push(105);
    tag.push(103);
    tag.push(110);
    assert(tag@ =~= campaign_tag());
    let mut seeds: Vec<Vec<u8>> = Vec::new();
    seeds.push(tag);
    seeds.push(slice_to_vec(owner.bytes.as_slice()));
    seeds.push(campaign_id.as_bytes_vec());
    proof {
        lemma_seed_deep_view(seeds@[0]);
        lemma_seed_deep_view(seeds@[1]);
        lemma_seed_deep_view(seeds@[2]);
        assert(seeds.deep_view() =~= campaign_seeds(owner@, campaign_id@));
    }
    seeds
}

/// Derives the address at which `owner` may open a campaign under
/// `campaign_id`, together with its bump seed.
pub fn find_campaign_address(program_id: &Address, owner: &Address, campaign_id: &str) -> (r:
    Option<(Address, u8)>)
    ensures
        match r {
            Some((address, bump)) => {
                &&& derived_campaign_address(program_id@, owner@, campaign_id@) == Some(
                    (address@, bump),
                )
                &&& campaign_address_at(program_id@, owner@, campaign_id@, bump) == Some(address@)
            },
            None => derived_campaign_address(program_id@, owner@, campaign_id@) is None,
        },
{
    let seeds = seeds_of(owner, campaign_id);
    try_find_program_address(&seeds, program_id)
}

/// Derives a campaign's address again from a bump seed already known,
/// without searching.
pub fn campaign_address_with_bump(
    program_id: &Address,
    owner: &Address,
    campaign_id: &str,
    bump: u8,
) -> (r: Option<Address>)
    ensures
        match r {
            Some(address) => campaign_address_at(program_id@, owner@, campaign_id@, bump) == Some(
                address@,
            ),
            None => campaign_address_at(program_id@, owner@, campaign_id@, bump) is None,
        },
{
    let mut seeds = seeds_of(owner, campaign_id);
    let mut last: Vec<u8> = Vec::new();
    last.push(bump);
    assert(last@ =~= seq![bump]);
    let ghost before = seeds.deep_view();
    seeds.push(last);
    proof {
        lemma_seed_deep_view(seeds@[3]);
        assert(seeds.deep_view() =~= before.push(seq![bump]));
    }
    create_program_address(&seeds, program_id)
}

} // verus!
