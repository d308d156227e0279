use vstd::prelude::*;
use vstd::slice::slice_subrange;
use vstd::utf8::encode_utf8;
use anchor_lang::prelude::Pubkey;
use crate::address::Address;

verus! {

/// Most bytes that one seed of a derivation may hold.
pub const MAX_SEED_LEN: usize = 32;

/// The seed that marks an address as that of a project.
pub const PROJECT_SEED: [u8; 7] = [112, 114, 111, 106, 101, 99, 116];

/// The program-derived address that the seeds give under a program, with
/// its bump seed, or `None` where they give none.
pub uninterp spec fn program_address(seeds: Seq<Seq<u8>>, program: Seq<u8>) -> Option<
    (Seq<u8>, u8),
>;

/// An address and its bump seed, with the address as its bytes.
pub open spec fn slot_view(slot: Option<(Address, u8)>) -> Option<(Seq<u8>, u8)> {
    match slot {
        Some((address, bump)) => Some((address@, bump)),
        None => None,
    }
}

/// The seeds of a project: the tag, the bytes of its name in two parts, the
/// second one empty for a name of up to `MAX_SEED_LEN` bytes, and its
/// creator.
pub open spec fn project_seeds(name: Seq<char>, creator: Address) -> Seq<Seq<u8>> {
    let bytes = encode_utf8(name);
    let cut = if bytes.len() <= MAX_SEED_LEN { bytes.len() as int } else { MAX_SEED_LEN as int };
    seq![PROJECT_SEED@, bytes.subrange(0, cut), bytes.subrange(cut, bytes.len() as int), creator@]
}

/// The identifier of the project that `creator` makes under `name`, with
/// its bump seed.
pub open spec fn derived_address(name: Seq<char>, creator: Address, program: Address) -> Option<
    (Seq<u8>, u8),
> {
    program_address(project_seeds(name, creator), program@)
}

/// `Pubkey::try_find_program_address` on four seeds. The result is the
/// address that the function derives from the seeds, in this order, and the
/// program, together with the bump seed it found, or `None` where it
/// derives none. It depends on nothing else.
#[verifier::external_body]
fn find_program_address(
    tag: &[u8],
    head: &[u8],
    tail: &[u8],
    owner: &Address,
    program: &Address,
) -> (r: Option<(Address, u8)>)
    ensures
        slot_view(r) == program_address(seq![tag@, head@, tail@, owner@], program@),
{
    let program_id = Pubkey::new_from_array(program.bytes);
    match Pubkey::try_find_program_address(&[tag, head, tail, &owner.bytes], &program_id) {
        Some((key, bump)) => Some((Address { bytes: key.to_bytes() }, bump)),
        None => None,
    }
}

/// Derives the identifier under which the project of `creator` named `name`
/// is kept, with its bump seed. The same name, creator and program always
/// give the same identifier. A seed holds at most `MAX_SEED_LEN` bytes, so
/// the name goes in as two seeds.
pub fn project_address(name: &str, creator: &Address, program: &Address) -> (r: Option<
    (Address, u8),
>)
    ensures
        slot_view(r) == derived_address(name@, *creator, *program),
{
    let bytes = name.as_bytes();
    let cut = if bytes.len() <= MAX_SEED_LEN {
        bytes.len()
    } else {
        MAX_SEED_LEN
    };
    let head = slice_subrange(bytes, 0, cut);
    let tail = slice_subrange(bytes, cut, bytes.len());
    let tag = PROJECT_SEED;
    find_program_address(tag.as_slice(), head, tail, creator, program)
}

} // verus!
