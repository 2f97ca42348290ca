use vstd::prelude::*;
use anchor_lang::prelude::Pubkey;

verus! {

/// The identity of a party or of an account on the ledger: 32 bytes.
pub type Address = [u8; 32];

/// Whether two addresses are the same, byte for byte.
pub fn same_address(a: &Address, b: &Address) -> (same: bool)
    ensures
        same == (*a == *b),
{
    let mut i: usize = 0;
    while i < 32
        invariant
            i <= 32,
            forall|j: int| 0 <= j < i ==> a[j] == b[j],
        decreases 32 - i,
    {
        if a[i] != b[i] {
            return false;
        }
        i += 1;
    }
    assert(*a =~= *b);
    true
}

/// The namespace tag that opens the seeds of every stream: the ASCII text
/// `stream`.
pub open spec fn stream_tag() -> Seq<u8> {
    seq![115u8, 116u8, 114u8, 101u8, 97u8, 109u8]
}

/// The seeds from which the address of a stream's record is derived: the tag,
/// then the sender, then the recipient.
pub open spec fn stream_seeds(sender: Address, recipient: Address) -> Seq<Seq<u8>> {
    seq![stream_tag(), sender@, recipient@]
}

/// The seeds by which the engine signs for a stream's address: the seeds of
/// the stream, then the one-byte bump that was found with the address.
pub open spec fn signer_seeds(sender: Address, recipient: Address, bump: u8) -> Seq<Seq<u8>> {
    stream_seeds(sender, recipient).push(seq![bump])
}

/// The byte strings that a list of seeds holds.
pub open spec fn seeds_view(seeds: Vec<Vec<u8>>) -> Seq<Seq<u8>> {
    Seq::new(seeds@.len(), |i: int| seeds@[i]@)
}

/// The bytes of an address as a seed.
fn address_bytes(a: &Address) -> (bytes: Vec<u8>)
    ensures
        bytes@ == a@,
{
    let mut bytes: Vec<u8> = Vec::new();
    let mut i: usize = 0;
    while i < 32
        invariant
            i <= 32,
            bytes@.len() == i,
            forall|j: int| 0 <= j < i ==> bytes@[j] == a[j],
        decreases 32 - i,
    {
        bytes.push(a[i]);
        i += 1;
    }
    assert(bytes@ =~= a@);
    bytes
}

/// The namespace tag as a seed.
fn tag_bytes() -> (bytes: Vec<u8>)
    ensures
        bytes@ == stream_tag(),
{
    let mut bytes: Vec<u8> = Vec::new();
    bytes.push(115u8);
    bytes.push(116u8);
    bytes.push(114u8);
    bytes.push(101u8);
    bytes.push(97u8);
    bytes.push(109u8);
    assert(bytes@ =~= stream_tag());
    bytes
}

/// Builds the seeds of the stream from `sender` to `recipient`.
pub fn build_stream_seeds(sender: &Address, recipient: &Address) -> (seeds: Vec<Vec<u8>>)
    ensures
        seeds_view(seeds) == stream_seeds(*sender, *recipient),
{
    let mut seeds: Vec<Vec<u8>> = Vec::new();
    seeds.push(tag_bytes());
    seeds.push(address_bytes(sender));
    seeds.push(address_bytes(recipient));
    assert(seeds_view(seeds) =~= stream_seeds(*sender, *recipient));
    seeds
}

/// Builds the seeds by which the engine signs for the stream from `sender` to
/// `recipient` that was created with `bump`.
pub fn build_signer_seeds(sender: &Address, recipient: &Address, bump: u8) -> (seeds: Vec<Vec<u8>>)
    ensures
        seeds_view(seeds) == signer_seeds(*sender, *recipient, bump),
{
    let mut seeds: Vec<Vec<u8>> = build_stream_seeds(sender, recipient);
    let mut last: Vec<u8> = Vec::new();
    last.push(bump);
    assert(last@ =~= seq![bump]);
    seeds.push(last);
    assert(seeds_view(seeds) =~= signer_seeds(*sender, *recipient, bump));
    seeds
}

/// The address that the ledger derives for a program from a list of seeds,
/// with the bump that makes it valid, or `None` where the ledger derives none.
pub uninterp spec fn program_address(seeds: Seq<Seq<u8>>, program_id: Address) -> Option<
    (Address, u8),
>;

/// Calls `Pubkey::try_find_program_address` of solana's program library, as
/// anchor hands it on. The contract claims only that the outcome is a function
/// of the seeds and of the program's identity: the same on every call.
#[verifier::external_body]
fn find_program_address(seeds: &Vec<Vec<u8>>, program_id: &Address) -> (found: Option<
    (Address, u8),
>)
    ensures
        found == program_address(seeds_view(*seeds), *program_id),
{
    let parts: Vec<&[u8]> = seeds.iter().map(|seed| seed.as_slice()).collect();
    match Pubkey::try_find_program_address(&parts, &Pubkey::new_from_array(*program_id)) {
        Some((key, bump)) => Some((key.to_bytes(), bump)),
        None => None,
    }
}

/// The address at which the ledger keeps the record of the stream from
/// `sender` to `recipient` under the program `program_id`, and the bump that
/// completes its seeds.
pub open spec fn stream_address(program_id: Address, sender: Address, recipient: Address) -> Option<
    (Address, u8),
> {
    program_address(stream_seeds(sender, recipient), program_id)
}

/// Derives the address of the stream from `sender` to `recipient`, and its
/// bump. `None` where no bump gives a valid address.
pub fn find_stream_address(program_id: &Address, sender: &Address, recipient: &Address) -> (found:
    Option<(Address, u8)>)
    ensures
        found == stream_address(*program_id, *sender, *recipient),
{
    let seeds: Vec<Vec<u8>> = build_stream_seeds(sender, recipient);
    find_program_address(&seeds, program_id)
}

} // verus!
