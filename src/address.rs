use vstd::prelude::*;
use crate::identity::Pubkey;

verus! {

/// Longest seed that address derivation takes.
pub const MAX_SEED_LEN: usize = 32;

/// The program-derived address and bump found for the seeds `tag` and
/// `discriminant` under the program `program_id`, or `None` when no bump gives
/// an address off the curve.
pub uninterp spec fn program_address_of(tag: Seq<u8>, discriminant: Seq<u8>, program_id: Seq<u8>) -> Option<
    (Seq<u8>, u8),
>;

/// Relies on anchor_lang's `Pubkey::try_find_program_address` (from
/// solana-program): it searches the bumps from 255 down for a hash of the seeds,
/// bump and program id that lies off the curve, so its result depends on its
/// arguments alone. It returns `None` instead of panicking.
#[verifier::external_body]
fn find_program_address(tag: &[u8], discriminant: &[u8], program_id: &Pubkey) -> (r: Option<(Pubkey, u8)>)
    requires
        tag@.len() <= MAX_SEED_LEN,
        discriminant@.len() <= MAX_SEED_LEN,
    ensures
        match r {
            Some(found) => program_address_of(tag@, discriminant@, program_id@) == Some((found.0@, found.1)),
            None => program_address_of(tag@, discriminant@, program_id@) is None,
        },
{
    let seeds: [&[u8]; 2] = [tag, discriminant];
    let program = anchor_lang::prelude::Pubkey::new_from_array(program_id.bytes);
    anchor_lang::prelude::Pubkey::try_find_program_address(&seeds, &program)
        .map(|(address, bump)| (Pubkey::new_from_array(address.to_bytes()), bump))
}

/// The tag of the registry record: the bytes of "shadow-trade-mxe".
pub open spec fn registry_tag_bytes() -> Seq<u8> {
    seq![115u8, 104, 97, 100, 111, 119, 45, 116, 114, 97, 100, 101, 45, 109, 120, 101]
}

/// The tag of strategy records: the bytes of "strategy".
pub open spec fn strategy_tag_bytes() -> Seq<u8> {
    seq![115u8, 116, 114, 97, 116, 101, 103, 121]
}

/// Where the registry record of `program_id` lives, and its bump.
pub open spec fn registry_location(program_id: Seq<u8>) -> Option<(Seq<u8>, u8)> {
    program_address_of(registry_tag_bytes(), Seq::<u8>::empty(), program_id)
}

/// Where the strategy record of `owner` under `program_id` lives, and its bump.
pub open spec fn strategy_location(owner: Seq<u8>, program_id: Seq<u8>) -> Option<(Seq<u8>, u8)> {
    program_address_of(strategy_tag_bytes(), owner, program_id)
}

/// Whether a derivation returned the given location.
pub open spec fn is_location(r: Option<(Pubkey, u8)>, loc: Option<(Seq<u8>, u8)>) -> bool {
    match r {
        Some(found) => loc == Some((found.0@, found.1)),
        None => loc is None,
    }
}

fn registry_tag() -> (r: Vec<u8>)
    ensures
        r@ == registry_tag_bytes(),
{
    let r: Vec<u8> = vec![115u8, 104, 97, 100, 111, 119, 45, 116, 114, 97, 100, 101, 45, 109, 120, 101];
    assert(r@ =~= registry_tag_bytes());
    r
}

fn strategy_tag() -> (r: Vec<u8>)
    ensures
        r@ == strategy_tag_bytes(),
{
    let r: Vec<u8> = vec![115u8, 116, 114, 97, 116, 101, 103, 121];
    assert(r@ =~= strategy_tag_bytes());
    r
}

/// The address of the registry record of `program_id`, and its bump. Anyone can
/// compute it: it depends on the program id alone.
pub fn registry_address(program_id: &Pubkey) -> (r: Option<(Pubkey, u8)>)
    ensures
        is_location(r, registry_location(program_id@)),
{
    let tag = registry_tag();
    let none: Vec<u8> = Vec::new();
    find_program_address(tag.as_slice(), none.as_slice(), program_id)
}

/// The address of the strategy record of `owner` under `program_id`, and its
/// bump. It depends on the owner and the program id alone.
pub fn strategy_address(owner: &Pubkey, program_id: &Pubkey) -> (r: Option<(Pubkey, u8)>)
    ensures
        is_location(r, strategy_location(owner@, program_id@)),
{
    let tag = strategy_tag();
    find_program_address(tag.as_slice(), owner.bytes.as_slice(), program_id)
}

} // verus!
