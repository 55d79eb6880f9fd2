use vstd::prelude::*;
use anchor_lang::solana_program::pubkey::Pubkey;

verus! {

/// The namespace tag that, followed by the user's key, seeds a record's address.
pub open spec fn user_seed() -> Seq<u8> {
    seq![117u8, 115u8, 101u8, 114u8]
}

/// The program-derived address of the seeds `[tag, user]` under `program_id`,
/// with its bump seed; `None` when no bump seed yields an address.
pub uninterp spec fn program_address_of(tag: Seq<u8>, user: Seq<u8>, program_id: Seq<u8>) -> Option<(Seq<u8>, u8)>;

/// Whether `key` is the address of `user`'s record under `program_id`.
pub open spec fn is_record_address(user: Seq<u8>, program_id: Seq<u8>, key: Seq<u8>) -> bool {
    program_address_of(user_seed(), user, program_id) matches Some((derived, _)) && derived == key
}

/// Relies on `Pubkey::try_find_program_address`, which derives the address of
/// the seeds `[tag, user]` under `program_id` from those bytes alone, together
/// with the bump seed that made it, or gives `None` when no bump seed does.
#[verifier::external_body]
fn find_program_address(tag: &[u8], user: &[u8; 32], program_id: &[u8; 32]) -> (r: Option<([u8; 32], u8)>)
    ensures
        match r {
            Some((key, bump)) => program_address_of(tag@, user@, program_id@) == Some((key@, bump)),
            None => program_address_of(tag@, user@, program_id@) is None,
        },
{
    Pubkey::try_find_program_address(&[tag, user.as_ref()], &Pubkey::new_from_array(*program_id))
        .map(|(key, bump)| (key.to_bytes(), bump))
}

/// The address of `user`'s record under `program_id`, with its bump seed.
pub fn user_deposit_address(user: &[u8; 32], program_id: &[u8; 32]) -> (r: Option<([u8; 32], u8)>)
    ensures
        match r {
            Some((key, bump)) => program_address_of(user_seed(), user@, program_id@) == Some((key@, bump)),
            None => program_address_of(user_seed(), user@, program_id@) is None,
        },
{
    let tag: [u8; 4] = [117u8, 115u8, 101u8, 114u8];
    assert(tag@ =~= user_seed());
    find_program_address(tag.as_slice(), user, program_id)
}

/// Whether two addresses hold the same bytes.
pub fn same_address(a: &[u8; 32], b: &[u8; 32]) -> (r: bool)
    ensures
        r == (a@ == b@),
{
    let mut i: usize = 0;
    while i < 32
        invariant
            0 <= i <= 32,
            a@.len() == 32,
            b@.len() == 32,
            forall|j: int| 0 <= j < i ==> a@[j] == b@[j],
        decreases 32 - i,
    {
        if a[i] != b[i] {
            return false;
        }
        i = i + 1;
    }
    assert(a@ =~= b@);
    true
}

/// Whether `key` is the address that `user`'s record must have under `program_id`.
pub fn check_record_address(user: &[u8; 32], program_id: &[u8; 32], key: &[u8; 32]) -> (r: bool)
    ensures
        r == is_record_address(user@, program_id@, key@),
{
    match user_deposit_address(user, program_id) {
        Some((derived, _bump)) => same_address(&derived, key),
        None => false,
    }
}

} // verus!
