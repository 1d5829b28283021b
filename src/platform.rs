//! The few services of the on-chain platform that the library relies on, each
//! behind a small trusted item whose contract states what the platform's own
//! source shows.
use vstd::prelude::*;
use vstd::utf8::valid_utf8;
use vstd::string::StringSliceAdditionalSpecFns;
use anchor_lang::solana_program::sysvar::Sysvar;
use crate::pubkey::Pubkey;

verus! {

/// The platform's error type, carried through opaquely.
#[verifier::external_type_specification]
#[verifier::external_body]
pub struct ExProgramError(anchor_lang::prelude::ProgramError);

/// Longest seed that address derivation accepts.
pub const MAX_SEED_LEN: usize = 32;

/// Most seeds (bump seed included) that address derivation accepts.
pub const MAX_SEEDS: usize = 16;

/// The SHA-256 digest of a byte string.
pub uninterp spec fn sha256_of(data: Seq<u8>) -> Seq<u8>;

/// The program address found for `seeds` under `program_id`, with its bump seed.
pub uninterp spec fn program_address_of(seeds: Seq<Seq<u8>>, program_id: Seq<u8>) -> Option<(Seq<u8>, u8)>;

/// Relies on `solana_program::hash::hash`: the SHA-256 digest of `data`, which
/// depends on the bytes alone.
#[verifier::external_body]
pub(crate) fn sha256(data: &[u8]) -> (r: [u8; 32])
    ensures
        r@ == sha256_of(data@),
{
    anchor_lang::solana_program::hash::hash(data).to_bytes()
}

/// Relies on `Pubkey::try_find_program_address`: it hashes the seeds, a bump
/// seed and the program id, trying bumps from 255 down, and gives the first
/// address off the curve with its bump; the result depends on the seeds and
/// the program id alone. Seeds longer than `MAX_SEED_LEN`, or more seeds than
/// fit beside the bump, are left out: on chain the runtime may abort on them.
#[verifier::external_body]
pub(crate) fn try_find_program_address(seeds: &Vec<Vec<u8>>, program_id: &Pubkey) -> (r: Option<(Pubkey, u8)>)
    requires
        seeds@.len() < MAX_SEEDS,
        forall|i: int| 0 <= i < seeds@.len() ==> #[trigger] seeds@[i]@.len() <= MAX_SEED_LEN,
    ensures
        match r {
            Some((key, bump)) => program_address_of(seeds.deep_view(), program_id@) == Some((key@, bump)),
            None => program_address_of(seeds.deep_view(), program_id@) is None,
        },
{
    let refs: Vec<&[u8]> = seeds.iter().map(|s| s.as_slice()).collect();
    let id = anchor_lang::prelude::Pubkey::new_from_array(program_id.bytes);
    anchor_lang::prelude::Pubkey::try_find_program_address(&refs, &id)
        .map(|(key, bump)| (Pubkey { bytes: key.to_bytes() }, bump))
}

/// Relies on the `Clock` sysvar (`Clock::get`): the current unix timestamp, or
/// the platform's error where the sysvar cannot be read.
#[verifier::external_body]
pub(crate) fn clock_unix_timestamp() -> (r: Result<i64, anchor_lang::prelude::ProgramError>)
{
    anchor_lang::prelude::Clock::get().map(|clock| clock.unix_timestamp)
}

/// Relies on `std::str::from_utf8`: the bytes as text exactly when they are
/// valid UTF-8.
#[verifier::external_body]
pub(crate) fn str_from_utf8(v: &[u8]) -> (r: Option<&str>)
    ensures
        r is Some <==> valid_utf8(v@),
        r matches Some(s) ==> s.spec_bytes() == v@,
{
    std::str::from_utf8(v).ok()
}

} // verus!
