use crate::pubkey::Pubkey;
use vstd::bytes::{lemma_auto_spec_u64_to_from_le_bytes, spec_u64_to_le_bytes, u64_to_le_bytes};
use vstd::prelude::*;
use vstd::string::StringSliceAdditionalSpecFns;

verus! {

/// First seed of every profile key: the bytes of the text `user_profile`.
pub open spec fn profile_tag() -> Seq<u8> {
    "user_profile".spec_bytes()
}

/// First seed of every task key: the bytes of the text `task`.
pub open spec fn task_tag() -> Seq<u8> {
    "task".spec_bytes()
}

/// The seeds that name the profile of `user`: the profile tag, then the
/// user's key.
pub open spec fn spec_profile_seeds(user: Pubkey) -> Seq<Seq<u8>> {
    seq![profile_tag(), user@]
}

/// The seeds that name the task `task_id` of `creator`: the task tag, the
/// creator's key, then the id as eight bytes, lowest first.
pub open spec fn spec_task_seeds(creator: Pubkey, task_id: u64) -> Seq<Seq<u8>> {
    seq![task_tag(), creator@, spec_u64_to_le_bytes(task_id)]
}

/// The address that the runtime derives for a program from a list of seeds,
/// with the bump seed that it found, or nothing where it finds none.
pub uninterp spec fn program_address(seeds: Seq<Seq<u8>>, program_id: Seq<u8>) -> Option<
    (Seq<u8>, u8),
>;

/// A derived address and its bump seed as plain values.
pub open spec fn found_view(found: Option<(Pubkey, u8)>) -> Option<(Seq<u8>, u8)> {
    match found {
        Some((address, bump)) => Some((address@, bump)),
        None => None,
    }
}

/// The address alone of what a derivation found.
pub open spec fn address_of(derived: Option<(Seq<u8>, u8)>) -> Option<Seq<u8>> {
    match derived {
        Some((address, _)) => Some(address),
        None => None,
    }
}

/// A key as a plain value, where there is one.
pub open spec fn key_view(key: Option<Pubkey>) -> Option<Seq<u8>> {
    match key {
        Some(k) => Some(k@),
        None => None,
    }
}

/// Derives a program's address for a list of seeds with
/// `Pubkey::try_find_program_address`. That function hashes the seeds, one
/// more seed of a single byte (the bump seed) and the program's key, trying
/// the bump seeds from 255 down to 1, and returns the first hash that is no
/// point of the signature curve, with its bump seed. What it returns depends
/// on its arguments alone; `program_address` is the name of it. It returns
/// nothing, and does not panic, where no bump seed serves or the seeds are
/// too many or too long.
#[verifier::external_body]
fn find_program_address(seeds: &Vec<Vec<u8>>, program_id: &Pubkey) -> (found: Option<(Pubkey, u8)>)
    ensures
        found_view(found) == program_address(seeds.deep_view(), program_id@),
{
    let parts: Vec<&[u8]> = seeds.iter().map(|seed| seed.as_slice()).collect();
    let program = anchor_lang::prelude::Pubkey::new_from_array(program_id.bytes);
    match anchor_lang::prelude::Pubkey::try_find_program_address(&parts, &program) {
        Some((address, bump)) => Some((Pubkey { bytes: address.to_bytes() }, bump)),
        None => None,
    }
}

/// The bytes of a text, in order.
fn bytes_of(text: &str) -> (out: Vec<u8>)
    ensures
        out@ == text.spec_bytes(),
{
    let bytes = text.as_bytes();
    let mut out: Vec<u8> = Vec::new();
    let mut i: usize = 0;
    while i < bytes.len()
        invariant
            0 <= i <= bytes@.len(),
            out@ == bytes@.subrange(0, i as int),
        decreases bytes@.len() - i,
    {
        out.push(bytes[i]);
        i += 1;
    }
    assert(bytes@.subrange(0, bytes@.len() as int) == bytes@);
    out
}

/// The seeds that name the profile of `user`.
pub fn profile_seeds(user: &Pubkey) -> (seeds: Vec<Vec<u8>>)
    ensures
        seeds.deep_view() == spec_profile_seeds(*user),
{
    let mut seeds: Vec<Vec<u8>> = Vec::new();
    seeds.push(bytes_of("user_profile"));
    seeds.push(user.to_vec());
    assert(seeds.deep_view() =~~= spec_profile_seeds(*user));
    seeds
}

/// The seeds that name the task `task_id` of `creator`.
pub fn task_seeds(creator: &Pubkey, task_id: u64) -> (seeds: Vec<Vec<u8>>)
    ensures
        seeds.deep_view() == spec_task_seeds(*creator, task_id),
{
    let mut seeds: Vec<Vec<u8>> = Vec::new();
    seeds.push(bytes_of("task"));
    seeds.push(creator.to_vec());
    seeds.push(u64_to_le_bytes(task_id));
    assert(seeds.deep_view() =~~= spec_task_seeds(*creator, task_id));
    seeds
}

/// The key under which the ledger of the program `program_id` holds the
/// profile of `user`: the address derived from the profile's seeds. There is
/// none where the derivation finds no address.
pub fn profile_key(program_id: &Pubkey, user: &Pubkey) -> (key: Option<Pubkey>)
    ensures
        key_view(key) == address_of(program_address(spec_profile_seeds(*user), program_id@)),
{
    let seeds = profile_seeds(user);
    match find_program_address(&seeds, program_id) {
        Some((address, _)) => Some(address),
        None => None,
    }
}

/// The key under which the ledger of the program `program_id` holds the task
/// `task_id` of `creator`: the address derived from the task's seeds. There
/// is none where the derivation finds no address.
pub fn task_key(program_id: &Pubkey, creator: &Pubkey, task_id: u64) -> (key: Option<Pubkey>)
    ensures
        key_view(key) == address_of(
            program_address(spec_task_seeds(*creator, task_id), program_id@),
        ),
{
    let seeds = task_seeds(creator, task_id);
    match find_program_address(&seeds, program_id) {
        Some((address, _)) => Some(address),
        None => None,
    }
}

/// Seeds name one record only. Two principals share the seeds of a profile
/// only if they are one principal; two tasks share their seeds only if they
/// have one creator and one id; and no profile shares its seeds with a task.
pub proof fn lemma_seeds_name_one_record(a: Pubkey, b: Pubkey, i: u64, j: u64)
    ensures
        spec_profile_seeds(a) == spec_profile_seeds(b) <==> a == b,
        spec_task_seeds(a, i) == spec_task_seeds(b, j) <==> (a == b && i == j),
        spec_profile_seeds(a) != spec_task_seeds(b, j),
{
    Pubkey::lemma_view_injective(a, b);
    lemma_auto_spec_u64_to_from_le_bytes();
    if spec_profile_seeds(a) == spec_profile_seeds(b) {
        assert(spec_profile_seeds(a)[1] == a@);
        assert(spec_profile_seeds(b)[1] == b@);
    }
    if spec_task_seeds(a, i) == spec_task_seeds(b, j) {
        assert(spec_task_seeds(a, i)[1] == a@);
        assert(spec_task_seeds(b, j)[1] == b@);
        assert(spec_task_seeds(a, i)[2] == spec_u64_to_le_bytes(i));
        assert(spec_task_seeds(b, j)[2] == spec_u64_to_le_bytes(j));
    }
    // A profile has two seeds and a task three.
    assert(spec_profile_seeds(a).len() == 2);
    assert(spec_task_seeds(b, j).len() == 3);
}

} // verus!
