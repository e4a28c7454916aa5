//! Where the records live on chain: the seeds of each record, and the program
//! address that the runtime derives from them.

use vstd::prelude::*;
use anchor_lang::prelude::Pubkey;
use crate::identity::Identity;
use crate::records::TaskKey;

verus! {

/// The first seed of every profile: the text `USER_STATE`.
pub const PROFILE_TAG: [u8; 10] = [85, 83, 69, 82, 95, 83, 84, 65, 84, 69];

/// The first seed of every task: the text `TODO_STATE`.
pub const TASK_TAG: [u8; 10] = [84, 79, 68, 79, 95, 83, 84, 65, 84, 69];

/// A program address: the key of the account, and the bump seed with which
/// the key was found.
#[derive(Clone, Copy, Debug, PartialEq, Eq, Hash)]
pub struct Address {
    pub key: [u8; 32],
    pub bump: u8,
}

/// The seeds of the profile of `owner`: the profile tag, then the owner's bytes.
pub open spec fn profile_seeds_of(owner: Identity) -> Seq<Seq<u8>> {
    seq![PROFILE_TAG@, owner.bytes@]
}

/// The seeds of the task under `key`: the task tag, the owner's bytes, and
/// the index as a single byte.
pub open spec fn task_seeds_of(key: TaskKey) -> Seq<Seq<u8>> {
    seq![TASK_TAG@, key.owner.bytes@, seq![key.index]]
}

/// The address that the runtime derives for `program` from `seeds` and the
/// bump seed that goes with it, or `None` where it derives none.
pub uninterp spec fn program_address(seeds: Seq<Seq<u8>>, program: Seq<u8>) -> Option<
    (Seq<u8>, u8),
>;

/// The bytes of each seed of a list of seeds.
pub open spec fn seed_bytes(seeds: &Vec<Vec<u8>>) -> Seq<Seq<u8>> {
    seeds@.map_values(|seed: Vec<u8>| seed@)
}

/// The bytes of an array, in a vector.
fn bytes_of<const N: usize>(array: &[u8; N]) -> (bytes: Vec<u8>)
    ensures
        bytes@ == array@,
{
    let mut bytes: Vec<u8> = Vec::new();
    let mut i: usize = 0;
    while i < N
        invariant
            i <= N,
            bytes@ == array@.take(i as int),
        decreases N - i,
    {
        bytes.push(array[i]);
        i += 1;
        assert(bytes@ =~= array@.take(i as int));
    }
    assert(array@.take(N as int) =~= array@);
    bytes
}

/// The seeds of the profile of `owner`.
pub fn profile_seeds(owner: &Identity) -> (seeds: Vec<Vec<u8>>)
    ensures
        seed_bytes(&seeds) == profile_seeds_of(*owner),
{
    let mut seeds: Vec<Vec<u8>> = Vec::new();
    seeds.push(bytes_of(&PROFILE_TAG));
    seeds.push(bytes_of(&owner.bytes));
    assert(seed_bytes(&seeds) =~= profile_seeds_of(*owner));
    seeds
}

/// The seeds of the task under `key`.
pub fn task_seeds(key: &TaskKey) -> (seeds: Vec<Vec<u8>>)
    ensures
        seed_bytes(&seeds) == task_seeds_of(*key),
{
    let mut index: Vec<u8> = Vec::new();
    index.push(key.index);
    assert(index@ =~= seq![key.index]);
    let mut seeds: Vec<Vec<u8>> = Vec::new();
    seeds.push(bytes_of(&TASK_TAG));
    seeds.push(bytes_of(&key.owner.bytes));
    seeds.push(index);
    assert(seed_bytes(&seeds) =~= task_seeds_of(*key));
    seeds
}

/// What an address holds, as plain values.
pub open spec fn address_view(address: Option<Address>) -> Option<(Seq<u8>, u8)> {
    match address {
        Some(address) => Some((address.key@, address.bump)),
        None => None,
    }
}

/// Calls `Pubkey::try_find_program_address`, which `anchor_lang` hands on
/// from the Solana SDK. The contract is taken on trust. It claims one thing:
/// what comes back, an address with its bump seed or `None`, depends on the
/// bytes of the seeds and on the program's key and on nothing else.
#[verifier::external_body]
fn find_program_address(seeds: &Vec<Vec<u8>>, program: &[u8; 32]) -> (r: Option<Address>)
    ensures
        address_view(r) == program_address(seed_bytes(seeds), program@),
{
    let parts: Vec<&[u8]> = seeds.iter().map(|seed| seed.as_slice()).collect();
    match Pubkey::try_find_program_address(&parts, &Pubkey::new_from_array(*program)) {
        Some((key, bump)) => Some(Address { key: key.to_bytes(), bump }),
        None => None,
    }
}

/// The address at which `program` keeps the profile of `owner`, or `None`
/// where the runtime derives no address from the profile's seeds.
pub fn profile_address(owner: &Identity, program: &[u8; 32]) -> (r: Option<Address>)
    ensures
        address_view(r) == program_address(profile_seeds_of(*owner), program@),
{
    let seeds = profile_seeds(owner);
    find_program_address(&seeds, program)
}

/// The address at which `program` keeps the task under `key`, or `None`
/// where the runtime derives no address from the task's seeds.
pub fn task_address(key: &TaskKey, program: &[u8; 32]) -> (r: Option<Address>)
    ensures
        address_view(r) == program_address(task_seeds_of(*key), program@),
{
    let seeds = task_seeds(key);
    find_program_address(&seeds, program)
}

/// The bytes that go into the hash for a list of seeds: every seed in turn,
/// then the bump seed as one more seed of a single byte. (The key of the
/// program and a fixed marker follow them.)
pub open spec fn hashed_text(seeds: Seq<Seq<u8>>, bump: u8) -> Seq<u8> {
    seeds.push(seq![bump]).flatten()
}

/// The hashed bytes of a profile: the tag, the owner, the bump seed.
proof fn lemma_profile_text(owner: Identity, bump: u8)
    ensures
        hashed_text(profile_seeds_of(owner), bump) == PROFILE_TAG@ + owner.bytes@ + seq![bump],
{
    let tag = seq![PROFILE_TAG@];
    tag.lemma_flatten_one_element();
    tag.lemma_flatten_push(owner.bytes@);
    assert(tag.push(owner.bytes@) =~= profile_seeds_of(owner));
    profile_seeds_of(owner).lemma_flatten_push(seq![bump]);
}

/// The hashed bytes of a task: the tag, the owner, the index, the bump seed.
proof fn lemma_task_text(key: TaskKey, bump: u8)
    ensures
        hashed_text(task_seeds_of(key), bump) == TASK_TAG@ + key.owner.bytes@ + seq![key.index]
            + seq![bump],
{
    let tag = seq![TASK_TAG@];
    tag.lemma_flatten_one_element();
    tag.lemma_flatten_push(key.owner.bytes@);
    tag.push(key.owner.bytes@).lemma_flatten_push(seq![key.index]);
    assert(tag.push(key.owner.bytes@).push(seq![key.index]) =~= task_seeds_of(key));
    task_seeds_of(key).lemma_flatten_push(seq![bump]);
}

/// The seeds are hashed one after the other, so two records would share an
/// address if the bytes of their seeds, strung together, were the same. They
/// never are, whatever the bump seeds: the hashed bytes of two profiles agree
/// only for one owner, those of two tasks only for one owner and one index,
/// and those of a profile never agree with those of a task.
pub proof fn seeds_tell_records_apart(
    a: Identity,
    b: Identity,
    j: TaskKey,
    k: TaskKey,
    x: u8,
    y: u8,
)
    ensures
        hashed_text(profile_seeds_of(a), x) == hashed_text(profile_seeds_of(b), y) ==> a == b,
        hashed_text(task_seeds_of(j), x) == hashed_text(task_seeds_of(k), y) ==> j == k,
        hashed_text(profile_seeds_of(a), x) != hashed_text(task_seeds_of(k), y),
{
    lemma_profile_text(a, x);
    lemma_profile_text(b, y);
    lemma_task_text(j, x);
    lemma_task_text(k, y);
    let pa = hashed_text(profile_seeds_of(a), x);
    let pb = hashed_text(profile_seeds_of(b), y);
    let tj = hashed_text(task_seeds_of(j), x);
    let tk = hashed_text(task_seeds_of(k), y);
    assert(pa.len() == 43 && tk.len() == 44);
    if pa == pb {
        assert forall|i: int| 0 <= i < 32 implies a.bytes[i] == b.bytes[i] by {
            assert(pa[10 + i] == a.bytes@[i]);
            assert(pb[10 + i] == b.bytes@[i]);
        }
        assert(a.bytes =~= b.bytes);
    }
    if tj == tk {
        assert forall|i: int| 0 <= i < 32 implies j.owner.bytes[i] == k.owner.bytes[i] by {
            assert(tj[10 + i] == j.owner.bytes@[i]);
            assert(tk[10 + i] == k.owner.bytes@[i]);
        }
        assert(j.owner.bytes =~= k.owner.bytes);
        assert(tj[42] == j.index);
        assert(tk[42] == k.index);
    }
}

} // verus!
