//! Deriving a record's address from its natural key.

use vstd::prelude::*;
use vstd::slice::{slice_subrange, slice_to_vec};
use vstd::string::{is_ascii, is_ascii_spec_bytes, StringSliceAdditionalSpecFns};
use vstd::utf8::encode_utf8;
use anchor_lang::prelude::Pubkey;
use crate::types::{Address, AchievementType, MAX_ID_BYTES};

verus! {

/// Most seeds a natural key may have, the nonce not counted.
pub const MAX_KEY_SEEDS: usize = 15;

/// Longest single seed, in bytes.
pub const MAX_SEED_BYTES: usize = 32;

/// The address and nonce that the host derives for a list of seeds under a
/// program, or `None` where it derives none.
pub uninterp spec fn program_address(seeds: Seq<Seq<u8>>, program_id: Seq<u8>) -> Option<(Seq<u8>, u8)>;

/// The seeds as sequences of bytes.
pub open spec fn seeds_view(seeds: Seq<Vec<u8>>) -> Seq<Seq<u8>> {
    seeds.map_values(|s: Vec<u8>| s@)
}

/// A derived pair as plain bytes.
pub open spec fn derived_view(d: Option<(Address, u8)>) -> Option<(Seq<u8>, u8)> {
    match d {
        Some((a, b)) => Some((a@, b)),
        None => None,
    }
}

/// Whether a list of seeds is within the host's limits.
pub open spec fn seeds_in_limits(seeds: Seq<Seq<u8>>) -> bool {
    &&& seeds.len() <= MAX_KEY_SEEDS
    &&& forall|i: int| 0 <= i < seeds.len() ==> (#[trigger] seeds[i]).len() <= MAX_SEED_BYTES
}

/// Calls `Pubkey::try_find_program_address` of solana-program, which searches
/// the nonces from 255 down for the first that gives a valid address. Taken
/// on trust: the result is `program_address` of the seeds and the program
/// id, and an address comes back only for seeds within the host's limits (at
/// most 15 seeds of at most 32 bytes each). Nothing is promised about when
/// an address is found.
#[verifier::external_body]
pub(crate) fn find_program_address(seeds: &Vec<Vec<u8>>, program_id: &Address) -> (r: Option<(Address, u8)>)
    ensures
        derived_view(r) == program_address(seeds_view(seeds@), program_id@),
        r is Some ==> seeds_in_limits(seeds_view(seeds@)),
{
    let parts: Vec<&[u8]> = seeds.iter().map(|s| s.as_slice()).collect();
    let owner = Pubkey::new_from_array(program_id.bytes);
    match Pubkey::try_find_program_address(&parts, &owner) {
        Some((key, bump)) => Some((Address { bytes: key.to_bytes() }, bump)),
        None => None,
    }
}

/// The bytes of the identity under which the program is deployed.
pub open spec fn program_id_bytes() -> Seq<u8> {
    seq![
        218u8, 7u8, 92u8, 178u8, 255u8, 94u8, 198u8, 129u8, 118u8, 19u8, 222u8, 83u8, 11u8, 105u8, 42u8, 135u8,
        53u8, 71u8, 119u8, 105u8, 218u8, 71u8, 67u8, 12u8, 189u8, 129u8, 84u8, 51u8, 92u8, 74u8, 131u8, 39u8,
    ]
}

/// The identity under which the program is deployed.
pub fn program_id() -> (r: Address)
    ensures
        r@ == program_id_bytes(),
{
    let bytes: [u8; 32] = [
        218, 7, 92, 178, 255, 94, 198, 129, 118, 19, 222, 83, 11, 105, 42, 135,
        53, 71, 119, 105, 218, 71, 67, 12, 189, 129, 84, 51, 92, 74, 131, 39,
    ];
    assert(bytes@ =~= program_id_bytes());
    Address { bytes }
}

/// The bytes of a natural key as seeds of at most 32 bytes each: the key
/// itself where it has up to 32 bytes, else its first 32 bytes and the rest.
pub open spec fn key_seeds(key: Seq<u8>) -> Seq<Seq<u8>> {
    if key.len() <= MAX_SEED_BYTES {
        seq![key]
    } else {
        seq![key.subrange(0, MAX_SEED_BYTES as int), key.subrange(MAX_SEED_BYTES as int, key.len() as int)]
    }
}

/// The tag of a record type followed by the seeds of a natural key.
pub open spec fn keyed_seeds(tag: Seq<u8>, key: Seq<u8>) -> Seq<Seq<u8>> {
    seq![tag] + key_seeds(key)
}

/// Seeds of the root record.
pub open spec fn lms_seeds() -> Seq<Seq<u8>> {
    seq!["lms".spec_bytes()]
}

/// Seeds of the course with the given id.
pub open spec fn course_seeds(course_id: Seq<char>) -> Seq<Seq<u8>> {
    keyed_seeds("course".spec_bytes(), encode_utf8(course_id))
}

/// Seeds of the enrollment with the given id.
pub open spec fn enrollment_seeds(enrollment_id: Seq<char>) -> Seq<Seq<u8>> {
    keyed_seeds("enrollment".spec_bytes(), encode_utf8(enrollment_id))
}

/// Seeds of the certificate with the given id.
pub open spec fn certificate_seeds(certificate_id: Seq<char>) -> Seq<Seq<u8>> {
    keyed_seeds("certificate".spec_bytes(), encode_utf8(certificate_id))
}

/// Seeds of the achievement of one kind for one student.
pub open spec fn achievement_seeds(student: Address, kind: AchievementType) -> Seq<Seq<u8>> {
    seq!["achievement".spec_bytes(), student@, kind.name().spec_bytes()]
}

proof fn lemma_tag_lengths()
    ensures
        "lms".spec_bytes().len() == 3,
        "course".spec_bytes().len() == 6,
        "enrollment".spec_bytes().len() == 10,
        "certificate".spec_bytes().len() == 11,
        "achievement".spec_bytes().len() == 11,
{
    broadcast use is_ascii_spec_bytes;

    reveal_strlit("lms");
    reveal_strlit("course");
    reveal_strlit("enrollment");
    reveal_strlit("certificate");
    reveal_strlit("achievement");
    assert(is_ascii("lms"));
    assert(is_ascii("course"));
    assert(is_ascii("enrollment"));
    assert(is_ascii("certificate"));
    assert(is_ascii("achievement"));
}

/// A tag of at most 32 bytes and a key of at most 64 bytes give seeds within
/// the host's limits.
pub proof fn law_keyed_seeds_in_limits(tag: Seq<u8>, key: Seq<u8>)
    requires
        tag.len() <= MAX_SEED_BYTES,
        key.len() <= MAX_ID_BYTES,
    ensures
        seeds_in_limits(keyed_seeds(tag, key)),
{
    let seeds = keyed_seeds(tag, key);
    assert forall|i: int| 0 <= i < seeds.len() implies (#[trigger] seeds[i]).len() <= MAX_SEED_BYTES by {
        if i > 0 {
            assert(seeds[i] == key_seeds(key)[i - 1]);
        }
    }
}

/// Every course, enrollment or certificate id of at most 64 bytes, and the
/// root record, have seeds within the host's limits.
pub proof fn law_id_seeds_in_limits(id: Seq<char>)
    requires
        encode_utf8(id).len() <= MAX_ID_BYTES,
    ensures
        seeds_in_limits(lms_seeds()),
        seeds_in_limits(course_seeds(id)),
        seeds_in_limits(enrollment_seeds(id)),
        seeds_in_limits(certificate_seeds(id)),
{
    lemma_tag_lengths();
    law_keyed_seeds_in_limits("course".spec_bytes(), encode_utf8(id));
    law_keyed_seeds_in_limits("enrollment".spec_bytes(), encode_utf8(id));
    law_keyed_seeds_in_limits("certificate".spec_bytes(), encode_utf8(id));
}

fn tagged(tag: &str, key: &str) -> (r: Vec<Vec<u8>>)
    ensures
        seeds_view(r@) == keyed_seeds(tag.spec_bytes(), key.spec_bytes()),
{
    let bytes = key.as_bytes();
    let mut seeds: Vec<Vec<u8>> = Vec::new();
    seeds.push(slice_to_vec(tag.as_bytes()));
    if bytes.len() <= MAX_SEED_BYTES {
        seeds.push(slice_to_vec(bytes));
    } else {
        seeds.push(slice_to_vec(slice_subrange(bytes, 0, MAX_SEED_BYTES)));
        seeds.push(slice_to_vec(slice_subrange(bytes, MAX_SEED_BYTES, bytes.len())));
    }
    assert(seeds_view(seeds@) =~= keyed_seeds(tag.spec_bytes(), key.spec_bytes()));
    seeds
}

/// Derives the root record's address under `program_id`.
pub fn derive_lms(program_id: &Address) -> (r: Option<(Address, u8)>)
    ensures
        derived_view(r) == program_address(lms_seeds(), program_id@),
{
    let mut seeds: Vec<Vec<u8>> = Vec::new();
    seeds.push(slice_to_vec("lms".as_bytes()));
    assert(seeds_view(seeds@) =~= lms_seeds());
    find_program_address(&seeds, program_id)
}

/// Derives a course's address from its id. An id of up to 64 bytes is
/// within the host's limits.
pub fn derive_course(course_id: &String, program_id: &Address) -> (r: Option<(Address, u8)>)
    ensures
        derived_view(r) == program_address(course_seeds(course_id@), program_id@),
        r is Some || encode_utf8(course_id@).len() <= MAX_ID_BYTES ==> seeds_in_limits(course_seeds(course_id@)),
{
    let seeds = tagged("course", course_id.as_str());
    proof {
        if encode_utf8(course_id@).len() <= MAX_ID_BYTES {
            law_id_seeds_in_limits(course_id@);
        }
    }
    find_program_address(&seeds, program_id)
}

/// Derives an enrollment's address from its id. An id of up to 64 bytes is
/// within the host's limits.
pub fn derive_enrollment(enrollment_id: &String, program_id: &Address) -> (r: Option<(Address, u8)>)
    ensures
        derived_view(r) == program_address(enrollment_seeds(enrollment_id@), program_id@),
        r is Some || encode_utf8(enrollment_id@).len() <= MAX_ID_BYTES ==> seeds_in_limits(
            enrollment_seeds(enrollment_id@),
        ),
{
    let seeds = tagged("enrollment", enrollment_id.as_str());
    proof {
        if encode_utf8(enrollment_id@).len() <= MAX_ID_BYTES {
            law_id_seeds_in_limits(enrollment_id@);
        }
    }
    find_program_address(&seeds, program_id)
}

/// Derives a certificate's address from its id. An id of up to 64 bytes is
/// within the host's limits.
pub fn derive_certificate(certificate_id: &String, program_id: &Address) -> (r: Option<(Address, u8)>)
    ensures
        derived_view(r) == program_address(certificate_seeds(certificate_id@), program_id@),
        r is Some || encode_utf8(certificate_id@).len() <= MAX_ID_BYTES ==> seeds_in_limits(
            certificate_seeds(certificate_id@),
        ),
{
    let seeds = tagged("certificate", certificate_id.as_str());
    proof {
        if encode_utf8(certificate_id@).len() <= MAX_ID_BYTES {
            law_id_seeds_in_limits(certificate_id@);
        }
    }
    find_program_address(&seeds, program_id)
}

/// Derives the address of the achievement of one kind for one student.
pub fn derive_achievement(student: &Address, kind: AchievementType, program_id: &Address) -> (r: Option<(Address, u8)>)
    ensures
        derived_view(r) == program_address(achievement_seeds(*student, kind), program_id@),
{
    let mut seeds: Vec<Vec<u8>> = Vec::new();
    seeds.push(slice_to_vec("achievement".as_bytes()));
    seeds.push(slice_to_vec(student.bytes.as_slice()));
    seeds.push(slice_to_vec(kind.label().as_bytes()));
    assert(seeds_view(seeds@) =~= achievement_seeds(*student, kind));
    find_program_address(&seeds, program_id)
}

} // verus!
