//! Random identifiers.
use crate::text::chars_of;
use rand::Rng;
use vstd::prelude::*;
use vstd::string::*;

verus! {

/// `rand::Rng::gen_range` on `rand::thread_rng`: a number below `n`, by chance.
/// `gen_range` panics on an empty range. That it panics too where the operating
/// system has no randomness is left unsaid.
#[verifier::external_body]
fn random_below(n: usize) -> (i: usize)
    requires
        n > 0,
    ensures
        i < n,
{
    rand::thread_rng().gen_range(0..n)
}

/// `rand::random` for 32 bits: any of them, by chance.
#[verifier::external_body]
pub(crate) fn random_u32() -> (n: u32) {
    rand::random()
}

/// `rand::random` for 64 bits: any of them, by chance.
#[verifier::external_body]
pub(crate) fn random_u64() -> (n: u64) {
    rand::random()
}

/// The letters and digits that identifiers are made of.
pub open spec fn id_alphabet() -> Seq<char> {
    "abcdefghijklmnopqrstuvwxyzABCDEFGHIJKLMNOPQRSTUVWXYZ0123456789"@
}

/// The letters and digits at these positions.
pub open spec fn id_at(positions: Seq<usize>) -> Seq<char> {
    positions.map_values(|i: usize| id_alphabet()[i as int])
}

/// The identifier that is made of the letters and digits at these positions.
pub fn id_of(positions: &Vec<usize>) -> (id: String)
    requires
        forall|i: int| 0 <= i < positions.len() ==> positions[i] < 62,
    ensures
        id@ == id_at(positions@),
{
    let chars: Vec<char> = chars_of(
        "abcdefghijklmnopqrstuvwxyzABCDEFGHIJKLMNOPQRSTUVWXYZ0123456789",
    );
    proof {
        reveal_strlit("abcdefghijklmnopqrstuvwxyzABCDEFGHIJKLMNOPQRSTUVWXYZ0123456789");
    }
    let mut id: String = String::new();
    let mut i: usize = 0;
    while i < positions.len()
        invariant
            i <= positions.len(),
            chars@ == id_alphabet(),
            chars.len() == 62,
            forall|k: int| 0 <= k < positions.len() ==> positions[k] < 62,
            id@ == id_at(positions@.take(i as int)),
        decreases positions.len() - i,
    {
        id.push(chars[positions[i]]);
        i = i + 1;
        assert(id@ =~= id_at(positions@.take(i as int)));
    }
    assert(positions@.take(i as int) =~= positions@);
    id
}

/// Whether a text is made of letters and digits only.
pub open spec fn is_id(s: Seq<char>) -> bool {
    forall|i: int| 0 <= i < s.len() ==> id_alphabet().contains(#[trigger] s[i])
}

/// A random identifier of this many letters and digits.
pub fn rand_id(len: usize) -> (id: String)
    ensures
        id@.len() == len,
        is_id(id@),
{
    let mut positions: Vec<usize> = Vec::new();
    while positions.len() < len
        invariant
            positions.len() <= len,
            forall|k: int| 0 <= k < positions.len() ==> positions[k] < 62,
        decreases len - positions.len(),
    {
        positions.push(random_below(62));
    }
    let id: String = id_of(&positions);
    proof {
        reveal_strlit("abcdefghijklmnopqrstuvwxyzABCDEFGHIJKLMNOPQRSTUVWXYZ0123456789");
        assert forall|i: int| 0 <= i < id@.len() implies id_alphabet().contains(
            #[trigger] id@[i],
        ) by {
            assert(id@[i] == id_alphabet()[positions[i] as int]);
        }
    }
    id
}

} // verus!
