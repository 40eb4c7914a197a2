//! Program identity hashing: a Pedersen chain over the program's header
//! payload and code words, compared against the hash committed in the
//! execution state.

use vstd::prelude::*;

use crate::felt::{lemma_felt_eq_value, Felt};
use crate::program::{felt_vals, load_word_vec, StrippedProgram};

verus! {

/// The Pedersen hash of two field elements, named after the outside
/// function that computes it.
pub uninterp spec fn pedersen_of(x: int, y: int) -> int;

/// Relies on `starknet_crypto::pedersen_hash`: the Pedersen hash of two
/// Stark field elements, a function of its two arguments alone, returning
/// a canonical field element.
#[verifier::external_body]
fn pedersen(x: &Felt, y: &Felt) -> (r: Felt)
    ensures
        r@ == pedersen_of(x@, y@),
        r.wf(),
{
    let to = |f: &Felt| {
        let mut b = [0u8; 32];
        for (i, limb) in [f.d3, f.d2, f.d1, f.d0].iter().enumerate() {
            b[i * 8..(i + 1) * 8].copy_from_slice(&limb.to_be_bytes());
        }
        starknet_crypto::Felt::from_bytes_be(&b)
    };
    let h = starknet_crypto::pedersen_hash(&to(x), &to(y)).to_bytes_be();
    let limb = |i: usize| u64::from_be_bytes(h[i * 8..(i + 1) * 8].try_into().unwrap());
    Felt { d3: limb(0), d2: limb(1), d1: limb(2), d0: limb(3) }
}

/// The chain hash of a non-empty word sequence:
/// `h(w0, h(w1, ... h(w_{n-2}, w_{n-1})))`.
pub open spec fn hash_chain(data: Seq<int>) -> int
    recommends
        data.len() >= 1,
    decreases data.len(),
{
    if data.len() <= 1 {
        data[0]
    } else {
        pedersen_of(data[0], hash_chain(data.drop_first()))
    }
}

/// Computes the chain hash of the words, combining from the right.
pub fn compute_hash_chain(data: &Vec<Felt>) -> (r: Felt)
    requires
        data@.len() >= 1,
        forall|i: int| 0 <= i < data@.len() ==> #[trigger] data@[i].wf(),
    ensures
        r@ == hash_chain(felt_vals(data@)),
        r.wf(),
{
    let n = data.len();
    let mut acc = data[n - 1];
    let mut i = n - 1;
    proof {
        assert(felt_vals(data@).subrange(i as int, n as int) =~= seq![data@[i as int]@]);
    }
    while i > 0
        invariant
            n == data@.len(),
            i < n,
            forall|j: int| 0 <= j < n ==> #[trigger] data@[j].wf(),
            acc.wf(),
            acc@ == hash_chain(felt_vals(data@).subrange(i as int, n as int)),
        decreases i,
    {
        i = i - 1;
        acc = pedersen(&data[i], &acc);
        proof {
            let vals = felt_vals(data@);
            assert(vals.subrange(i as int, n as int).drop_first() =~= vals.subrange(
                i + 1,
                n as int,
            ));
            assert(vals.subrange(i as int, n as int)[0] == data@[i as int]@);
        }
    }
    proof {
        assert(felt_vals(data@).subrange(0, n as int) =~= felt_vals(data@));
    }
    acc
}

/// The identity hash of a program: the chain hash over the payload length
/// followed by the header payload (schema version, entry point, capability
/// count, capability names) and the code words.
pub open spec fn program_hash(p: StrippedProgram, version: int) -> int {
    hash_chain(p.load_words(version))
}

/// Computes the identity hash of `program`.
pub fn compute_program_hash_chain(program: &StrippedProgram, version: u64) -> (r: Felt)
    requires
        program.wf(),
    ensures
        r@ == program_hash(*program, version as int),
        r.wf(),
{
    let words = load_word_vec(program, version);
    proof {
        assert(felt_vals(words@) =~= program.load_words(version as int));
    }
    compute_hash_chain(&words)
}

/// Compares the computed identity hash of `program` with a claimed hash.
pub fn program_hash_matches(program: &StrippedProgram, claimed: &Felt, version: u64) -> (r:
    bool)
    requires
        program.wf(),
    ensures
        r == (claimed@ == program_hash(*program, version as int)),
{
    let computed = compute_program_hash_chain(program, version);
    proof {
        lemma_felt_eq_value(computed, *claimed);
    }
    computed == *claimed
}

/// Hash verification is deterministic: the identity hash depends on the
/// program descriptor and schema version alone, so verifying equal
/// descriptors gives equal results.
pub proof fn lemma_program_hash_deterministic(
    p1: StrippedProgram,
    p2: StrippedProgram,
    version: int,
)
    requires
        p1.data@ == p2.data@,
        p1.builtins@ == p2.builtins@,
        p1.main == p2.main,
    ensures
        program_hash(p1, version) == program_hash(p2, version),
{
    assert(p1.load_words(version) =~= p2.load_words(version));
}

} // verus!
