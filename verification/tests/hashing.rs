//! Identity-hash behaviour: determinism, sensitivity to single-word
//! changes, agreement with the outside hash, and the committed-hash check.

use bootloader_engine::builtins::BuiltinName;
use bootloader_engine::execute_task::{validate_hash, ExecuteTaskError};
use bootloader_engine::felt::Felt;
use bootloader_engine::hash::compute_program_hash_chain;
use bootloader_engine::memory::{MaybeRelocatable, Memory, Relocatable};
use bootloader_engine::program::StrippedProgram;
use bootloader_engine::types::{RunProgramTask, TaskSpec};

fn sample_program() -> StrippedProgram {
    StrippedProgram {
        data: vec![Felt::from_u64(7), Felt::from_u64(8), Felt::from_u64(9)],
        builtins: vec![BuiltinName::Output],
        main: 1,
    }
}

fn to_outside(f: &Felt) -> starknet_crypto::Felt {
    let mut b = [0u8; 32];
    for (i, limb) in [f.d3, f.d2, f.d1, f.d0].iter().enumerate() {
        b[i * 8..(i + 1) * 8].copy_from_slice(&limb.to_be_bytes());
    }
    starknet_crypto::Felt::from_bytes_be(&b)
}

#[test]
fn hash_is_deterministic() {
    let p = sample_program();
    let h1 = compute_program_hash_chain(&p, 0);
    let h2 = compute_program_hash_chain(&p, 0);
    assert_eq!(h1, h2);
}

#[test]
fn hash_changes_with_any_single_code_word() {
    let p = sample_program();
    let h = compute_program_hash_chain(&p, 0);
    for k in 0..3 {
        let mut q = sample_program();
        q.data[k] = Felt::from_u64(1000 + k as u64);
        assert_ne!(compute_program_hash_chain(&q, 0), h);
    }
    // The hash is not any of its own inputs.
    for w in &p.data {
        assert_ne!(h, *w);
    }
}

#[test]
fn hash_agrees_with_the_outside_pedersen_chain() {
    // Recompute the chain directly over the outside crate and compare.
    let p = sample_program();
    let words: Vec<starknet_crypto::Felt> = [
        7u64,                // payload length: 3 + builtins + code words
        0,                   // schema version
        1,                   // entry point
        1,                   // builtin count
        0x6f7574707574,      // "output"
        7,
        8,
        9,
    ]
    .iter()
    .map(|x| starknet_crypto::Felt::from(*x))
    .collect();
    let mut acc = words[words.len() - 1];
    for w in words[..words.len() - 1].iter().rev() {
        acc = starknet_crypto::pedersen_hash(w, &acc);
    }
    let got = compute_program_hash_chain(&p, 0);
    assert_eq!(to_outside(&got), acc);
}

#[test]
fn committed_hash_is_checked_against_the_computed_one() {
    let p = sample_program();
    let h = compute_program_hash_chain(&p, 0);
    let output_ptr = Relocatable { segment_index: 0, offset: 0 };
    let hash_cell = Relocatable { segment_index: 0, offset: 1 };

    let mut mem = Memory::new();
    mem.add_segment();
    mem.insert(hash_cell, MaybeRelocatable::Int(h)).unwrap();
    let task = TaskSpec::RunProgram(RunProgramTask {
        program: p,
        program_input: std::collections::HashMap::new(),
        use_poseidon: false,
    });
    validate_hash(&mem, &task, output_ptr).expect("matching hash must pass");

    let mut mem2 = Memory::new();
    mem2.add_segment();
    mem2.insert(hash_cell, MaybeRelocatable::Int(Felt::from_u64(42))).unwrap();
    assert_eq!(validate_hash(&mem2, &task, output_ptr), Err(ExecuteTaskError::HashMismatch));
}
