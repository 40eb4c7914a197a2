//! Field-element behaviour and the task model's resolution rules.

use bootloader_engine::builtins::BuiltinName;
use bootloader_engine::execute_task::{validate_hash, ExecuteTaskError};
use bootloader_engine::felt::Felt;
use bootloader_engine::memory::{Memory, Relocatable};
use bootloader_engine::types::{CairoPiePath, LoadedTask, TaskError, TaskSpec};

#[test]
fn halving_carries_across_limbs() {
    // The largest canonical element: 2^251 + 17 * 2^192.
    let x = Felt { d0: 0, d1: 0, d2: 0, d3: 0x0800000000000011 };
    let h = x.div2();
    assert_eq!(h, Felt { d0: 0, d1: 0, d2: 0x8000000000000000, d3: 0x0400000000000008 });

    let odd = Felt { d0: 0xdeadbeefcafef00d, d1: 0, d2: 0, d3: 0 };
    assert_eq!(odd.div2(), Felt::from_u64(0x6f56df77e57f7806));
}

#[test]
fn small_values_round_trip_through_u64() {
    assert_eq!(Felt::from_u64(42).to_u64(), Some(42));
    let wide = Felt { d0: 1, d1: 1, d2: 0, d3: 0 };
    assert_eq!(wide.to_u64(), None);
}

#[test]
fn capability_names_encode_as_their_ascii_bytes() {
    for (name, text) in [
        (BuiltinName::Output, "output".as_bytes()),
        (BuiltinName::RangeCheck, "range_check".as_bytes()),
        (BuiltinName::RangeCheck96, "range_check96".as_bytes()),
        (BuiltinName::AddMod, "add_mod".as_bytes()),
    ] {
        let mut value: u128 = 0;
        for b in text {
            value = value * 256 + *b as u128;
        }
        let f = name.encode();
        assert_eq!(f.d0, value as u64);
        assert_eq!(f.d1, (value >> 64) as u64);
        assert_eq!(f.d2, 0);
        assert_eq!(f.d3, 0);
    }
}

#[test]
fn path_references_must_be_resolved_before_use() {
    let task = TaskSpec::CairoPiePath(CairoPiePath {
        path: "artifact.zip".to_string(),
        use_poseidon: false,
    });
    assert!(matches!(task.load_task(), Err(TaskError::UnresolvedPath)));
    assert!(task.get_program().is_err());

    let mem = Memory::new();
    let r = validate_hash(&mem, &task, Relocatable { segment_index: 0, offset: 0 });
    assert_eq!(r, Err(ExecuteTaskError::Task(TaskError::UnresolvedPath)));
}

#[test]
fn loaded_tasks_expose_their_backing_variant() {
    let program = bootloader_engine::program::StrippedProgram {
        data: vec![Felt::from_u64(3)],
        builtins: vec![],
        main: 0,
    };
    let task = TaskSpec::RunProgram(bootloader_engine::types::RunProgramTask {
        program,
        program_input: std::collections::HashMap::new(),
        use_poseidon: true,
    });
    assert!(task.use_poseidon());
    assert!(!task.is_pie());
    match task.load_task() {
        Ok(LoadedTask::Program(t)) => assert!(t.use_poseidon),
        _ => panic!("fresh-code task must resolve to its program"),
    }
}
