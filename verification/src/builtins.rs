//! The well-known resource capabilities ("builtins") and their canonical
//! order, as the bootloader threads them through every task frame.

use vstd::prelude::*;

use crate::felt::Felt;

verus! {

/// A resource capability with a dedicated, monotonically advancing memory
/// segment.
#[derive(Clone, Copy, PartialEq, Eq, Structural, Debug)]
pub enum BuiltinName {
    Output,
    Pedersen,
    RangeCheck,
    Ecdsa,
    Bitwise,
    EcOp,
    Keccak,
    Poseidon,
    RangeCheck96,
    AddMod,
    MulMod,
}

/// The canonical global order of the capability slots.
pub open spec fn all_builtins_spec() -> Seq<BuiltinName> {
    seq![
        BuiltinName::Output,
        BuiltinName::Pedersen,
        BuiltinName::RangeCheck,
        BuiltinName::Ecdsa,
        BuiltinName::Bitwise,
        BuiltinName::EcOp,
        BuiltinName::Keccak,
        BuiltinName::Poseidon,
        BuiltinName::RangeCheck96,
        BuiltinName::AddMod,
        BuiltinName::MulMod,
    ]
}

/// Number of capability slots.
pub open spec fn n_builtin_slots() -> int {
    11
}

/// List of all builtins in the order used by the bootloader.
pub fn all_builtins() -> (r: Vec<BuiltinName>)
    ensures
        r@ == all_builtins_spec(),
{
    let r = vec![
        BuiltinName::Output,
        BuiltinName::Pedersen,
        BuiltinName::RangeCheck,
        BuiltinName::Ecdsa,
        BuiltinName::Bitwise,
        BuiltinName::EcOp,
        BuiltinName::Keccak,
        BuiltinName::Poseidon,
        BuiltinName::RangeCheck96,
        BuiltinName::AddMod,
        BuiltinName::MulMod,
    ];
    proof {
        assert(r@ =~= all_builtins_spec());
    }
    r
}

/// The integer a capability name denotes in headers and hash inputs: its
/// ASCII name read as a big-endian number.
pub open spec fn builtin_code(b: BuiltinName) -> int {
    match b {
        BuiltinName::Output => 0x6f7574707574,
        BuiltinName::Pedersen => 0x706564657273656e,
        BuiltinName::RangeCheck => 0x72616e67655f636865636bint,
        BuiltinName::Ecdsa => 0x6563647361,
        BuiltinName::Bitwise => 0x62697477697365,
        BuiltinName::EcOp => 0x65635f6f70,
        BuiltinName::Keccak => 0x6b656363616b,
        BuiltinName::Poseidon => 0x706f736569646f6e,
        BuiltinName::RangeCheck96 => 0x72616e67655f636865636b3936int,
        BuiltinName::AddMod => 0x6164645f6d6f64,
        BuiltinName::MulMod => 0x6d756c5f6d6f64,
    }
}

impl BuiltinName {
    /// The capability name as a field element, for headers and hash inputs.
    pub fn encode(self) -> (r: Felt)
        ensures
            r@ == builtin_code(self),
            r.wf(),
    {
        match self {
            BuiltinName::Output => Felt::from_u64(0x6f7574707574),
            BuiltinName::Pedersen => Felt::from_u64(0x706564657273656e),
            BuiltinName::RangeCheck => Felt::from_u128_pair(0x72616e, 0x67655f636865636b),
            BuiltinName::Ecdsa => Felt::from_u64(0x6563647361),
            BuiltinName::Bitwise => Felt::from_u64(0x62697477697365),
            BuiltinName::EcOp => Felt::from_u64(0x65635f6f70),
            BuiltinName::Keccak => Felt::from_u64(0x6b656363616b),
            BuiltinName::Poseidon => Felt::from_u64(0x706f736569646f6e),
            BuiltinName::RangeCheck96 => Felt::from_u128_pair(0x72616e6765, 0x5f636865636b3936),
            BuiltinName::AddMod => Felt::from_u64(0x6164645f6d6f64),
            BuiltinName::MulMod => Felt::from_u64(0x6d756c5f6d6f64),
        }
    }
}

/// Whether `list` contains the capability `b`.
pub fn contains_builtin(list: &Vec<BuiltinName>, b: BuiltinName) -> (r: bool)
    ensures
        r == list@.contains(b),
{
    let mut i: usize = 0;
    while i < list.len()
        invariant
            i <= list@.len(),
            forall|j: int| 0 <= j < i ==> list@[j] != b,
        decreases list@.len() - i,
    {
        if list[i] == b {
            return true;
        }
        i = i + 1;
    }
    false
}

} // verus!
