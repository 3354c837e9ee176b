//! EVM bytecode: where its instructions start, and what each one costs
//! before execution.
//!
//! An instruction is known by its opcode byte alone: the disassembly and the
//! cost schedule share that one representation.

use vstd::prelude::*;

verus! {

/// The longest code that is disassembled: instruction offsets are 32-bit, and
/// the offset behind a truncated `PUSH32` must still fit.
pub const MAX_CODE_LEN: usize = 0xffff_ffdf;

/// Opcode of `BASEFEE`.
pub const BASEFEE: u8 = 0x48;

/// Opcode of `BLOBHASH`.
pub const BLOBHASH: u8 = 0x49;

/// Opcode of `BLOBBASEFEE`.
pub const BLOBBASEFEE: u8 = 0x4a;

/// Opcode of `INVALID`, the designated invalid instruction.
pub const INVALID: u8 = 0xfe;

/// The number of immediate bytes that follow `opcode`: `PUSH1` to `PUSH32`
/// carry 1 to 32 of them, all other instructions none.
pub open spec fn immediate_len(opcode: u8) -> int {
    if 0x60 <= opcode <= 0x7f {
        opcode - 0x5f
    } else {
        0
    }
}

/// The offsets at which the instructions of `code` start, walking from
/// `start`. The walk ends at the end of the code, or before a push whose
/// immediate bytes the code no longer holds in full.
pub open spec fn instruction_offsets(code: Seq<u8>, start: int) -> Seq<int>
    decreases code.len() - start,
{
    if start < 0 || start >= code.len() {
        Seq::empty()
    } else {
        let next = start + 1 + immediate_len(code[start]);
        if next > code.len() {
            Seq::empty()
        } else {
            seq![start] + instruction_offsets(code, next)
        }
    }
}

/// Whether `opcode` is an instruction of the known set.
pub open spec fn is_known_opcode(opcode: u8) -> bool {
    ||| opcode <= 0x0b
    ||| 0x10 <= opcode <= 0x1d
    ||| opcode == 0x20
    ||| 0x30 <= opcode <= 0x4a
    ||| 0x50 <= opcode <= 0xa4
    ||| 0xf0 <= opcode <= 0xf5
    ||| opcode == 0xfa
    ||| opcode == 0xfd
    ||| opcode == 0xff
}

/// The opcode under which an instruction is metered. The schedule predates
/// the blob instructions: `BLOBBASEFEE` is metered as `BASEFEE`, and
/// `BLOBHASH`, like every byte outside the known set, as `INVALID`.
pub open spec fn runtime_opcode(opcode: u8) -> u8 {
    if opcode == BLOBBASEFEE {
        BASEFEE
    } else if opcode == BLOBHASH || !is_known_opcode(opcode) {
        INVALID
    } else {
        opcode
    }
}

/// The static cost of an instruction, where it has one. Instructions whose
/// cost depends on the state or on memory have none.
pub open spec fn static_opcode_cost_spec(opcode: u8) -> Option<u64> {
    if opcode == 0x00 {
        // STOP
        Some(0)
    } else if opcode == 0x5b {
        // JUMPDEST
        Some(1)
    } else if opcode == 0x30 || 0x32 <= opcode <= 0x34 || opcode == 0x36 || opcode == 0x38
        || opcode == 0x3a || 0x41 <= opcode <= 0x45 || opcode == 0x50 || 0x58 <= opcode <= 0x5a {
        // ADDRESS, ORIGIN, CALLER, CALLVALUE, CALLDATASIZE, CODESIZE, GASPRICE,
        // COINBASE to GASLIMIT, POP, PC, MSIZE, GAS
        Some(2)
    } else if opcode == 0x01 || opcode == 0x03 || 0x10 <= opcode <= 0x1a || opcode == 0x35 || 0x60
        <= opcode <= 0x9f {
        // ADD, SUB, LT to BYTE, CALLDATALOAD, PUSH1 to PUSH32, DUP1 to DUP16,
        // SWAP1 to SWAP16
        Some(3)
    } else if opcode == 0x02 || 0x04 <= opcode <= 0x07 || opcode == 0x0b {
        // MUL, DIV, SDIV, MOD, SMOD, SIGNEXTEND
        Some(5)
    } else if opcode == 0x08 || opcode == 0x09 || opcode == 0x56 {
        // ADDMOD, MULMOD, JUMP
        Some(8)
    } else if opcode == 0x57 {
        // JUMPI
        Some(10)
    } else {
        None
    }
}

/// What the instruction with opcode byte `opcode` adds to the gas used: the
/// static cost of the opcode it is metered under, or nothing where that has
/// none.
pub open spec fn instruction_cost_spec(opcode: u8) -> u64 {
    match static_opcode_cost_spec(runtime_opcode(opcode)) {
        Some(cost) => cost,
        None => 0,
    }
}

/// The cost of each instruction of `code`, in order.
pub open spec fn instruction_costs(code: Seq<u8>) -> Seq<u64> {
    instruction_offsets(code, 0).map_values(|offset: int| instruction_cost_spec(code[offset]))
}

/// `eyre::Report`, the disassembler's error: carried through, never read.
#[verifier::external_type_specification]
#[verifier::external_body]
pub struct ExReport(eyre::Report);

/// Disassembles `code` and returns the offset of each instruction.
///
/// Trusted: calls `evm_disassembler::disassemble_bytes` and keeps the
/// `offset` field of each operation. That function reads one opcode byte,
/// then for `PUSH1` to `PUSH32` the 1 to 32 bytes behind it; it stops, and
/// leaves the push out, where fewer bytes are left. It returns `Ok` in every
/// case. Its offsets are 32-bit, which the bound on the code's length keeps
/// from overflowing.
#[verifier::external_body]
pub(crate) fn disassemble(code: &Vec<u8>) -> (r: Result<Vec<u32>, eyre::Report>)
    requires
        code@.len() <= MAX_CODE_LEN,
    ensures
        r is Ok,
        r matches Ok(offsets) ==> offsets@.map_values(|offset: u32| offset as int)
            == instruction_offsets(code@, 0),
{
    let operations = evm_disassembler::disassemble_bytes(code.clone())?;
    Ok(operations.iter().map(|operation| operation.offset).collect())
}

/// The static cost of `opcode` under the schedule, if it has one.
///
/// Trusted: calls `evm_gasometer::static_opcode_cost`, a lookup in a fixed
/// table of 256 entries, which the contract states class by class.
#[verifier::external_body]
pub(crate) fn static_opcode_cost(opcode: u8) -> (r: Option<u64>)
    ensures
        r == static_opcode_cost_spec(opcode),
{
    evm_gasometer::static_opcode_cost(evm_runtime::Opcode(opcode))
}

/// The opcode under which the instruction `op_code` is metered.
pub fn get_evm_runtime_opcode(op_code: u8) -> (r: u8)
    ensures
        r == runtime_opcode(op_code),
{
    match op_code {
        0x4a => BASEFEE,
        0x49 => INVALID,
        0x00..=0x0b | 0x10..=0x1d | 0x20 | 0x30..=0x48 | 0x50..=0xa4 => op_code,
        0xf0..=0xf5 | 0xfa | 0xfd | 0xff => op_code,
        _ => INVALID,
    }
}

/// What the instruction with opcode byte `op_code` adds to the gas used.
pub fn instruction_cost(op_code: u8) -> (r: u64)
    ensures
        r == instruction_cost_spec(op_code),
{
    match static_opcode_cost(get_evm_runtime_opcode(op_code)) {
        Some(cost) => cost,
        None => 0,
    }
}

/// Every instruction offset lies inside the code, at or after the start of
/// the walk.
pub proof fn lemma_instruction_offsets_in_code(code: Seq<u8>, start: int)
    ensures
        forall|i: int|
            0 <= i < instruction_offsets(code, start).len() ==> start <= (
            #[trigger] instruction_offsets(code, start)[i]) < code.len(),
    decreases code.len() - start,
{
    if 0 <= start < code.len() {
        let next = start + 1 + immediate_len(code[start]);
        if next <= code.len() {
            lemma_instruction_offsets_in_code(code, next);
            let rest = instruction_offsets(code, next);
            assert forall|i: int| 0 <= i < instruction_offsets(code, start).len() implies start <= (
            #[trigger] instruction_offsets(code, start)[i]) < code.len() by {
                if i > 0 {
                    assert(instruction_offsets(code, start)[i] == rest[i - 1]);
                }
            }
        }
    }
}

/// Appending bytes to code keeps every instruction that the code had, at
/// its place: the walk over the longer code begins as the walk over the
/// shorter one.
pub proof fn lemma_instruction_offsets_extend(code: Seq<u8>, more: Seq<u8>, start: int)
    ensures
        instruction_offsets(code, start).is_prefix_of(instruction_offsets(code + more, start)),
    decreases code.len() - start,
{
    if 0 <= start < code.len() {
        let next = start + 1 + immediate_len(code[start]);
        assert((code + more)[start] == code[start]);
        if next <= code.len() {
            lemma_instruction_offsets_extend(code, more, next);
            let short = instruction_offsets(code, next);
            let long = instruction_offsets(code + more, next);
            assert forall|i: int| 0 <= i < (seq![start] + short).len() implies (seq![start]
                + short)[i] == (seq![start] + long)[i] by {
                if i > 0 {
                    assert(short[i - 1] == long[i - 1]);
                }
            }
        }
    }
}

/// Appending bytes to code keeps the cost of every instruction that the
/// code had, so the instructions of the longer code cost no less in sum.
pub proof fn lemma_instruction_costs_extend(code: Seq<u8>, more: Seq<u8>)
    ensures
        instruction_costs(code).is_prefix_of(instruction_costs(code + more)),
{
    lemma_instruction_offsets_extend(code, more, 0);
    lemma_instruction_offsets_in_code(code, 0);
    let short = instruction_offsets(code, 0);
    let long = instruction_offsets(code + more, 0);
    assert forall|i: int| 0 <= i < instruction_costs(code).len() implies instruction_costs(
        code,
    )[i] == instruction_costs(code + more)[i] by {
        assert(short[i] == long[i]);
        assert((code + more)[short[i]] == code[short[i]]);
    }
}

/// Metering the blob instructions and unknown bytes under another opcode
/// changes no cost: none of them has a static cost under either.
pub proof fn lemma_runtime_opcode_keeps_cost(opcode: u8)
    ensures
        static_opcode_cost_spec(runtime_opcode(opcode)) == static_opcode_cost_spec(opcode),
{
}

} // verus!
