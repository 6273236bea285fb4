use crate::errors::Fault;
use crate::instructions::Instruction;
use crate::stack::top_first;
use crate::utf8::utf8_decoding;
use crate::values::{types_of, AbstractValue, InterfaceType};
use crate::wasm::{Export, Instance, Memory};
use vstd::prelude::*;

verus! {

/// What the instance answered while one instruction ran.
pub enum HostReply {
    /// The instruction did not consult the instance.
    Silent,
    /// The export looked up does not exist.
    MissingExport,
    /// The export looked up: its declared input count and input types, and
    /// what its call gave (`None` when the call failed).
    Export { cardinality: nat, inputs: Seq<InterfaceType>, outcome: Option<Seq<AbstractValue>> },
    /// The instance has no default memory.
    MissingMemory,
    /// The default memory: its length, and the bytes read from it.
    Memory { length: nat, bytes: Seq<u8> },
}

/// A wasm address held in an `i32`, read as unsigned.
pub open spec fn address(n: i32) -> nat {
    (n as u32) as nat
}

/// `read-utf8` on a length (the top value) and a pointer (the value below),
/// given the default memory: the decoded characters, or why it failed. Both
/// values must be `i32`s before the memory is consulted.
pub open spec fn read_utf8_spec(
    length_value: AbstractValue,
    pointer_value: AbstractValue,
    reply: HostReply,
) -> Result<Seq<char>, Fault> {
    match (length_value, pointer_value) {
        (AbstractValue::I32(len), AbstractValue::I32(ptr)) => match reply {
            HostReply::Memory { length: memory_length, bytes } => {
                let end = address(ptr) + address(len);
                if end > memory_length {
                    Err(Fault::OutOfBoundsMemoryAccess { end, length: memory_length })
                } else {
                    match utf8_decoding(bytes) {
                        Ok(chars) => Ok(chars),
                        Err((offset, detail)) => Err(Fault::InvalidUtf8 { offset, detail }),
                    }
                }
            },
            _ => Err(Fault::NoMemory),
        },
        _ => Err(Fault::ConversionError { expected: InterfaceType::I32 }),
    }
}

/// `call-export` with the export's reply: the new stack or why it failed.
pub open spec fn call_export_spec(
    name: Seq<char>,
    stack: Seq<AbstractValue>,
    reply: HostReply,
) -> Result<Seq<AbstractValue>, Fault> {
    match reply {
        HostReply::Export { cardinality, inputs, outcome } => {
            if cardinality > stack.len() {
                Err(Fault::StackUnderflow { needed: cardinality })
            } else if types_of(top_first(stack, cardinality)) != inputs {
                Err(Fault::SignatureMismatch { expected: inputs })
            } else {
                match outcome {
                    Some(outputs) => Ok(stack.subrange(0, stack.len() - cardinality) + outputs),
                    None => Err(Fault::ExportCallFailed { name }),
                }
            }
        },
        _ => Err(Fault::ExportNotFound { name }),
    }
}

/// One instruction on a stack, given the invocation inputs and what the
/// instance answered: the new stack or why it failed.
pub open spec fn step_spec(
    instruction: Instruction,
    inputs: Seq<AbstractValue>,
    stack: Seq<AbstractValue>,
    reply: HostReply,
) -> Result<Seq<AbstractValue>, Fault> {
    match instruction {
        Instruction::ArgumentGet(index) => {
            if (index as int) < inputs.len() {
                Ok(stack.push(inputs[index as int]))
            } else {
                Err(Fault::OutOfRangeArgument { index })
            }
        },
        Instruction::Call(_) => Ok(stack),
        Instruction::CallExport(name) => call_export_spec(name@, stack, reply),
        Instruction::ReadUtf8 => {
            if stack.len() < 2 {
                Err(Fault::StackUnderflow { needed: 2 })
            } else {
                match read_utf8_spec(stack.last(), stack[stack.len() - 2], reply) {
                    Ok(chars) => Ok(stack.subrange(0, stack.len() - 2).push(AbstractValue::String(chars))),
                    Err(f) => Err(f),
                }
            }
        },
        _ => Err(Fault::UnsupportedOpcode),
    }
}

/// The bytes that `read-utf8` reads out of `bytes` for the two topmost
/// values of `stack`, when they are `i32`s naming a range inside `bytes`.
pub open spec fn range_read(bytes: Seq<u8>, stack: Seq<AbstractValue>) -> Seq<u8> {
    if stack.len() < 2 {
        Seq::empty()
    } else {
        match (stack.last(), stack[stack.len() - 2]) {
            (AbstractValue::I32(len), AbstractValue::I32(ptr)) => {
                if address(ptr) + address(len) <= bytes.len() {
                    bytes.subrange(address(ptr) as int, (address(ptr) + address(len)) as int)
                } else {
                    Seq::empty()
                }
            },
            _ => Seq::empty(),
        }
    }
}

/// What `instance` answers to `instruction` run on `stack`.
pub open spec fn reply_of<E: Export, M: Memory, I: Instance<E, M>>(
    instance: I,
    instruction: Instruction,
    stack: Seq<AbstractValue>,
) -> HostReply {
    match instruction {
        Instruction::CallExport(name) => match instance.spec_export(name@) {
            Some(e) => HostReply::Export {
                cardinality: e.spec_inputs().len(),
                inputs: e.spec_inputs(),
                outcome: e.spec_call(top_first(stack, e.spec_inputs().len())),
            },
            None => HostReply::MissingExport,
        },
        Instruction::ReadUtf8 => match instance.spec_memory(0) {
            Some(m) => HostReply::Memory {
                length: m.spec_bytes().len(),
                bytes: range_read(m.spec_bytes(), stack),
            },
            None => HostReply::MissingMemory,
        },
        _ => HostReply::Silent,
    }
}

/// A program run on `instance` from an empty stack: the final stack, or the
/// first failing instruction and why.
pub open spec fn exec<E: Export, M: Memory, I: Instance<E, M>>(
    program: Seq<Instruction>,
    inputs: Seq<AbstractValue>,
    instance: I,
) -> Result<Seq<AbstractValue>, (Instruction, Fault)>
    decreases program.len(),
{
    if program.len() == 0 {
        Ok(Seq::empty())
    } else {
        match exec::<E, M, I>(program.drop_last(), inputs, instance) {
            Ok(stack) => match step_spec(
                program.last(),
                inputs,
                stack,
                reply_of::<E, M, I>(instance, program.last(), stack),
            ) {
                Ok(next) => Ok(next),
                Err(f) => Err((program.last(), f)),
            },
            Err(e) => Err(e),
        }
    }
}

/// Once a prefix of a program fails, the whole program fails the same way.
pub proof fn lemma_failure_persists<E: Export, M: Memory, I: Instance<E, M>>(
    program: Seq<Instruction>,
    inputs: Seq<AbstractValue>,
    instance: I,
    n: int,
)
    requires
        0 <= n <= program.len(),
        exec::<E, M, I>(program.subrange(0, n), inputs, instance) is Err,
    ensures
        exec::<E, M, I>(program, inputs, instance) == exec::<E, M, I>(program.subrange(0, n), inputs, instance),
    decreases program.len(),
{
    if n == program.len() {
        assert(program.subrange(0, n) =~= program);
    } else {
        assert(program.drop_last().subrange(0, n) =~= program.subrange(0, n));
        lemma_failure_persists::<E, M, I>(program.drop_last(), inputs, instance, n);
    }
}

} // verus!
