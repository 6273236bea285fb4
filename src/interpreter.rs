use crate::errors::{ErrorKind, Fault, InstructionError};
use crate::instructions::Instruction;
use crate::semantics::{exec, lemma_failure_persists, reply_of, step_spec};
use crate::stack::{top_first, Stack};
use crate::utf8::decode_utf8;
use crate::values::{types_of, values_view, AbstractValue, InterfaceType, InterfaceValue};
use crate::wasm::{Export, Instance, Memory};
use vstd::prelude::*;

verus! {

/// What a step returned, over the stack it left.
pub open spec fn step_outcome(r: Result<(), ErrorKind>, stack: Seq<InterfaceValue>) -> Result<
    Seq<AbstractValue>,
    Fault,
> {
    match r {
        Ok(_) => Ok(values_view(stack)),
        Err(k) => Err(k@),
    }
}

/// What a run returned.
pub open spec fn run_outcome(r: Result<Stack<InterfaceValue>, InstructionError>) -> Result<
    Seq<AbstractValue>,
    (Instruction, Fault),
> {
    match r {
        Ok(stack) => Ok(values_view(stack@)),
        Err(e) => Err((e.instruction, e.kind@)),
    }
}

/// `arg.get index`: pushes a copy of the invocation input at `index`.
pub fn argument_get(stack: &mut Stack<InterfaceValue>, inputs: &[InterfaceValue], index: u64) -> (r:
    Result<(), ErrorKind>)
    ensures
        (index as int) < inputs@.len() ==> r is Ok && final(stack)@ == old(stack)@.push(
            inputs@[index as int],
        ),
        (index as int) >= inputs@.len() ==> r == Err::<(), ErrorKind>(
            ErrorKind::OutOfRangeArgument { index },
        ) && final(stack)@ == old(stack)@,
{
    if index >= inputs.len() as u64 {
        return Err(ErrorKind::OutOfRangeArgument { index });
    }
    stack.push(inputs[index as usize].duplicate());
    Ok(())
}

fn copy_types(ts: &[InterfaceType]) -> (r: Vec<InterfaceType>)
    ensures
        r@ == ts@,
{
    let mut r: Vec<InterfaceType> = Vec::new();
    let mut i: usize = 0;
    while i < ts.len()
        invariant
            i <= ts@.len(),
            r@ == ts@.subrange(0, i as int),
        decreases ts@.len() - i,
    {
        r.push(ts[i]);
        i = i + 1;
        assert(r@ =~= ts@.subrange(0, i as int));
    }
    assert(ts@.subrange(0, ts@.len() as int) =~= ts@);
    r
}

/// Takes the `cardinality` topmost values off the stack, the topmost first,
/// as the arguments of an export whose input types are `expected`.
pub fn take_arguments(stack: &mut Stack<InterfaceValue>, cardinality: usize, expected: &[InterfaceType]) -> (r:
    Result<Vec<InterfaceValue>, ErrorKind>)
    ensures
        cardinality > old(stack)@.len() ==> r == Err::<Vec<InterfaceValue>, ErrorKind>(
            ErrorKind::StackUnderflow { needed: cardinality },
        ) && final(stack)@ == old(stack)@,
        cardinality <= old(stack)@.len() ==> {
            let taken = top_first(old(stack)@, cardinality as nat);
            &&& final(stack)@ == old(stack)@.subrange(0, old(stack)@.len() - cardinality)
            &&& types_of(values_view(taken)) == expected@ ==> r is Ok && r->Ok_0@ == taken
            &&& types_of(values_view(taken)) != expected@ ==> r is Err && r->Err_0@ == (
            Fault::SignatureMismatch { expected: expected@ })
        },
{
    match stack.pop(cardinality) {
        None => Err(ErrorKind::StackUnderflow { needed: cardinality }),
        Some(arguments) => {
            let ghost tys = types_of(values_view(arguments@));
            let mut same: bool = arguments.len() == expected.len();
            let mut i: usize = 0;
            while same && i < arguments.len()
                invariant
                    i <= arguments@.len(),
                    tys == types_of(values_view(arguments@)),
                    same ==> arguments@.len() == expected@.len(),
                    same ==> forall|j: int| 0 <= j < i ==> tys[j] == expected@[j],
                    !same ==> tys != expected@,
                decreases arguments@.len() - i + (if same { 1int } else { 0 }),
            {
                if arguments[i].ty() != expected[i] {
                    same = false;
                    assert(tys[i as int] != expected@[i as int]);
                } else {
                    i = i + 1;
                }
            }
            if same {
                assert(tys =~= expected@);
                Ok(arguments)
            } else {
                Err(ErrorKind::SignatureMismatch { expected: copy_types(expected) })
            }
        },
    }
}

/// Pushes what an export returned, in its order; a failed call is reported
/// under the export's name.
pub fn push_results(stack: &mut Stack<InterfaceValue>, name: &String, outcome: Result<
    Vec<InterfaceValue>,
    (),
>) -> (r: Result<(), ErrorKind>)
    ensures
        match outcome {
            Ok(outputs) => r is Ok && final(stack)@ == old(stack)@ + outputs@,
            Err(_) => r is Err && r->Err_0@ == (Fault::ExportCallFailed { name: name@ })
                && final(stack)@ == old(stack)@,
        },
{
    match outcome {
        Ok(outputs) => {
            let ghost s0 = stack@;
            let mut i: usize = 0;
            while i < outputs.len()
                invariant
                    i <= outputs@.len(),
                    stack@ == s0 + outputs@.subrange(0, i as int),
                decreases outputs@.len() - i,
            {
                stack.push(outputs[i].duplicate());
                i = i + 1;
                assert(stack@ =~= s0 + outputs@.subrange(0, i as int));
            }
            assert(outputs@.subrange(0, outputs@.len() as int) =~= outputs@);
            Ok(())
        },
        Err(_) => Err(ErrorKind::ExportCallFailed { name: name.clone() }),
    }
}

/// The length (the top value) and the pointer (the value below) of
/// `read-utf8`, both `i32` wasm addresses read as unsigned: the pointer and
/// the length, or a conversion error.
pub fn read_operands(length_value: &InterfaceValue, pointer_value: &InterfaceValue) -> (r: Result<
    (u32, u32),
    ErrorKind,
>)
    ensures
        match (length_value@, pointer_value@) {
            (AbstractValue::I32(len), AbstractValue::I32(ptr)) => r == Ok::<(u32, u32), ErrorKind>(
                (ptr as u32, len as u32),
            ),
            _ => r == Err::<(u32, u32), ErrorKind>(
                ErrorKind::ConversionError { expected: InterfaceType::I32 },
            ),
        },
{
    let length = match length_value.to_i32() {
        Ok(n) => n as u32,
        Err(e) => return Err(ErrorKind::ConversionError { expected: e.expected }),
    };
    let pointer = match pointer_value.to_i32() {
        Ok(n) => n as u32,
        Err(e) => return Err(ErrorKind::ConversionError { expected: e.expected }),
    };
    Ok((pointer, length))
}

/// The range of `length` bytes from `pointer` in a memory of `memory_length`
/// bytes, or the bounds error when it ends past the memory.
pub fn memory_range(pointer: u32, length: u32, memory_length: usize) -> (r: Result<
    (usize, usize),
    ErrorKind,
>)
    ensures
        pointer + length > memory_length ==> r == Err::<(usize, usize), ErrorKind>(
            ErrorKind::OutOfBoundsMemoryAccess {
                end: (pointer + length) as u64,
                length: memory_length,
            },
        ),
        pointer + length <= memory_length ==> r == Ok::<(usize, usize), ErrorKind>(
            (pointer as usize, length as usize),
        ),
{
    let end: u64 = pointer as u64 + length as u64;
    if end > memory_length as u64 {
        return Err(ErrorKind::OutOfBoundsMemoryAccess { end, length: memory_length });
    }
    Ok((pointer as usize, length as usize))
}

/// Pushes the string that a decoding gave, or reports where it failed.
pub fn push_decoded(stack: &mut Stack<InterfaceValue>, decoded: Result<String, (usize, String)>) -> (r:
    Result<(), ErrorKind>)
    ensures
        match decoded {
            Ok(s) => r is Ok && final(stack)@ == old(stack)@.push(InterfaceValue::String(s)),
            Err((offset, detail)) => r == Err::<(), ErrorKind>(ErrorKind::InvalidUtf8 { offset, detail })
                && final(stack)@ == old(stack)@,
        },
{
    match decoded {
        Ok(s) => {
            stack.push(InterfaceValue::String(s));
            Ok(())
        },
        Err((offset, detail)) => Err(ErrorKind::InvalidUtf8 { offset, detail }),
    }
}

fn read_bytes<M: Memory>(memory: &M, pointer: usize, length: usize) -> (r: Vec<u8>)
    requires
        pointer + length <= memory.spec_bytes().len(),
        pointer + length <= usize::MAX,
    ensures
        r@ == memory.spec_bytes().subrange(pointer as int, pointer + length),
{
    let mut bytes: Vec<u8> = Vec::new();
    let mut i: usize = 0;
    while i < length
        invariant
            i <= length,
            pointer + length <= memory.spec_bytes().len(),
            pointer + length <= usize::MAX,
            bytes@ == memory.spec_bytes().subrange(pointer as int, pointer + i),
        decreases length - i,
    {
        bytes.push(memory.read_byte(pointer + i));
        i = i + 1;
        assert(bytes@ =~= memory.spec_bytes().subrange(pointer as int, pointer + i));
    }
    bytes
}

fn call_export<E: Export, M: Memory, I: Instance<E, M>>(
    name: &String,
    stack: &mut Stack<InterfaceValue>,
    instance: &I,
) -> (r: Result<(), ErrorKind>)
    ensures
        ({
            let s0 = values_view(old(stack)@);
            let instruction = Instruction::CallExport(*name);
            step_spec(instruction, Seq::empty(), s0, reply_of::<E, M, I>(*instance, instruction, s0))
                == step_outcome(r, final(stack)@)
        }),
{
    let ghost s0 = values_view(stack@);
    match instance.export(name.as_str()) {
        None => Err(ErrorKind::ExportNotFound { name: name.clone() }),
        Some(export) => {
            let cardinality = export.inputs_cardinality();
            let signature = export.inputs();
            let ghost old_stack = stack@;
            let taken = take_arguments(stack, cardinality, signature);
            proof {
                if cardinality <= old_stack.len() {
                    assert(values_view(top_first(old_stack, cardinality as nat)) =~= top_first(
                        s0,
                        cardinality as nat,
                    ));
                    assert(values_view(stack@) =~= s0.subrange(0, s0.len() - cardinality));
                }
            }
            match taken {
                Err(e) => Err(e),
                Ok(arguments) => {
                    let outcome = export.call(arguments.as_slice());
                    let ghost before = stack@;
                    let r = push_results(stack, name, outcome);
                    proof {
                        if r is Ok {
                            let results = export.spec_call(values_view(arguments@));
                            assert(values_view(stack@) =~= values_view(before) + results.unwrap());
                        }
                    }
                    r
                },
            }
        },
    }
}

fn read_utf8<E: Export, M: Memory, I: Instance<E, M>>(
    stack: &mut Stack<InterfaceValue>,
    instance: &I,
) -> (r: Result<(), ErrorKind>)
    ensures
        ({
            let s0 = values_view(old(stack)@);
            step_spec(Instruction::ReadUtf8, Seq::empty(), s0, reply_of::<E, M, I>(*instance, Instruction::ReadUtf8, s0))
                == step_outcome(r, final(stack)@)
        }),
{
    let ghost s0 = values_view(stack@);
    match stack.pop(2) {
        None => Err(ErrorKind::StackUnderflow { needed: 2 }),
        Some(operands) => {
            assert(operands@[0]@ == s0.last());
            assert(operands@[1]@ == s0[s0.len() - 2]);
            match read_operands(&operands[0], &operands[1]) {
                Err(e) => Err(e),
                Ok((pointer, length)) => match instance.memory(0) {
                    None => Err(ErrorKind::NoMemory),
                    Some(memory) => {
                        let memory_length = memory.length();
                        match memory_range(pointer, length, memory_length) {
                            Err(e) => Err(e),
                            Ok((start, count)) => {
                                let bytes = read_bytes(memory, start, count);
                                let ghost before = stack@;
                                let r = push_decoded(stack, decode_utf8(bytes));
                                proof {
                                    if r is Ok {
                                        assert(values_view(before) =~= s0.subrange(0, s0.len() - 2));
                                        assert(values_view(stack@) =~= values_view(before).push(
                                            AbstractValue::String(stack@.last()@->String_0),
                                        ));
                                    }
                                }
                                r
                            },
                        }
                    },
                },
            }
        },
    }
}

fn execute<E: Export, M: Memory, I: Instance<E, M>>(
    instruction: &Instruction,
    stack: &mut Stack<InterfaceValue>,
    inputs: &[InterfaceValue],
    instance: &I,
) -> (r: Result<(), ErrorKind>)
    ensures
        ({
            let s0 = values_view(old(stack)@);
            step_spec(*instruction, values_view(inputs@), s0, reply_of::<E, M, I>(*instance, *instruction, s0))
                == step_outcome(r, final(stack)@)
        }),
{
    let ghost s0 = stack@;
    match instruction {
        Instruction::ArgumentGet(index) => {
            let r = argument_get(stack, inputs, *index);
            proof {
                if r is Ok {
                    assert(values_view(stack@) =~= values_view(s0).push(
                        values_view(inputs@)[*index as int],
                    ));
                }
            }
            r
        },
        Instruction::Call(_) => Ok(()),
        Instruction::CallExport(name) => call_export(name, stack, instance),
        Instruction::ReadUtf8 => read_utf8(stack, instance),
        _ => Err(ErrorKind::UnsupportedOpcode),
    }
}

/// A compiled adapter: the instructions to run, each one of the opcodes
/// that this interpreter executes. It holds no state of its own between runs.
pub struct Interpreter {
    executable_instructions: Vec<Instruction>,
}

impl View for Interpreter {
    type V = Seq<Instruction>;

    closed spec fn view(&self) -> Seq<Instruction> {
        self.executable_instructions@
    }
}

/// Whether every instruction of `program` is executed by the interpreter.
pub open spec fn all_supported(program: Seq<Instruction>) -> bool {
    forall|i: int| 0 <= i < program.len() ==> (#[trigger] program[i]).spec_is_supported()
}

impl Interpreter {
    /// Compiles `instructions`, one step for each, in order. Fails on the
    /// first instruction whose opcode is not executed here.
    pub fn try_from(instructions: &Vec<Instruction>) -> (r: Result<Interpreter, InstructionError>)
        ensures
            r is Ok <==> all_supported(instructions@),
            r is Ok ==> r->Ok_0@ == instructions@,
            r is Err ==> exists|j: int|
                0 <= j < instructions@.len() && !instructions@[j].spec_is_supported()
                    && all_supported(instructions@.subrange(0, j))
                    && r->Err_0.instruction == instructions@[j]
                    && r->Err_0.kind@ == Fault::UnsupportedOpcode,
    {
        let mut compiled: Vec<Instruction> = Vec::new();
        let mut i: usize = 0;
        while i < instructions.len()
            invariant
                i <= instructions@.len(),
                compiled@ == instructions@.subrange(0, i as int),
                all_supported(compiled@),
            decreases instructions@.len() - i,
        {
            let instruction = &instructions[i];
            if !instruction.is_supported() {
                assert(!all_supported(instructions@));
                return Err(
                    InstructionError { instruction: instruction.duplicate(), kind: ErrorKind::UnsupportedOpcode },
                );
            }
            compiled.push(instruction.duplicate());
            i = i + 1;
            assert(compiled@ =~= instructions@.subrange(0, i as int));
        }
        assert(instructions@.subrange(0, instructions@.len() as int) =~= instructions@);
        Ok(Interpreter { executable_instructions: compiled })
    }

    /// The compiled steps, in program order.
    pub fn iter(&self) -> (r: &[Instruction])
        ensures
            r@ == self@,
    {
        self.executable_instructions.as_slice()
    }

    /// Runs the program on a fresh empty stack: each step in order, stopping
    /// at the first that fails. Returns the final stack, or the failing
    /// instruction and why, as the semantics gives them for `wasm_instance`.
    pub fn run<E: Export, M: Memory, I: Instance<E, M>>(
        &self,
        invocation_inputs: &[InterfaceValue],
        wasm_instance: &I,
    ) -> (r: Result<Stack<InterfaceValue>, InstructionError>)
        ensures
            run_outcome(r) == exec::<E, M, I>(self@, values_view(invocation_inputs@), *wasm_instance),
    {
        let ghost inputs = values_view(invocation_inputs@);
        let ghost program = self@;
        let mut stack: Stack<InterfaceValue> = Stack::new();
        let mut i: usize = 0;
        assert(program.subrange(0, 0) =~= Seq::<Instruction>::empty());
        assert(values_view(stack@) =~= Seq::<AbstractValue>::empty());
        while i < self.executable_instructions.len()
            invariant
                program == self@,
                inputs == values_view(invocation_inputs@),
                i <= program.len(),
                exec::<E, M, I>(program.subrange(0, i as int), inputs, *wasm_instance) == Ok::<
                    Seq<AbstractValue>,
                    (Instruction, Fault),
                >(values_view(stack@)),
            decreases program.len() - i,
        {
            let instruction = &self.executable_instructions[i];
            let ghost before = values_view(stack@);
            let result = execute(instruction, &mut stack, invocation_inputs, wasm_instance);
            proof {
                let next = program.subrange(0, i + 1);
                assert(next.drop_last() =~= program.subrange(0, i as int));
                assert(next.last() == *instruction);
            }
            match result {
                Err(kind) => {
                    let e = InstructionError { instruction: instruction.duplicate(), kind };
                    proof {
                        assert(exec::<E, M, I>(program.subrange(0, i + 1), inputs, *wasm_instance)
                            == run_outcome(Err(e)));
                        lemma_failure_persists::<E, M, I>(program, inputs, *wasm_instance, i + 1);
                    }
                    return Err(e);
                },
                Ok(()) => {},
            }
            i = i + 1;
        }
        assert(program.subrange(0, program.len() as int) =~= program);
        Ok(stack)
    }
}

} // verus!
