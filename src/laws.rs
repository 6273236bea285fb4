use crate::errors::Fault;
use crate::instructions::Instruction;
use crate::semantics::{address, exec, reply_of};
use crate::stack::top_first;
use crate::values::{types_of, AbstractValue};
use crate::wasm::{Export, Instance, Memory};
use vstd::prelude::*;

verus! {

/// A run is determined by the program, the invocation inputs, the exports of
/// the instance (by name) and its default memory: two instances that agree on
/// these give the same stack or the same error, and so do two runs on one
/// unchanged instance.
pub proof fn lemma_run_deterministic<E: Export, M: Memory, I: Instance<E, M>>(
    program: Seq<Instruction>,
    inputs: Seq<AbstractValue>,
    instance1: I,
    instance2: I,
)
    requires
        forall|name: Seq<char>| instance1.spec_export(name) == instance2.spec_export(name),
        instance1.spec_memory(0) == instance2.spec_memory(0),
    ensures
        exec::<E, M, I>(program, inputs, instance1) == exec::<E, M, I>(program, inputs, instance2),
    decreases program.len(),
{
    if program.len() > 0 {
        lemma_run_deterministic::<E, M, I>(program.drop_last(), inputs, instance1, instance2);
        match exec::<E, M, I>(program.drop_last(), inputs, instance1) {
            Ok(stack) => {
                assert(reply_of::<E, M, I>(instance1, program.last(), stack) == reply_of::<E, M, I>(
                    instance2,
                    program.last(),
                    stack,
                ));
            },
            Err(_) => {},
        }
    }
}

/// `arg.get i` after a program that left stack `s` pushes `inputs[i]`
/// unchanged when `i` is in range, and fails with `OutOfRangeArgument(i)`
/// otherwise.
pub proof fn lemma_argument_get_pushes_input<E: Export, M: Memory, I: Instance<E, M>>(
    prefix: Seq<Instruction>,
    inputs: Seq<AbstractValue>,
    instance: I,
    index: u64,
    s: Seq<AbstractValue>,
)
    requires
        exec::<E, M, I>(prefix, inputs, instance) == Ok::<Seq<AbstractValue>, (Instruction, Fault)>(s),
    ensures
        exec::<E, M, I>(prefix.push(Instruction::ArgumentGet(index)), inputs, instance) == if (index as int)
            < inputs.len() {
            Ok::<Seq<AbstractValue>, (Instruction, Fault)>(s.push(inputs[index as int]))
        } else {
            Err((Instruction::ArgumentGet(index), Fault::OutOfRangeArgument { index }))
        },
{
    assert(prefix.push(Instruction::ArgumentGet(index)).drop_last() =~= prefix);
}

/// `call-export` whose arity or type check fails on the stack `s` left by
/// the program before it fails with that check's error, whatever the export
/// would return: the outcome does not involve the call.
pub proof fn lemma_call_export_check_precedes_call<E: Export, M: Memory, I: Instance<E, M>>(
    prefix: Seq<Instruction>,
    inputs: Seq<AbstractValue>,
    instance: I,
    name: String,
    export: E,
    s: Seq<AbstractValue>,
)
    requires
        exec::<E, M, I>(prefix, inputs, instance) == Ok::<Seq<AbstractValue>, (Instruction, Fault)>(s),
        instance.spec_export(name@) == Some(export),
        export.spec_inputs().len() > s.len() || types_of(top_first(s, export.spec_inputs().len()))
            != export.spec_inputs(),
    ensures
        exec::<E, M, I>(prefix.push(Instruction::CallExport(name)), inputs, instance) == Err::<
            Seq<AbstractValue>,
            (Instruction, Fault),
        >(
            (
                Instruction::CallExport(name),
                if export.spec_inputs().len() > s.len() {
                    Fault::StackUnderflow { needed: export.spec_inputs().len() }
                } else {
                    Fault::SignatureMismatch { expected: export.spec_inputs() }
                },
            ),
        ),
{
    assert(prefix.push(Instruction::CallExport(name)).drop_last() =~= prefix);
}

/// `read-utf8` on a stack of fewer than two values fails with an underflow,
/// whatever the memory holds.
pub proof fn lemma_read_utf8_underflow<E: Export, M: Memory, I: Instance<E, M>>(
    prefix: Seq<Instruction>,
    inputs: Seq<AbstractValue>,
    instance: I,
    s: Seq<AbstractValue>,
)
    requires
        exec::<E, M, I>(prefix, inputs, instance) == Ok::<Seq<AbstractValue>, (Instruction, Fault)>(s),
        s.len() < 2,
    ensures
        exec::<E, M, I>(prefix.push(Instruction::ReadUtf8), inputs, instance) == Err::<
            Seq<AbstractValue>,
            (Instruction, Fault),
        >((Instruction::ReadUtf8, Fault::StackUnderflow { needed: 2 })),
{
    assert(prefix.push(Instruction::ReadUtf8).drop_last() =~= prefix);
}

/// `read-utf8` whose range ends past the default memory fails with the
/// bounds error, whatever the bytes: it does not decode.
pub proof fn lemma_read_utf8_bounds_precede_decoding<E: Export, M: Memory, I: Instance<E, M>>(
    prefix: Seq<Instruction>,
    inputs: Seq<AbstractValue>,
    instance: I,
    memory: M,
    s: Seq<AbstractValue>,
    length: i32,
    pointer: i32,
)
    requires
        exec::<E, M, I>(prefix, inputs, instance) == Ok::<Seq<AbstractValue>, (Instruction, Fault)>(s),
        s.len() >= 2,
        s.last() == AbstractValue::I32(length),
        s[s.len() - 2] == AbstractValue::I32(pointer),
        instance.spec_memory(0) == Some(memory),
        address(pointer) + address(length) > memory.spec_bytes().len(),
    ensures
        exec::<E, M, I>(prefix.push(Instruction::ReadUtf8), inputs, instance) == Err::<
            Seq<AbstractValue>,
            (Instruction, Fault),
        >(
            (
                Instruction::ReadUtf8,
                Fault::OutOfBoundsMemoryAccess {
                    end: address(pointer) + address(length),
                    length: memory.spec_bytes().len(),
                },
            ),
        ),
{
    assert(prefix.push(Instruction::ReadUtf8).drop_last() =~= prefix);
}

/// Pushing an invocation input and calling an identity export of one input
/// of its type leaves the stack holding that value on top of what was there.
pub proof fn lemma_identity_export_round_trip<E: Export, M: Memory, I: Instance<E, M>>(
    prefix: Seq<Instruction>,
    inputs: Seq<AbstractValue>,
    instance: I,
    name: String,
    export: E,
    index: u64,
    s: Seq<AbstractValue>,
)
    requires
        exec::<E, M, I>(prefix, inputs, instance) == Ok::<Seq<AbstractValue>, (Instruction, Fault)>(s),
        (index as int) < inputs.len(),
        instance.spec_export(name@) == Some(export),
        export.spec_inputs() == seq![inputs[index as int].ty()],
        forall|xs: Seq<AbstractValue>| #[trigger] export.spec_call(xs) == Some(xs),
    ensures
        exec::<E, M, I>(
            prefix.push(Instruction::ArgumentGet(index)).push(Instruction::CallExport(name)),
            inputs,
            instance,
        ) == Ok::<Seq<AbstractValue>, (Instruction, Fault)>(s.push(inputs[index as int])),
{
    let value = inputs[index as int];
    let first = prefix.push(Instruction::ArgumentGet(index));
    lemma_argument_get_pushes_input::<E, M, I>(prefix, inputs, instance, index, s);
    assert(first.push(Instruction::CallExport(name)).drop_last() =~= first);
    let pushed = s.push(value);
    assert(top_first(pushed, 1) =~= seq![value]);
    assert(types_of(seq![value]) =~= seq![value.ty()]);
    assert(export.spec_call(seq![value]) == Some(seq![value]));
    assert(pushed.subrange(0, pushed.len() - 1) + seq![value] =~= pushed);
}

} // verus!
